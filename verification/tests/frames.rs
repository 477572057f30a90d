use gs_studio::frames::{count_frame_files, frame_file_name, is_frame_file, ExtractionRequest};
use gs_studio::video::FrameRate;

#[test]
fn frame_names_have_four_digits() {
    assert_eq!(frame_file_name(1), "frame_0001.png");
    assert_eq!(frame_file_name(0), "frame_0000.png");
    assert_eq!(frame_file_name(9), "frame_0009.png");
    assert_eq!(frame_file_name(10), "frame_0010.png");
    assert_eq!(frame_file_name(42), "frame_0042.png");
    assert_eq!(frame_file_name(99), "frame_0099.png");
    assert_eq!(frame_file_name(100), "frame_0100.png");
    assert_eq!(frame_file_name(999), "frame_0999.png");
    assert_eq!(frame_file_name(1000), "frame_1000.png");
    assert_eq!(frame_file_name(9999), "frame_9999.png");
}

#[test]
fn frame_names_grow_past_four_digits() {
    assert_eq!(frame_file_name(10000), "frame_10000.png");
    assert_eq!(frame_file_name(u32::MAX), "frame_4294967295.png");
}

#[test]
fn frame_names_agree_with_the_formatter() {
    let numbers: Vec<u32> = vec![0, 1, 5, 10, 11, 101, 1001, 1234, 56789, 1000000, 305419896];
    for n in numbers.iter() {
        assert_eq!(frame_file_name(*n), format!("frame_{:04}.png", n));
    }
}

#[test]
fn filter_gives_rate_and_size() {
    let whole: ExtractionRequest = ExtractionRequest { fps: FrameRate { num: 30, den: 1 }, width: 1920, height: 1080 };
    assert_eq!(whole.filter(), "fps=30,scale=1920:1080");
    let film: ExtractionRequest = ExtractionRequest { fps: FrameRate { num: 30000, den: 1001 }, width: 1280, height: 720 };
    assert_eq!(film.filter(), "fps=30000/1001,scale=1280:720");
    let odd: ExtractionRequest = ExtractionRequest { fps: FrameRate { num: 0, den: 0 }, width: 0, height: u32::MAX };
    assert_eq!(odd.filter(), "fps=0/0,scale=0:4294967295");
}

#[test]
fn frames_end_in_png() {
    assert!(is_frame_file("frame_0001.png"));
    assert!(is_frame_file("a.png"));
    assert!(is_frame_file("a.b.png"));
    assert!(is_frame_file("..png"));
    assert!(is_frame_file("写真.png"));
}

#[test]
fn other_files_are_no_frames() {
    assert!(!is_frame_file(""));
    assert!(!is_frame_file("png"));
    assert!(!is_frame_file(".png"));
    assert!(!is_frame_file("frame_0001.jpg"));
    assert!(!is_frame_file("frame_0001.PNG"));
    assert!(!is_frame_file("frame_0001.png "));
    assert!(!is_frame_file("frame_0001png"));
    assert!(!is_frame_file("project.yaml"));
    assert!(!is_frame_file("a.pn"));
}

#[test]
fn frames_are_counted_among_files() {
    let names: Vec<String> = vec![
        String::from("frame_0001.png"),
        String::from("frame_0002.png"),
        String::from("notes.txt"),
        String::from(".png"),
        String::from("frame_0003.png"),
    ];
    assert_eq!(count_frame_files(&names), 3);
}

#[test]
fn an_empty_directory_has_no_frames() {
    let names: Vec<String> = Vec::new();
    assert_eq!(count_frame_files(&names), 0);
}

#[test]
fn extractor_is_called_with_filter_and_pattern() {
    let request: ExtractionRequest = ExtractionRequest { fps: FrameRate { num: 30, den: 1 }, width: 1920, height: 1080 };
    let expected: Vec<String> = vec![
        String::from("-i"),
        String::from("input/sample.mp4"),
        String::from("-vf"),
        String::from("fps=30,scale=1920:1080"),
        String::from("-vsync"),
        String::from("vfr"),
        String::from("-q:v"),
        String::from("2"),
        String::from("workspaces/run/frames/frame_%04d.png"),
    ];
    assert_eq!(request.extractor_arguments("input/sample.mp4", "workspaces/run/frames"), expected);
}
