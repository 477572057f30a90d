use gs_studio::frames::ExtractionRequest;
use gs_studio::pipeline::{
    Action, Event, Pipeline, PipelineError, Stage, Waiting, DEFAULT_FPS, DEFAULT_HEIGHT, DEFAULT_WIDTH,
};
use gs_studio::project::{ExtractionSettings, Project, ProjectState};
use gs_studio::video::{FrameRate, VideoMetadata};

fn fresh() -> Project {
    Project::new("run", String::from("input/sample.mp4"))
}

fn film() -> VideoMetadata {
    VideoMetadata { width: 1280, height: 720, fps: FrameRate { num: 30000, den: 1001 } }
}

#[test]
fn defaults_are_thirty_frames_of_full_hd() {
    assert_eq!(DEFAULT_FPS, 30);
    assert_eq!(DEFAULT_WIDTH, 1920);
    assert_eq!(DEFAULT_HEIGHT, 1080);
}

#[test]
fn stages_follow_settings_and_state() {
    let mut project: Project = fresh();
    assert_eq!(project.stage(), Stage::Uninitialized);
    assert!(project.needs_probe());
    project.config.extraction.fps = Some(FrameRate { num: 24, den: 1 });
    assert_eq!(project.stage(), Stage::Uninitialized);
    project.config.extraction.resolution = Some((640, 480));
    assert_eq!(project.stage(), Stage::MetadataPending);
    assert!(!project.needs_probe());
    project.state.is_extraction_completed = true;
    assert_eq!(project.stage(), Stage::Extracted);
}

#[test]
fn probe_fills_what_is_open() {
    let mut project: Project = fresh();
    project.merge_metadata(&film());
    assert_eq!(
        project.config.extraction,
        ExtractionSettings { fps: Some(FrameRate { num: 30000, den: 1001 }), resolution: Some((1280, 720)) }
    );
}

#[test]
fn probe_never_overwrites_what_is_set() {
    let mut project: Project = fresh();
    project.config.extraction.fps = Some(FrameRate { num: 5, den: 1 });
    project.merge_metadata(&film());
    assert_eq!(project.config.extraction.fps, Some(FrameRate { num: 5, den: 1 }));
    assert_eq!(project.config.extraction.resolution, Some((1280, 720)));

    let mut sized: Project = fresh();
    sized.config.extraction.resolution = Some((320, 240));
    sized.merge_metadata(&film());
    assert_eq!(sized.config.extraction.fps, Some(FrameRate { num: 30000, den: 1001 }));
    assert_eq!(sized.config.extraction.resolution, Some((320, 240)));

    let mut both: Project = fresh();
    both.config.extraction = ExtractionSettings { fps: Some(FrameRate { num: 1, den: 2 }), resolution: Some((8, 6)) };
    both.merge_metadata(&film());
    assert_eq!(
        both.config.extraction,
        ExtractionSettings { fps: Some(FrameRate { num: 1, den: 2 }), resolution: Some((8, 6)) }
    );
}

#[test]
fn request_falls_back_to_defaults() {
    let project: Project = fresh();
    assert_eq!(
        project.extraction_request(),
        Some(ExtractionRequest { fps: FrameRate { num: 30, den: 1 }, width: 1920, height: 1080 })
    );
    let mut half: Project = fresh();
    half.config.extraction.resolution = Some((640, 480));
    assert_eq!(
        half.extraction_request(),
        Some(ExtractionRequest { fps: FrameRate { num: 30, den: 1 }, width: 640, height: 480 })
    );
    let mut rated: Project = fresh();
    rated.config.extraction.fps = Some(FrameRate { num: 12, den: 5 });
    assert_eq!(
        rated.extraction_request(),
        Some(ExtractionRequest { fps: FrameRate { num: 12, den: 5 }, width: 1920, height: 1080 })
    );
}

#[test]
fn no_request_once_extracted() {
    let mut project: Project = fresh();
    project.state = ProjectState { is_extraction_completed: true, extracted_frame_count: 3 };
    assert_eq!(project.extraction_request(), None);
}

#[test]
fn completion_records_the_count() {
    let mut project: Project = fresh();
    assert_eq!(project.complete_extraction(250), Ok(()));
    assert_eq!(project.state, ProjectState { is_extraction_completed: true, extracted_frame_count: 250 });
}

#[test]
fn completion_without_frames_is_refused() {
    let mut project: Project = fresh();
    assert_eq!(project.complete_extraction(0), Err(PipelineError::NoFrames));
    assert_eq!(project.state, ProjectState { is_extraction_completed: false, extracted_frame_count: 0 });
}

#[test]
fn completion_is_not_repeated() {
    let mut project: Project = fresh();
    assert_eq!(project.complete_extraction(250), Ok(()));
    assert_eq!(project.complete_extraction(7), Ok(()));
    assert_eq!(project.state, ProjectState { is_extraction_completed: true, extracted_frame_count: 250 });
    assert_eq!(project.complete_extraction(0), Ok(()));
    assert_eq!(project.state, ProjectState { is_extraction_completed: true, extracted_frame_count: 250 });
}

#[test]
fn a_full_run_probes_extracts_and_saves() {
    let mut run: Pipeline = Pipeline::new(fresh());
    assert_eq!(run.waiting, Waiting::Start);
    assert_eq!(run.step(Event::Started), Action::Probe);
    assert_eq!(run.waiting, Waiting::Probe);
    assert_eq!(
        run.step(Event::Probed(film())),
        Action::Extract(ExtractionRequest { fps: FrameRate { num: 30000, den: 1001 }, width: 1280, height: 720 })
    );
    assert_eq!(run.waiting, Waiting::Extraction);
    assert_eq!(run.step(Event::Extracted(120)), Action::Save);
    assert_eq!(run.waiting, Waiting::Save);
    assert_eq!(run.project.state, ProjectState { is_extraction_completed: true, extracted_frame_count: 120 });
    assert_eq!(run.step(Event::Saved), Action::Finish);
    assert_eq!(run.waiting, Waiting::Nothing);
    assert_eq!(run.project.stage(), Stage::Extracted);
}

#[test]
fn a_failed_probe_leads_to_defaults() {
    let mut run: Pipeline = Pipeline::new(fresh());
    assert_eq!(run.step(Event::Started), Action::Probe);
    assert_eq!(
        run.step(Event::ProbeFailed),
        Action::Extract(ExtractionRequest { fps: FrameRate { num: 30, den: 1 }, width: 1920, height: 1080 })
    );
    assert_eq!(run.project.config.extraction, ExtractionSettings { fps: None, resolution: None });
}

#[test]
fn settled_settings_skip_the_probe() {
    let mut project: Project = fresh();
    project.config.extraction = ExtractionSettings { fps: Some(FrameRate { num: 10, den: 1 }), resolution: Some((64, 48)) };
    let mut run: Pipeline = Pipeline::new(project);
    assert_eq!(
        run.step(Event::Started),
        Action::Extract(ExtractionRequest { fps: FrameRate { num: 10, den: 1 }, width: 64, height: 48 })
    );
}

#[test]
fn a_second_run_extracts_nothing() {
    let mut project: Project = fresh();
    project.config.extraction = ExtractionSettings { fps: Some(FrameRate { num: 10, den: 1 }), resolution: Some((64, 48)) };
    project.state = ProjectState { is_extraction_completed: true, extracted_frame_count: 77 };
    let mut run: Pipeline = Pipeline::new(project);
    assert_eq!(run.step(Event::Started), Action::Finish);
    assert_eq!(run.waiting, Waiting::Nothing);
    assert_eq!(run.project.state, ProjectState { is_extraction_completed: true, extracted_frame_count: 77 });
}

#[test]
fn a_second_run_with_open_settings_probes_and_extracts_nothing() {
    let mut project: Project = fresh();
    project.state = ProjectState { is_extraction_completed: true, extracted_frame_count: 77 };
    let mut run: Pipeline = Pipeline::new(project);
    assert_eq!(run.step(Event::Started), Action::Probe);
    assert_eq!(run.step(Event::Probed(film())), Action::Finish);
    assert_eq!(run.project.state, ProjectState { is_extraction_completed: true, extracted_frame_count: 77 });
}

#[test]
fn no_event_moves_an_extracted_project() {
    let events: Vec<Event> = vec![
        Event::Started,
        Event::Probed(film()),
        Event::ProbeFailed,
        Event::Extracted(5),
        Event::Extracted(0),
        Event::ExtractionFailed,
        Event::ExtractionTimedOut,
        Event::Saved,
        Event::SaveFailed,
    ];
    let phases: Vec<Waiting> =
        vec![Waiting::Start, Waiting::Probe, Waiting::Extraction, Waiting::Save, Waiting::Nothing];
    for phase in phases.iter() {
        for event in events.iter() {
            let mut project: Project = fresh();
            project.state = ProjectState { is_extraction_completed: true, extracted_frame_count: 77 };
            let mut run: Pipeline = Pipeline { project, waiting: *phase };
            let action: Action = run.step(*event);
            assert!(!matches!(action, Action::Extract(_)));
            assert_eq!(
                run.project.state,
                ProjectState { is_extraction_completed: true, extracted_frame_count: 77 }
            );
        }
    }
}

#[test]
fn a_failed_extraction_ends_the_run_and_marks_nothing() {
    let mut run: Pipeline = Pipeline::new(fresh());
    run.step(Event::Started);
    run.step(Event::ProbeFailed);
    assert_eq!(run.step(Event::ExtractionFailed), Action::Abort(PipelineError::ExtractionFailed));
    assert_eq!(run.waiting, Waiting::Nothing);
    assert_eq!(run.project.state, ProjectState { is_extraction_completed: false, extracted_frame_count: 0 });
}

#[test]
fn an_extraction_out_of_time_ends_the_run_and_marks_nothing() {
    let mut run: Pipeline = Pipeline::new(fresh());
    run.step(Event::Started);
    run.step(Event::ProbeFailed);
    assert_eq!(run.step(Event::ExtractionTimedOut), Action::Abort(PipelineError::TimedOut));
    assert_eq!(run.waiting, Waiting::Nothing);
    assert_eq!(run.project.state, ProjectState { is_extraction_completed: false, extracted_frame_count: 0 });
}

#[test]
fn an_extraction_that_left_nothing_ends_the_run() {
    let mut run: Pipeline = Pipeline::new(fresh());
    run.step(Event::Started);
    run.step(Event::ProbeFailed);
    assert_eq!(run.step(Event::Extracted(0)), Action::Abort(PipelineError::NoFrames));
    assert_eq!(run.project.state, ProjectState { is_extraction_completed: false, extracted_frame_count: 0 });
}

#[test]
fn a_failed_save_ends_the_run() {
    let mut run: Pipeline = Pipeline::new(fresh());
    run.step(Event::Started);
    run.step(Event::ProbeFailed);
    run.step(Event::Extracted(4));
    assert_eq!(run.step(Event::SaveFailed), Action::Abort(PipelineError::SaveFailed));
    assert_eq!(run.waiting, Waiting::Nothing);
}

#[test]
fn an_event_out_of_turn_ends_the_run() {
    let mut run: Pipeline = Pipeline::new(fresh());
    assert_eq!(run.step(Event::Extracted(4)), Action::Abort(PipelineError::Unexpected));
    assert_eq!(run.waiting, Waiting::Nothing);
    assert_eq!(run.project.state, ProjectState { is_extraction_completed: false, extracted_frame_count: 0 });
    assert_eq!(run.step(Event::Started), Action::Abort(PipelineError::Unexpected));
}

#[test]
fn a_run_keeps_the_targets() {
    let mut project: Project = fresh();
    project.update_target_point("p", 3, 4);
    let mut run: Pipeline = Pipeline::new(project);
    run.step(Event::Started);
    run.step(Event::Probed(film()));
    run.step(Event::Extracted(9));
    run.step(Event::Saved);
    assert_eq!(run.project.config.targets.len(), 1);
    assert_eq!(run.project.config.targets[0].points, vec![(3, 4)]);
    assert_eq!(run.project.config.project_name, "run");
}
