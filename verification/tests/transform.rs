use gs_studio::transform::{
    display_to_source, from_network, source_to_display, to_network, Scaled, NETWORK_SIDE,
};

#[test]
fn network_side_is_fixed() {
    assert_eq!(NETWORK_SIDE, 1024);
}

#[test]
fn source_pixel_scales_by_side_over_length() {
    assert_eq!(to_network(50, 100), Scaled { num: 51200, den: 100 });
    assert_eq!(to_network(0, 1920), Scaled { num: 0, den: 1920 });
    assert_eq!(to_network(1919, 1920), Scaled { num: 1919 * 1024, den: 1920 });
    assert_eq!(
        to_network(u32::MAX, u32::MAX),
        Scaled { num: 4294967295u64 * 1024, den: u32::MAX }
    );
}

#[test]
fn unknown_length_scales_by_one() {
    assert_eq!(to_network(7, 0), Scaled { num: 7, den: 1 });
    assert_eq!(from_network(Scaled { num: 7, den: 1 }, 0), 7);
    assert_eq!(from_network(Scaled { num: 15, den: 2 }, 0), 7);
}

#[test]
fn network_position_scales_back_and_truncates() {
    assert_eq!(from_network(Scaled { num: 51200, den: 100 }, 100), 50);
    assert_eq!(from_network(Scaled { num: 512, den: 1 }, 1920), 960);
    assert_eq!(from_network(Scaled { num: 1, den: 1 }, 1000), 0);
    assert_eq!(from_network(Scaled { num: 1023, den: 1 }, 100), 99);
}

#[test]
fn network_position_saturates() {
    assert_eq!(from_network(Scaled { num: u64::MAX, den: 1 }, u32::MAX), u32::MAX);
    assert_eq!(from_network(Scaled { num: u64::MAX, den: 1 }, 0), u32::MAX);
}

#[test]
fn round_trip_gives_the_pixel_back() {
    let lengths: Vec<u32> = vec![0, 1, 2, 3, 100, 640, 1023, 1024, 1025, 1080, 1920, 4096, 65535, u32::MAX];
    let pixels: Vec<u32> = vec![0, 1, 2, 49, 50, 99, 100, 1023, 1024, 1919, 4095, 1000000, u32::MAX];
    for length in lengths.iter() {
        for pixel in pixels.iter() {
            let back: u32 = from_network(to_network(*pixel, *length), *length);
            assert_eq!(back, *pixel);
            let gap: i64 = back as i64 - *pixel as i64;
            assert!(-1 <= gap && gap <= 1);
        }
    }
}

#[test]
fn click_maps_to_source_pixel() {
    assert_eq!(display_to_source(50, 200, 1920), 480);
    assert_eq!(display_to_source(199, 200, 1920), 1910);
    assert_eq!(display_to_source(1, 3, 10), 3);
    assert_eq!(display_to_source(0, 200, 1920), 0);
}

#[test]
fn click_with_unknown_resolution() {
    assert_eq!(display_to_source(150, 200, 0), 0);
    assert_eq!(display_to_source(200, 200, 0), 1);
}

#[test]
fn click_in_a_rectangle_without_extent() {
    assert_eq!(display_to_source(0, 0, 5), 0);
    assert_eq!(display_to_source(10, 0, 5), u32::MAX);
}

#[test]
fn click_far_outside_saturates() {
    assert_eq!(display_to_source(u32::MAX, 1, u32::MAX), u32::MAX);
}

#[test]
fn source_pixel_maps_to_display() {
    assert_eq!(source_to_display(480, 200, 1920), 50);
    assert_eq!(source_to_display(0, 200, 1920), 0);
    assert_eq!(source_to_display(1919, 200, 1920), 199);
    assert_eq!(source_to_display(3, 200, 0), 600);
    assert_eq!(source_to_display(u32::MAX, u32::MAX, 1), u32::MAX);
}

#[test]
fn whole_pixel_is_the_one_below() {
    assert_eq!(Scaled { num: 51200, den: 100 }.whole(), Scaled { num: 512, den: 1 });
    assert_eq!(Scaled { num: 1023, den: 1024 }.whole(), Scaled { num: 0, den: 1 });
    assert_eq!(Scaled { num: 7, den: 2 }.whole(), Scaled { num: 3, den: 1 });
    assert_eq!(Scaled { num: u64::MAX, den: 1 }.whole(), Scaled { num: u64::MAX, den: 1 });
}

#[test]
fn round_trip_through_whole_pixels_loses_at_most_one() {
    let lengths: Vec<u32> = vec![0, 1, 2, 3, 7, 100, 640, 1000, 1023, 1024];
    let pixels: Vec<u32> = vec![0, 1, 2, 3, 49, 50, 99, 333, 639, 1023, 1000000, u32::MAX];
    for length in lengths.iter() {
        for pixel in pixels.iter() {
            let back: u32 = from_network(to_network(*pixel, *length).whole(), *length);
            assert!(back <= *pixel);
            assert!(*pixel - back <= 1);
        }
    }
    assert_eq!(from_network(to_network(3, 1000).whole(), 1000), 2);
}

#[test]
fn round_trip_through_whole_pixels_loses_more_on_a_long_axis() {
    assert_eq!(from_network(to_network(3, 4096).whole(), 4096), 0);
}
