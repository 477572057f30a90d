use gs_studio::video::{
    metadata_from_fields, parse_fps, parse_probe_output, probe_arguments, FrameRate, ProbeError, RateError,
    VideoMetadata,
};

#[test]
fn rate_is_frames_over_seconds() {
    assert_eq!(parse_fps("30/1"), Ok(FrameRate { num: 30, den: 1 }));
    assert_eq!(parse_fps("30000/1001"), Ok(FrameRate { num: 30000, den: 1001 }));
    assert_eq!(parse_fps("0/1"), Ok(FrameRate { num: 0, den: 1 }));
    assert_eq!(parse_fps("007/02"), Ok(FrameRate { num: 7, den: 2 }));
    assert_eq!(parse_fps("4294967295/4294967295"), Ok(FrameRate { num: u32::MAX, den: u32::MAX }));
}

#[test]
fn rate_may_be_a_whole_number() {
    assert_eq!(parse_fps("30"), Ok(FrameRate { num: 30, den: 1 }));
    assert_eq!(parse_fps("0"), Ok(FrameRate { num: 0, den: 1 }));
}

#[test]
fn rate_without_seconds_is_refused() {
    assert_eq!(parse_fps("0/0"), Err(RateError::ZeroDenominator));
    assert_eq!(parse_fps("30/0"), Err(RateError::ZeroDenominator));
    assert_eq!(parse_fps("30/000"), Err(RateError::ZeroDenominator));
}

#[test]
fn malformed_rates_are_refused() {
    assert_eq!(parse_fps(""), Err(RateError::Malformed));
    assert_eq!(parse_fps("/"), Err(RateError::Malformed));
    assert_eq!(parse_fps("30/"), Err(RateError::Malformed));
    assert_eq!(parse_fps("/30"), Err(RateError::Malformed));
    assert_eq!(parse_fps("1/2/3"), Err(RateError::Malformed));
    assert_eq!(parse_fps("abc"), Err(RateError::Malformed));
    assert_eq!(parse_fps("30 /1"), Err(RateError::Malformed));
    assert_eq!(parse_fps(" 30"), Err(RateError::Malformed));
    assert_eq!(parse_fps("-5/1"), Err(RateError::Malformed));
    assert_eq!(parse_fps("+5"), Err(RateError::Malformed));
    assert_eq!(parse_fps("29.97"), Err(RateError::Malformed));
    assert_eq!(parse_fps("３０"), Err(RateError::Malformed));
    assert_eq!(parse_fps("30/x"), Err(RateError::Malformed));
}

#[test]
fn numbers_too_large_are_refused() {
    assert_eq!(parse_fps("4294967296"), Err(RateError::OutOfRange));
    assert_eq!(parse_fps("4294967296/1"), Err(RateError::OutOfRange));
    assert_eq!(parse_fps("1/4294967296"), Err(RateError::OutOfRange));
    assert_eq!(parse_fps("99999999999999999999999999999999/1"), Err(RateError::OutOfRange));
}

#[test]
fn a_wrong_form_is_reported_before_a_large_number() {
    assert_eq!(parse_fps("4294967296/x"), Err(RateError::Malformed));
    assert_eq!(parse_fps("x/4294967296"), Err(RateError::Malformed));
    assert_eq!(parse_fps("4294967296/0"), Err(RateError::OutOfRange));
}

#[test]
fn fields_make_metadata() {
    assert_eq!(
        metadata_from_fields(Some(1920), Some(1080), Some("30000/1001")),
        Ok(VideoMetadata { width: 1920, height: 1080, fps: FrameRate { num: 30000, den: 1001 } })
    );
}

#[test]
fn missing_fields_are_named_in_order() {
    assert_eq!(metadata_from_fields(None, None, None), Err(ProbeError::WidthMissing));
    assert_eq!(metadata_from_fields(None, Some(1), Some("1/1")), Err(ProbeError::WidthMissing));
    assert_eq!(metadata_from_fields(Some(1), None, None), Err(ProbeError::HeightMissing));
    assert_eq!(metadata_from_fields(Some(1), Some(1), None), Err(ProbeError::RateMissing));
    assert_eq!(
        metadata_from_fields(Some(1), Some(1), Some("0/0")),
        Err(ProbeError::Rate(RateError::ZeroDenominator))
    );
    assert_eq!(metadata_from_fields(Some(1), Some(1), Some("fast")), Err(ProbeError::Rate(RateError::Malformed)));
}

#[test]
fn sizes_keep_their_low_bits() {
    assert_eq!(
        metadata_from_fields(Some(4294967296 + 640), Some(u64::MAX), Some("25/1")),
        Ok(VideoMetadata { width: 640, height: u32::MAX, fps: FrameRate { num: 25, den: 1 } })
    );
}

#[test]
fn probe_output_is_read() {
    let document: &str = r#"{
    "programs": [],
    "streams": [
        {
            "width": 1920,
            "height": 1080,
            "avg_frame_rate": "30000/1001"
        }
    ]
}"#;
    assert_eq!(
        parse_probe_output(document.as_bytes()),
        Ok(VideoMetadata { width: 1920, height: 1080, fps: FrameRate { num: 30000, den: 1001 } })
    );
}

#[test]
fn only_the_first_stream_counts() {
    let document: &str = r#"{"streams":[{"width":64,"height":48,"avg_frame_rate":"5/1"},{"width":1,"height":2,"avg_frame_rate":"3/1"}]}"#;
    assert_eq!(
        parse_probe_output(document.as_bytes()),
        Ok(VideoMetadata { width: 64, height: 48, fps: FrameRate { num: 5, den: 1 } })
    );
}

#[test]
fn output_that_is_no_document_is_refused() {
    assert_eq!(parse_probe_output(b""), Err(ProbeError::Malformed));
    assert_eq!(parse_probe_output(b"ffprobe: not found"), Err(ProbeError::Malformed));
    assert_eq!(parse_probe_output(b"{\"streams\": ["), Err(ProbeError::Malformed));
    assert_eq!(parse_probe_output(&[0xff, 0xfe]), Err(ProbeError::Malformed));
}

#[test]
fn documents_without_the_fields_are_refused() {
    assert_eq!(parse_probe_output(b"{}"), Err(ProbeError::WidthMissing));
    assert_eq!(parse_probe_output(b"[]"), Err(ProbeError::WidthMissing));
    assert_eq!(parse_probe_output(b"{\"streams\":[]}"), Err(ProbeError::WidthMissing));
    assert_eq!(parse_probe_output(b"{\"streams\":{\"0\":{\"width\":1}}}"), Err(ProbeError::WidthMissing));
    assert_eq!(
        parse_probe_output(b"{\"streams\":[{\"width\":\"1920\",\"height\":1080,\"avg_frame_rate\":\"30/1\"}]}"),
        Err(ProbeError::WidthMissing)
    );
    assert_eq!(
        parse_probe_output(b"{\"streams\":[{\"width\":-4,\"height\":1080,\"avg_frame_rate\":\"30/1\"}]}"),
        Err(ProbeError::WidthMissing)
    );
    assert_eq!(
        parse_probe_output(b"{\"streams\":[{\"width\":1920,\"avg_frame_rate\":\"30/1\"}]}"),
        Err(ProbeError::HeightMissing)
    );
    assert_eq!(
        parse_probe_output(b"{\"streams\":[{\"width\":1920,\"height\":1080.5,\"avg_frame_rate\":\"30/1\"}]}"),
        Err(ProbeError::HeightMissing)
    );
    assert_eq!(
        parse_probe_output(b"{\"streams\":[{\"width\":1920,\"height\":1080}]}"),
        Err(ProbeError::RateMissing)
    );
    assert_eq!(
        parse_probe_output(b"{\"streams\":[{\"width\":1920,\"height\":1080,\"avg_frame_rate\":30}]}"),
        Err(ProbeError::RateMissing)
    );
}

#[test]
fn unreadable_rates_in_a_document_are_refused() {
    assert_eq!(
        parse_probe_output(b"{\"streams\":[{\"width\":1920,\"height\":1080,\"avg_frame_rate\":\"0/0\"}]}"),
        Err(ProbeError::Rate(RateError::ZeroDenominator))
    );
    assert_eq!(
        parse_probe_output(b"{\"streams\":[{\"width\":1920,\"height\":1080,\"avg_frame_rate\":\"N/A\"}]}"),
        Err(ProbeError::Rate(RateError::Malformed))
    );
}

#[test]
fn probe_is_asked_for_the_three_fields() {
    let expected: Vec<String> = vec![
        String::from("-v"),
        String::from("error"),
        String::from("-select_streams"),
        String::from("v:0"),
        String::from("-show_entries"),
        String::from("stream=width,height,avg_frame_rate"),
        String::from("-of"),
        String::from("json"),
        String::from("input/sample.mp4"),
    ];
    assert_eq!(probe_arguments("input/sample.mp4"), expected);
}
