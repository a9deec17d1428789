use pixellift::probe::{parse_probe_output, ProbeError, VideoInfo};

const REPORT: &str = r#"{
  "streams": [
    {"index": 0, "codec_type": "audio", "codec_name": "aac"},
    {"index": 1, "codec_type": "video", "width": 720, "height": 480,
     "r_frame_rate": "30000/1001", "tags": {"language": "und"}}
  ],
  "format": {"duration": "12.345000", "format_name": "mov,mp4"}
}"#;

#[test]
fn reads_the_first_video_stream() {
    let info = parse_probe_output(REPORT.as_bytes()).unwrap();
    assert_eq!(
        info,
        VideoInfo {
            width: 720,
            height: 480,
            fps: "30000/1001".to_string(),
            has_audio: true,
            duration: Some("12.345000".to_string()),
        }
    );
}

#[test]
fn defaults_fps_and_audio() {
    let info = parse_probe_output(br#"{"streams":[{"codec_type":"video","width":1,"height":2}]}"#).unwrap();
    assert_eq!(info.fps, "25/1");
    assert!(!info.has_audio);
    assert_eq!(info.duration, None);
}

#[test]
fn width_is_cut_to_32_bits() {
    let info = parse_probe_output(
        br#"{"streams":[{"codec_type":"video","width":4294967297,"height":480}]}"#,
    )
    .unwrap();
    assert_eq!(info.width, 1);
}

#[test]
fn not_json_is_a_parse_error() {
    let e = parse_probe_output(b"not json").unwrap_err();
    assert!(matches!(e, ProbeError::Parse(_)));
    assert_eq!(e.message(), "parsing ffprobe output");
}

#[test]
fn missing_streams() {
    let e = parse_probe_output(br#"{"format":{}}"#).unwrap_err();
    assert!(matches!(e, ProbeError::NoStreams));
    assert_eq!(e.message(), "ffprobe returned no streams");
    assert!(matches!(parse_probe_output(br#"{"streams":{}}"#), Err(ProbeError::NoStreams)));
}

#[test]
fn no_video_stream() {
    let e = parse_probe_output(br#"{"streams":[{"codec_type":"audio"}]}"#).unwrap_err();
    assert!(matches!(e, ProbeError::NoVideoStream));
    assert_eq!(e.message(), "no video stream found");
}

#[test]
fn missing_width_then_height() {
    let e = parse_probe_output(br#"{"streams":[{"codec_type":"video"}]}"#).unwrap_err();
    assert!(matches!(e, ProbeError::MissingWidth));
    assert_eq!(e.message(), "missing width");
    let e = parse_probe_output(br#"{"streams":[{"codec_type":"video","width":-1,"height":2}]}"#).unwrap_err();
    assert!(matches!(e, ProbeError::MissingWidth));
    let e = parse_probe_output(br#"{"streams":[{"codec_type":"video","width":3,"height":2.5}]}"#).unwrap_err();
    assert!(matches!(e, ProbeError::MissingHeight));
    assert_eq!(e.message(), "missing height");
}
