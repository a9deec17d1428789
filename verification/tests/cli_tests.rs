use pixellift::cli::{wants_gui, Cli, Codec};

fn strings(v: &[&str]) -> Vec<String> {
    v.iter().map(|s| s.to_string()).collect()
}

fn base_cli() -> Cli {
    Cli {
        input: Some("clip.mp4".to_string()),
        output: None,
        scale: 2,
        model: "realesr-animevideov3".to_string(),
        codec: Codec::Hevc,
        crf: None,
        fps: None,
        ffmpeg: None,
        ffprobe: None,
        esrgan: None,
        workdir: None,
        keep_frames: false,
        resume: false,
        gui: false,
    }
}

#[test]
fn default_crf_per_codec() {
    assert_eq!(Codec::Hevc.default_crf(), 20);
    assert_eq!(Codec::H264.default_crf(), 18);
    assert_eq!(Codec::Av1.default_crf(), 32);
}

#[test]
fn encoder_args_hevc_is_tagged_hvc1() {
    assert_eq!(
        Codec::Hevc.encoder_args(20),
        strings(&["-c:v", "libx265", "-crf", "20", "-tag:v", "hvc1"])
    );
}

#[test]
fn encoder_args_h264_and_av1() {
    assert_eq!(Codec::H264.encoder_args(18), strings(&["-c:v", "libx264", "-crf", "18"]));
    assert_eq!(Codec::Av1.encoder_args(32), strings(&["-c:v", "libsvtav1", "-crf", "32"]));
}

#[test]
fn encoder_args_renders_crf_in_decimal() {
    assert_eq!(Codec::H264.encoder_args(0)[3], "0");
    assert_eq!(Codec::H264.encoder_args(7)[3], "7");
    assert_eq!(Codec::Av1.encoder_args(63)[3], "63");
    assert_eq!(Codec::Av1.encoder_args(u32::MAX)[3], "4294967295");
}

#[test]
fn gui_when_asked_or_without_input() {
    let cli = base_cli();
    assert!(!wants_gui(&cli));
    let mut asked = base_cli();
    asked.gui = true;
    assert!(wants_gui(&asked));
    let mut no_input = base_cli();
    no_input.input = None;
    assert!(wants_gui(&no_input));
}
