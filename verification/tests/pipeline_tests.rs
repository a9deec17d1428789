use pixellift::cli::{Cli, Codec};
use pixellift::pipeline::{
    encode_args, extract_args, job_from_cli, job_from_cli_with_stem, output_fps, should_remove_workdir,
    source_summary, upscale_args, Job,
};
use pixellift::probe::VideoInfo;

fn strings(v: &[&str]) -> Vec<String> {
    v.iter().map(|s| s.to_string()).collect()
}

fn cli(input: &str) -> Cli {
    Cli {
        input: Some(input.to_string()),
        output: None,
        scale: 2,
        model: "realesr-animevideov3".to_string(),
        codec: Codec::Hevc,
        crf: None,
        fps: None,
        ffmpeg: None,
        ffprobe: None,
        esrgan: None,
        workdir: None,
        keep_frames: false,
        resume: false,
        gui: false,
    }
}

fn info(has_audio: bool) -> VideoInfo {
    VideoInfo {
        width: 640,
        height: 360,
        fps: "24/1".to_string(),
        has_audio,
        duration: Some("9.9".to_string()),
    }
}

#[test]
fn job_defaults() {
    let job = job_from_cli(&cli("clip.mp4"));
    assert_eq!(job.input, "clip.mp4");
    assert_eq!(job.output, "clip_upscaled.mp4");
    assert_eq!(job.scale, 2);
    assert_eq!(job.model, "realesr-animevideov3");
    assert_eq!(job.codec, Codec::Hevc);
    assert_eq!(job.crf, 20);
    assert_eq!(job.fps, None);
    assert_eq!(job.ffmpeg, "ffmpeg");
    assert_eq!(job.ffprobe, "ffprobe");
    assert_eq!(job.esrgan, "realesrgan-ncnn-vulkan");
    assert_eq!(job.workdir, None);
    assert!(!job.keep_frames);
    assert!(!job.resume);
}

#[test]
fn output_named_after_input_in_a_directory() {
    let job = job_from_cli(&cli("videos/holiday.mov"));
    assert_eq!(job.output, "holiday_upscaled.mp4");
}

#[test]
fn output_stem_cases() {
    assert_eq!(job_from_cli(&cli("archive.tar.gz")).output, "archive.tar_upscaled.mp4");
    assert_eq!(job_from_cli(&cli(".hidden")).output, ".hidden_upscaled.mp4");
    assert_eq!(job_from_cli(&cli("a/..")).output, "output_upscaled.mp4");
    assert_eq!(job_from_cli(&cli("..")).output, "output_upscaled.mp4");
    assert_eq!(job_from_cli(&cli("videos/archive.tar.gz")).output, "archive.tar_upscaled.mp4");
    assert_eq!(job_from_cli(&cli("../clips/take.2.mov")).output, "take.2_upscaled.mp4");
    assert_eq!(job_from_cli(&cli("clip.mp4/")).output, "clip_upscaled.mp4");
    assert_eq!(job_from_cli(&cli("videos/clip.mp4/.")).output, "clip_upscaled.mp4");
    assert_eq!(job_from_cli(&cli("videos/../")).output, "output_upscaled.mp4");
}

#[test]
fn output_without_stem() {
    let job = job_from_cli_with_stem(&cli("/"), None);
    assert_eq!(job.output, "output_upscaled.mp4");
}

#[test]
fn x4plus_models_are_fixed_to_4x() {
    let mut c = cli("a.mp4");
    c.model = "realesrgan-x4plus".to_string();
    c.scale = 2;
    assert_eq!(job_from_cli(&c).scale, 4);
    c.model = "realesrgan-x4plus-anime".to_string();
    c.scale = 3;
    assert_eq!(job_from_cli(&c).scale, 4);
    c.model = "realesr-animevideov3".to_string();
    c.scale = 3;
    assert_eq!(job_from_cli(&c).scale, 3);
}

#[test]
fn given_options_win() {
    let mut c = cli("a.mp4");
    c.output = Some("b.mkv".to_string());
    c.codec = Codec::Av1;
    c.crf = Some(40);
    c.fps = Some("60".to_string());
    c.ffmpeg = Some("/opt/ffmpeg".to_string());
    c.ffprobe = Some("/opt/ffprobe".to_string());
    c.esrgan = Some("sidecars/esrgan/realesrgan-ncnn-vulkan".to_string());
    c.workdir = Some("/tmp/w".to_string());
    c.keep_frames = true;
    c.resume = true;
    let job = job_from_cli(&c);
    assert_eq!(job.output, "b.mkv");
    assert_eq!(job.codec, Codec::Av1);
    assert_eq!(job.crf, 40);
    assert_eq!(job.fps, Some("60".to_string()));
    assert_eq!(job.ffmpeg, "/opt/ffmpeg");
    assert_eq!(job.ffprobe, "/opt/ffprobe");
    assert_eq!(job.esrgan, "sidecars/esrgan/realesrgan-ncnn-vulkan");
    assert_eq!(job.workdir, Some("/tmp/w".to_string()));
    assert!(job.keep_frames && job.resume);
}

#[test]
fn crf_defaults_to_codec() {
    let mut c = cli("a.mp4");
    c.codec = Codec::H264;
    assert_eq!(job_from_cli(&c).crf, 18);
    c.codec = Codec::Av1;
    assert_eq!(job_from_cli(&c).crf, 32);
}

#[test]
fn extraction_arguments() {
    assert_eq!(
        extract_args("in.mp4", "30000/1001", "w/in/%06d.png"),
        strings(&["-y", "-i", "in.mp4", "-vf", "fps=30000/1001", "-start_number", "0", "w/in/%06d.png"])
    );
}

#[test]
fn upscale_arguments() {
    assert_eq!(
        upscale_args("w/chunk_in", "w/chunk_out", 4, "realesrgan-x4plus", "models"),
        strings(&["-i", "w/chunk_in", "-o", "w/chunk_out", "-s", "4", "-n", "realesrgan-x4plus", "-m", "models"])
    );
}

#[test]
fn encode_arguments_with_audio() {
    assert_eq!(
        encode_args("24/1", "w/out/%06d.png", "in.mp4", true, Codec::Hevc, 20, "out.mp4"),
        strings(&[
            "-y", "-framerate", "24/1", "-i", "w/out/%06d.png", "-i", "in.mp4", "-map", "0:v:0", "-map",
            "1:a:0", "-c:a", "copy", "-shortest", "-c:v", "libx265", "-crf", "20", "-tag:v", "hvc1",
            "-pix_fmt", "yuv420p", "-movflags", "+faststart", "out.mp4",
        ])
    );
}

#[test]
fn encode_arguments_without_audio() {
    assert_eq!(
        encode_args("24/1", "w/out/%06d.png", "in.mp4", false, Codec::H264, 18, "out.mp4"),
        strings(&[
            "-y", "-framerate", "24/1", "-i", "w/out/%06d.png", "-map", "0:v:0", "-c:v", "libx264", "-crf",
            "18", "-pix_fmt", "yuv420p", "-movflags", "+faststart", "out.mp4",
        ])
    );
}

#[test]
fn output_frame_rate() {
    let mut job = job_from_cli(&cli("a.mp4"));
    assert_eq!(output_fps(&job, &info(false)), "24/1");
    job.fps = Some("60".to_string());
    assert_eq!(output_fps(&job, &info(false)), "60");
}

#[test]
fn source_description() {
    assert_eq!(source_summary(&info(true), 9), "source: 640x360 @ 24/1 fps, 9 s, audio: yes");
    assert_eq!(source_summary(&info(false), 0), "source: 640x360 @ 24/1 fps, 0 s, audio: no");
}

#[test]
fn workdir_removal() {
    let mut job: Job = job_from_cli(&cli("a.mp4"));
    assert!(should_remove_workdir(&job, false));
    assert!(!should_remove_workdir(&job, true));
    job.keep_frames = true;
    assert!(!should_remove_workdir(&job, false));
    job.keep_frames = false;
    job.workdir = Some("w".to_string());
    assert!(!should_remove_workdir(&job, false));
}
