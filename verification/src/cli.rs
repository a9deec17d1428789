//! The command line's model: output codecs with their encoder settings,
//! and the options a run is started with.

use vstd::prelude::*;
use crate::text::{decimal, decimal_string};

verus! {

/// The video codec of the output file.
#[derive(Clone, Copy, Debug, PartialEq, Eq, Structural)]
pub enum Codec {
    Hevc,
    H264,
    Av1,
}

/// The views of a list of strings.
pub open spec fn views(v: Seq<String>) -> Seq<Seq<char>> {
    v.map_values(|s: String| s@)
}

/// The view of an optional string.
pub open spec fn opt_view(o: Option<String>) -> Option<Seq<char>> {
    match o {
        Some(s) => Some(s@),
        None => None,
    }
}

impl Codec {
    /// The quality setting used when none is given: 20 for HEVC, 18 for
    /// H.264 and 32 for AV1.
    pub open spec fn crf_default(self) -> u32 {
        match self {
            Codec::Hevc => 20,
            Codec::H264 => 18,
            Codec::Av1 => 32,
        }
    }

    /// The encoder of this codec and its options, as ffmpeg takes them.
    pub open spec fn encoder_args_of(self, crf: u32) -> Seq<Seq<char>> {
        match self {
            Codec::Hevc => seq![
                "-c:v"@,
                "libx265"@,
                "-crf"@,
                decimal(crf as nat),
                "-tag:v"@,
                "hvc1"@,
            ],
            Codec::H264 => seq!["-c:v"@, "libx264"@, "-crf"@, decimal(crf as nat)],
            Codec::Av1 => seq!["-c:v"@, "libsvtav1"@, "-crf"@, decimal(crf as nat)],
        }
    }

    /// The encoder options carry the quality given, not the codec's default:
    /// `-crf` followed by `crf` in decimal, after the codec's encoder.
    pub proof fn law_encoder_args_use_given_crf(self, crf: u32)
        ensures
            self.encoder_args_of(crf)[0] == "-c:v"@,
            self.encoder_args_of(crf)[2] == "-crf"@,
            self.encoder_args_of(crf)[3] == decimal(crf as nat),
    {
    }

    /// The default quality setting (CRF) of the codec.
    pub fn default_crf(&self) -> (c: u32)
        ensures
            c == self.crf_default(),
    {
        match self {
            Codec::Hevc => 20,
            Codec::H264 => 18,
            Codec::Av1 => 32,
        }
    }

    /// The ffmpeg options that select this codec's encoder at quality `crf`
    /// (HEVC output is also tagged `hvc1`).
    pub fn encoder_args(&self, crf: u32) -> (args: Vec<String>)
        ensures
            views(args@) == self.encoder_args_of(crf),
    {
        let mut args: Vec<String> = Vec::new();
        args.push(String::from_str("-c:v"));
        match self {
            Codec::Hevc => args.push(String::from_str("libx265")),
            Codec::H264 => args.push(String::from_str("libx264")),
            Codec::Av1 => args.push(String::from_str("libsvtav1")),
        }
        args.push(String::from_str("-crf"));
        args.push(decimal_string(crf as u64));
        match self {
            Codec::Hevc => {
                args.push(String::from_str("-tag:v"));
                args.push(String::from_str("hvc1"));
            },
            _ => {},
        }
        assert(views(args@) =~= self.encoder_args_of(crf));
        args
    }
}

/// The options of a run, as the command line gives them (paths as text).
#[derive(Debug)]
pub struct Cli {
    /// Input video file.
    pub input: Option<String>,
    /// Output video file (default: `<input stem>_upscaled.mp4`).
    pub output: Option<String>,
    /// Upscale factor: 2, 3 or 4.
    pub scale: u32,
    /// Real-ESRGAN model name.
    pub model: String,
    /// Output codec.
    pub codec: Codec,
    /// Quality (CRF); the codec's default when absent.
    pub crf: Option<u32>,
    /// Output frame rate; the source's when absent.
    pub fps: Option<String>,
    /// Path to ffmpeg.
    pub ffmpeg: Option<String>,
    /// Path to ffprobe.
    pub ffprobe: Option<String>,
    /// Path to realesrgan-ncnn-vulkan.
    pub esrgan: Option<String>,
    /// Working directory for frames.
    pub workdir: Option<String>,
    /// Keep extracted and upscaled frames after completion.
    pub keep_frames: bool,
    /// Reuse frames already in the working directory.
    pub resume: bool,
    /// Launch the graphical interface.
    pub gui: bool,
}

/// A run opens the graphical interface when it is asked for, or when no
/// input file is given.
pub fn wants_gui(cli: &Cli) -> (g: bool)
    ensures
        g == (cli.gui || cli.input is None),
{
    cli.gui || cli.input.is_none()
}

} // verus!
