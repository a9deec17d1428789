//! The upscaling job: how the command line becomes a job, the commands it
//! runs, and the decisions of a run, stepped by whoever does the work.

use vstd::prelude::*;
use crate::cli::{Cli, Codec, opt_view, views};
use crate::paths::{ends_in_name, file_stem, is_final_name_stem, is_portable_path, portable_stem, upscaled_name, upscaled_name_for};
use crate::probe::VideoInfo;
use crate::run::{Phase, Runner, RunnerView};
use crate::text::{contains, contains_seq, decimal, decimal_string};

verus! {

/// Everything a run needs to know, with defaults filled in.
#[derive(Debug)]
pub struct Job {
    pub input: String,
    pub output: String,
    pub scale: u32,
    pub model: String,
    pub codec: Codec,
    pub crf: u32,
    pub fps: Option<String>,
    pub ffmpeg: String,
    pub ffprobe: String,
    pub esrgan: String,
    pub workdir: Option<String>,
    pub keep_frames: bool,
    pub resume: bool,
}

/// The x4plus family of models is fixed to 4x by its weights: with such a
/// model the scale is 4, whatever was asked; otherwise it is the one asked.
pub open spec fn effective_scale(model: Seq<char>, scale: u32) -> u32 {
    if contains_seq(model, "x4plus"@) {
        4
    } else {
        scale
    }
}

/// A given path, or the default program name.
pub open spec fn or_default(path: Option<String>, default: Seq<char>) -> Seq<char> {
    match path {
        Some(p) => p@,
        None => default,
    }
}

/// `job` is the job for the options `cli`, when the input file's stem is
/// `stem`: the options as given, with the output defaulting to
/// `upscaled_name(stem)`, the scale corrected by `effective_scale`, the CRF
/// defaulting to the codec's, and the programs defaulting to `ffmpeg`,
/// `ffprobe` and `realesrgan-ncnn-vulkan`.
pub open spec fn job_for(job: Job, cli: Cli, stem: Option<Seq<char>>) -> bool {
    &&& cli.input matches Some(i) && job.input@ == i@
    &&& job.output@ == match cli.output {
        Some(o) => o@,
        None => upscaled_name(stem),
    }
    &&& job.scale == effective_scale(cli.model@, cli.scale)
    &&& job.model@ == cli.model@
    &&& job.codec == cli.codec
    &&& job.crf == match cli.crf {
        Some(c) => c,
        None => cli.codec.crf_default(),
    }
    &&& opt_view(job.fps) == opt_view(cli.fps)
    &&& job.ffmpeg@ == or_default(cli.ffmpeg, "ffmpeg"@)
    &&& job.ffprobe@ == or_default(cli.ffprobe, "ffprobe"@)
    &&& job.esrgan@ == or_default(cli.esrgan, "realesrgan-ncnn-vulkan"@)
    &&& opt_view(job.workdir) == opt_view(cli.workdir)
    &&& job.keep_frames == cli.keep_frames
    &&& job.resume == cli.resume
}

fn clone_opt(o: &Option<String>) -> (r: Option<String>)
    ensures
        opt_view(r) == opt_view(*o),
{
    match o {
        Some(s) => Some(s.clone()),
        None => None,
    }
}

fn path_or(o: &Option<String>, default: &str) -> (r: String)
    ensures
        r@ == or_default(*o, default@),
{
    match o {
        Some(s) => s.clone(),
        None => String::from_str(default),
    }
}

/// The job for the options `cli`, given the stem of its input file.
pub fn job_from_cli_with_stem(cli: &Cli, stem: Option<String>) -> (job: Job)
    requires
        cli.input is Some,
    ensures
        job_for(job, *cli, opt_view(stem)),
{
    let output = match &cli.output {
        Some(o) => o.clone(),
        None => upscaled_name_for(stem),
    };
    let mut scale = cli.scale;
    if contains(cli.model.as_str(), "x4plus") && scale != 4 {
        scale = 4;
    }
    let input = match &cli.input {
        Some(i) => i.clone(),
        None => String::new(),
    };
    let crf = match cli.crf {
        Some(c) => c,
        None => cli.codec.default_crf(),
    };
    Job {
        input,
        output,
        scale,
        model: cli.model.clone(),
        codec: cli.codec,
        crf,
        fps: clone_opt(&cli.fps),
        ffmpeg: path_or(&cli.ffmpeg, "ffmpeg"),
        ffprobe: path_or(&cli.ffprobe, "ffprobe"),
        esrgan: path_or(&cli.esrgan, "realesrgan-ncnn-vulkan"),
        workdir: clone_opt(&cli.workdir),
        keep_frames: cli.keep_frames,
        resume: cli.resume,
    }
}

/// The job for the options `cli`. An upscale needs an input file: a run
/// without one opens the graphical interface instead (`wants_gui`).
/// The default output is named after the input's stem, which
/// `Path::file_stem` gives: for a portable input path, `portable_stem` of it
/// (the stem of its last component, or none for a path that names no file,
/// so that the output is `output_upscaled.mp4`).
pub fn job_from_cli(cli: &Cli) -> (job: Job)
    requires
        cli.input is Some,
    ensures
        exists|stem: Option<Seq<char>>| job_for(job, *cli, stem),
        (cli.input matches Some(i) && is_portable_path(i@)) ==> job_for(
            job,
            *cli,
            portable_stem(cli.input->0@),
        ),
        (cli.input matches Some(i) && ends_in_name(i@)) ==> exists|s: Seq<char>|
            is_final_name_stem(cli.input->0@, s) && #[trigger] job_for(job, *cli, Some(s)),
{
    let stem = match &cli.input {
        Some(i) => file_stem(i.as_str()),
        None => None,
    };
    let ghost s = opt_view(stem);
    let job = job_from_cli_with_stem(cli, stem);
    assert(job_for(job, *cli, s));
    job
}

/// A run removes its working directory at the end when it chose the
/// directory itself, the frames are not to be kept, and the user did not
/// cancel: a cancelled run keeps its frames, so that `--resume` continues
/// where it stopped.
pub fn should_remove_workdir(job: &Job, cancelled: bool) -> (b: bool)
    ensures
        b == (job.workdir is None && !job.keep_frames && !cancelled),
{
    job.workdir.is_none() && !job.keep_frames && !cancelled
}

/// The frame rate of the output: the one asked for, or the source's.
pub fn output_fps(job: &Job, info: &VideoInfo) -> (fps: String)
    ensures
        fps@ == match job.fps {
            Some(f) => f@,
            None => info.fps@,
        },
{
    match &job.fps {
        Some(f) => f.clone(),
        None => info.fps.clone(),
    }
}

/// ffmpeg's arguments for extracting the frames of `input` at `fps` frames
/// per second into files named by `pattern`, numbered from 0.
pub open spec fn extract_args_of(input: Seq<char>, fps: Seq<char>, pattern: Seq<char>) -> Seq<Seq<char>> {
    seq!["-y"@, "-i"@, input, "-vf"@, "fps="@ + fps, "-start_number"@, "0"@, pattern]
}

/// The arguments of the frame extraction.
pub fn extract_args(input: &str, fps: &str, pattern: &str) -> (args: Vec<String>)
    ensures
        views(args@) == extract_args_of(input@, fps@, pattern@),
{
    let mut args: Vec<String> = Vec::new();
    args.push(String::from_str("-y"));
    args.push(String::from_str("-i"));
    args.push(String::from_str(input));
    args.push(String::from_str("-vf"));
    let mut f = String::from_str("fps=");
    f.append(fps);
    args.push(f);
    args.push(String::from_str("-start_number"));
    args.push(String::from_str("0"));
    args.push(String::from_str(pattern));
    assert(views(args@) =~= extract_args_of(input@, fps@, pattern@));
    args
}

/// realesrgan-ncnn-vulkan's arguments for upscaling the frames in
/// `chunk_in` into `chunk_out` by `scale` with `model`, whose files are in
/// `models_dir`.
pub open spec fn upscale_args_of(
    chunk_in: Seq<char>,
    chunk_out: Seq<char>,
    scale: u32,
    model: Seq<char>,
    models_dir: Seq<char>,
) -> Seq<Seq<char>> {
    seq![
        "-i"@,
        chunk_in,
        "-o"@,
        chunk_out,
        "-s"@,
        decimal(scale as nat),
        "-n"@,
        model,
        "-m"@,
        models_dir,
    ]
}

/// The arguments of one chunk's upscale.
pub fn upscale_args(chunk_in: &str, chunk_out: &str, scale: u32, model: &str, models_dir: &str) -> (args:
    Vec<String>)
    ensures
        views(args@) == upscale_args_of(chunk_in@, chunk_out@, scale, model@, models_dir@),
{
    let mut args: Vec<String> = Vec::new();
    args.push(String::from_str("-i"));
    args.push(String::from_str(chunk_in));
    args.push(String::from_str("-o"));
    args.push(String::from_str(chunk_out));
    args.push(String::from_str("-s"));
    args.push(decimal_string(scale as u64));
    args.push(String::from_str("-n"));
    args.push(String::from_str(model));
    args.push(String::from_str("-m"));
    args.push(String::from_str(models_dir));
    assert(views(args@) =~= upscale_args_of(chunk_in@, chunk_out@, scale, model@, models_dir@));
    args
}

/// ffmpeg's arguments for encoding the upscaled frames named by `pattern`
/// at `fps` into `output`: the frames are the video, the source's first
/// audio stream is copied when it has audio (the output ends with the
/// shorter of the two), then the codec's encoder options, 4:2:0 pixels and
/// the index at the front of the file.
pub open spec fn encode_args_of(
    fps: Seq<char>,
    pattern: Seq<char>,
    input: Seq<char>,
    has_audio: bool,
    codec: Codec,
    crf: u32,
    output: Seq<char>,
) -> Seq<Seq<char>> {
    seq!["-y"@, "-framerate"@, fps, "-i"@, pattern] + (if has_audio {
        seq!["-i"@, input]
    } else {
        seq![]
    }) + seq!["-map"@, "0:v:0"@] + (if has_audio {
        seq!["-map"@, "1:a:0"@, "-c:a"@, "copy"@, "-shortest"@]
    } else {
        seq![]
    }) + codec.encoder_args_of(crf) + seq![
        "-pix_fmt"@,
        "yuv420p"@,
        "-movflags"@,
        "+faststart"@,
        output,
    ]
}

/// The arguments of the final encode.
pub fn encode_args(
    fps: &str,
    pattern: &str,
    input: &str,
    has_audio: bool,
    codec: Codec,
    crf: u32,
    output: &str,
) -> (args: Vec<String>)
    ensures
        views(args@) == encode_args_of(fps@, pattern@, input@, has_audio, codec, crf, output@),
{
    let mut args: Vec<String> = Vec::new();
    args.push(String::from_str("-y"));
    args.push(String::from_str("-framerate"));
    args.push(String::from_str(fps));
    args.push(String::from_str("-i"));
    args.push(String::from_str(pattern));
    if has_audio {
        args.push(String::from_str("-i"));
        args.push(String::from_str(input));
    }
    args.push(String::from_str("-map"));
    args.push(String::from_str("0:v:0"));
    if has_audio {
        args.push(String::from_str("-map"));
        args.push(String::from_str("1:a:0"));
        args.push(String::from_str("-c:a"));
        args.push(String::from_str("copy"));
        args.push(String::from_str("-shortest"));
    }
    let ghost before = views(args@);
    assert(before =~= seq!["-y"@, "-framerate"@, fps@, "-i"@, pattern@] + (if has_audio {
        seq!["-i"@, input@]
    } else {
        seq![]
    }) + seq!["-map"@, "0:v:0"@] + (if has_audio {
        seq!["-map"@, "1:a:0"@, "-c:a"@, "copy"@, "-shortest"@]
    } else {
        seq![]
    }));
    let enc = codec.encoder_args(crf);
    let mut k: usize = 0;
    while k < enc.len()
        invariant
            k <= enc.len(),
            views(args@) == before + views(enc@).take(k as int),
        decreases enc.len() - k,
    {
        let ghost prev = args@;
        args.push(enc[k].clone());
        assert(views(args@) =~= views(prev).push(enc@[k as int]@));
        assert(views(enc@).take(k + 1) =~= views(enc@).take(k as int).push(enc@[k as int]@));
        k = k + 1;
    }
    assert(views(enc@).take(enc.len() as int) =~= views(enc@));
    let ghost middle = views(args@);
    args.push(String::from_str("-pix_fmt"));
    args.push(String::from_str("yuv420p"));
    args.push(String::from_str("-movflags"));
    args.push(String::from_str("+faststart"));
    args.push(String::from_str(output));
    assert(views(args@) =~= middle + seq!["-pix_fmt"@, "yuv420p"@, "-movflags"@, "+faststart"@, output@]);
    assert(views(args@) =~= encode_args_of(fps@, pattern@, input@, has_audio, codec, crf, output@));
    args
}

/// The line that describes the source video.
pub open spec fn source_summary_of(info: VideoInfo, seconds: u64) -> Seq<char> {
    "source: "@ + decimal(info.width as nat) + "x"@ + decimal(info.height as nat) + " @ "@
        + info.fps@ + " fps, "@ + decimal(seconds as nat) + " s, audio: "@ + (if info.has_audio {
        "yes"@
    } else {
        "no"@
    })
}

/// Describes the source: its size, frame rate, whole seconds of duration
/// (`seconds`) and whether it has audio.
pub fn source_summary(info: &VideoInfo, seconds: u64) -> (s: String)
    ensures
        s@ == source_summary_of(*info, seconds),
{
    let mut s = String::from_str("source: ");
    s.append(decimal_string(info.width as u64).as_str());
    s.append("x");
    s.append(decimal_string(info.height as u64).as_str());
    s.append(" @ ");
    s.append(info.fps.as_str());
    s.append(" fps, ");
    s.append(decimal_string(seconds).as_str());
    s.append(" s, audio: ");
    if info.has_audio {
        s.append("yes");
    } else {
        s.append("no");
    }
    s
}

/// An x4plus model always upscales by 4: the job made from options naming
/// such a model passes scale 4 to the upscaler, whatever scale was asked.
pub proof fn law_x4plus_upscales_by_four(
    job: Job,
    cli: Cli,
    stem: Option<Seq<char>>,
    chunk_in: Seq<char>,
    chunk_out: Seq<char>,
    models_dir: Seq<char>,
)
    requires
        job_for(job, cli, stem),
        contains_seq(cli.model@, "x4plus"@),
    ensures
        job.scale == 4,
        upscale_args_of(chunk_in, chunk_out, job.scale, job.model@, models_dir)[4] == "-s"@,
        upscale_args_of(chunk_in, chunk_out, job.scale, job.model@, models_dir)[5] == decimal(4),
{
}

/// The source's audio is copied untouched: when the source has audio, the
/// encode maps its first audio stream and copies it.
pub proof fn law_audio_is_copied(
    fps: Seq<char>,
    pattern: Seq<char>,
    input: Seq<char>,
    codec: Codec,
    crf: u32,
    output: Seq<char>,
)
    ensures
        ({
            let args = encode_args_of(fps, pattern, input, true, codec, crf, output);
            &&& args[5] == "-i"@ && args[6] == input
            &&& args[9] == "-map"@ && args[10] == "1:a:0"@
            &&& args[11] == "-c:a"@ && args[12] == "copy"@
        }),
{
}

/// The final encode uses the quality asked for: its encoder options name
/// the codec's encoder, then `-crf` and the given `crf` in decimal (whatever
/// the codec's default), whether or not audio is copied.
pub proof fn law_encode_uses_given_crf(
    fps: Seq<char>,
    pattern: Seq<char>,
    input: Seq<char>,
    has_audio: bool,
    codec: Codec,
    crf: u32,
    output: Seq<char>,
)
    ensures
        ({
            let args = encode_args_of(fps, pattern, input, has_audio, codec, crf, output);
            let e = if has_audio {
                14int
            } else {
                7int
            };
            &&& args[e] == "-c:v"@
            &&& args[e + 2] == "-crf"@
            &&& args[e + 3] == decimal(crf as nat)
        }),
{
}

/// The run plays at the output frame rate: the extraction samples the
/// source at the job's frame rate when one was given and at the source's
/// otherwise, and the encode reads the frames at that same rate.
pub proof fn law_plan_uses_output_fps(
    job: Job,
    info: VideoInfo,
    frames_in: Seq<char>,
    frames_out: Seq<char>,
)
    ensures
        ({
            let fps = match job.fps {
                Some(f) => f@,
                None => info.fps@,
            };
            &&& extract_args_of(job.input@, fps_of(job, info), frames_in)[4] == "fps="@ + fps
            &&& encode_args_of(
                fps_of(job, info),
                frames_out,
                job.input@,
                info.has_audio,
                job.codec,
                job.crf,
                job.output@,
            )[1] == "-framerate"@
            &&& encode_args_of(
                fps_of(job, info),
                frames_out,
                job.input@,
                info.has_audio,
                job.codec,
                job.crf,
                job.output@,
            )[2] == fps
        }),
{
}

/// The places a run works in, as paths: the pattern of the extracted
/// frames' names, the staging directories of one chunk, the pattern of the
/// upscaled frames' names, and the directory of the upscaler's models.
pub struct Workspace {
    pub frames_in: String,
    pub chunk_in: String,
    pub chunk_out: String,
    pub frames_out: String,
    pub models_dir: String,
}

/// The output frame rate, by view.
pub open spec fn fps_of(job: Job, info: VideoInfo) -> Seq<char> {
    match job.fps {
        Some(f) => f@,
        None => info.fps@,
    }
}

/// The runner for `job` on a source described by `info`, working in `ws`:
/// it resumes when the job says so, extracts at the output frame rate,
/// upscales each chunk by the job's scale and model, and encodes with the
/// job's codec and quality, copying audio when the source has some.
pub fn plan_run(job: &Job, info: &VideoInfo, ws: &Workspace) -> (r: Runner)
    ensures
        r@ == (RunnerView {
            resume: job.resume,
            extract: extract_args_of(job.input@, fps_of(*job, *info), ws.frames_in@),
            upscale: upscale_args_of(
                ws.chunk_in@,
                ws.chunk_out@,
                job.scale,
                job.model@,
                ws.models_dir@,
            ),
            encode: encode_args_of(
                fps_of(*job, *info),
                ws.frames_out@,
                job.input@,
                info.has_audio,
                job.codec,
                job.crf,
                job.output@,
            ),
            phase: Phase::Start,
            frames: seq![],
            next: 0,
            done: 0,
        }),
{
    let fps = output_fps(job, info);
    let extract = extract_args(job.input.as_str(), fps.as_str(), ws.frames_in.as_str());
    let upscale = upscale_args(
        ws.chunk_in.as_str(),
        ws.chunk_out.as_str(),
        job.scale,
        job.model.as_str(),
        ws.models_dir.as_str(),
    );
    let encode = encode_args(
        fps.as_str(),
        ws.frames_out.as_str(),
        job.input.as_str(),
        info.has_audio,
        job.codec,
        job.crf,
        job.output.as_str(),
    );
    Runner::new(job.resume, extract, upscale, encode)
}

} // verus!
