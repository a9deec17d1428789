use pixellift::cli::{Cli, Codec};
use pixellift::pipeline::{job_from_cli, plan_run, Workspace};
use pixellift::probe::VideoInfo;
use pixellift::run::{Action, Event, Phase, Reply, Runner};

fn names(n: usize) -> Vec<String> {
    (0..n).map(|i| format!("{:06}.png", i)).collect()
}

fn runner(resume: bool) -> Runner {
    Runner::new(resume, vec!["x".to_string()], vec!["u".to_string()], vec!["e".to_string()])
}

/// Drives a runner; `inspect` answers each inspection with (cancelled, present).
fn drive(mut r: Runner, existing: Vec<String>, extracted: Vec<String>, inspect: &dyn Fn(&[String]) -> (bool, usize)) -> Vec<Action> {
    let mut actions = Vec::new();
    let mut reply = Reply::Ack;
    let mut listings = vec![existing, extracted].into_iter();
    loop {
        assert!(r.takes(&reply));
        let (next, action) = r.step(reply);
        r = next;
        reply = match &action {
            Action::ListFrames => Reply::Listed(listings.next().unwrap()),
            Action::Inspect(chunk) => {
                let (cancelled, present) = inspect(chunk);
                Reply::Inspected { cancelled, present }
            }
            Action::Finish | Action::Fail(_) => {
                actions.push(action);
                assert_eq!(r.phase(), Phase::Over);
                return actions;
            }
            _ => Reply::Ack,
        };
        actions.push(action);
    }
}

fn progress(actions: &[Action]) -> Vec<(usize, usize)> {
    actions
        .iter()
        .filter_map(|a| match a {
            Action::Notify(Event::Progress { done, total }) => Some((*done, *total)),
            _ => None,
        })
        .collect()
}

#[test]
fn fresh_run_extracts_upscales_in_chunks_and_encodes() {
    let actions = drive(runner(false), Vec::new(), names(100), &|_| (false, 0));
    assert_eq!(actions[0], Action::ListFrames);
    assert_eq!(actions[1], Action::Notify(Event::Stage("extract")));
    assert_eq!(actions[2], Action::Inspect(Vec::new()));
    assert_eq!(actions[3], Action::Extract(vec!["x".to_string()]));
    assert_eq!(actions[4], Action::ListFrames);
    assert_eq!(actions[5], Action::Notify(Event::Info("100 frames to upscale".to_string())));
    assert_eq!(actions[6], Action::Notify(Event::Stage("upscale")));
    assert_eq!(actions[7], Action::Inspect(names(48)));
    assert_eq!(actions[8], Action::Upscale(names(48), vec!["u".to_string()]));
    let chunks: Vec<usize> = actions
        .iter()
        .filter_map(|a| match a {
            Action::Upscale(f, _) => Some(f.len()),
            _ => None,
        })
        .collect();
    assert_eq!(chunks, vec![48, 48, 4]);
    assert_eq!(progress(&actions), vec![(48, 100), (96, 100), (100, 100)]);
    let n = actions.len();
    assert_eq!(actions[n - 4], Action::Notify(Event::Stage("encode")));
    assert_eq!(actions[n - 3], Action::Inspect(Vec::new()));
    assert_eq!(actions[n - 2], Action::Encode(vec!["e".to_string()]));
    assert_eq!(actions[n - 1], Action::Finish);
}

#[test]
fn chunks_cover_every_frame_once_in_order() {
    let actions = drive(runner(false), Vec::new(), names(97), &|_| (false, 0));
    let mut seen = Vec::new();
    for a in &actions {
        if let Action::Upscale(f, _) = a {
            assert!(!f.is_empty() && f.len() <= 48);
            seen.extend(f.iter().cloned());
        }
    }
    assert_eq!(seen, names(97));
}

#[test]
fn frames_are_taken_in_path_order() {
    let mut shuffled = names(5);
    shuffled.reverse();
    shuffled.push("thumbs.db".to_string());
    let actions = drive(runner(false), Vec::new(), shuffled, &|_| (false, 0));
    assert!(actions.contains(&Action::Upscale(names(5), vec!["u".to_string()])));
}

#[test]
fn resume_reuses_extracted_frames_and_upscaled_chunks() {
    let actions = drive(runner(true), names(60), names(60), &|chunk| (false, if chunk.len() == 48 { 48 } else { 5 }));
    assert_eq!(actions[1], Action::Notify(Event::Info("resume: reusing 60 extracted frames".to_string())));
    assert!(!actions.iter().any(|a| matches!(a, Action::Extract(_))));
    let upscaled: Vec<usize> = actions
        .iter()
        .filter_map(|a| match a {
            Action::Upscale(f, _) => Some(f.len()),
            _ => None,
        })
        .collect();
    assert_eq!(upscaled, vec![12]);
    assert_eq!(progress(&actions), vec![(48, 60), (60, 60)]);
    assert_eq!(actions.last(), Some(&Action::Finish));
}

#[test]
fn resume_without_frames_extracts() {
    let actions = drive(runner(true), vec!["readme.txt".to_string()], names(3), &|_| (false, 0));
    assert_eq!(actions[1], Action::Notify(Event::Stage("extract")));
}

#[test]
fn without_resume_present_outputs_are_redone() {
    let actions = drive(runner(false), names(10), names(10), &|c| (false, c.len()));
    assert!(actions.iter().any(|a| matches!(a, Action::Extract(_))));
    assert!(actions.iter().any(|a| matches!(a, Action::Upscale(_, _))));
}

#[test]
fn no_frames_is_an_error() {
    let actions = drive(runner(false), Vec::new(), vec!["log.txt".to_string()], &|_| (false, 0));
    assert_eq!(
        actions.last(),
        Some(&Action::Fail("no frames were extracted — check the input file and fps setting".to_string()))
    );
    assert!(!actions.iter().any(|a| matches!(a, Action::Encode(_))));
}

#[test]
fn cancel_stops_before_the_next_chunk() {
    let count = std::cell::Cell::new(0);
    let actions = drive(runner(false), Vec::new(), names(200), &|_| {
        count.set(count.get() + 1);
        (count.get() == 4, 0)
    });
    assert_eq!(actions.last(), Some(&Action::Fail("cancelled by user".to_string())));
    assert_eq!(progress(&actions), vec![(48, 200), (96, 200)]);
    assert!(!actions.iter().any(|a| matches!(a, Action::Encode(_))));
}

#[test]
fn a_finished_run_takes_nothing() {
    let mut r = runner(false);
    for reply in [Reply::Ack, Reply::Listed(Vec::new())] {
        let (next, _) = r.step(reply);
        r = next;
    }
    assert!(!r.takes(&Reply::Listed(Vec::new())));
    assert!(r.takes(&Reply::Ack));
}

#[test]
fn planned_run_carries_the_job() {
    let c = Cli {
        input: Some("in.mp4".to_string()),
        output: None,
        scale: 2,
        model: "m".to_string(),
        codec: Codec::H264,
        crf: None,
        fps: None,
        ffmpeg: None,
        ffprobe: None,
        esrgan: None,
        workdir: None,
        keep_frames: false,
        resume: false,
        gui: false,
    };
    let job = job_from_cli(&c);
    let info = VideoInfo { width: 1, height: 1, fps: "25/1".to_string(), has_audio: false, duration: None };
    let ws = Workspace {
        frames_in: "w/in/%06d.png".to_string(),
        chunk_in: "w/chunk_in".to_string(),
        chunk_out: "w/chunk_out".to_string(),
        frames_out: "w/out/%06d.png".to_string(),
        models_dir: "models".to_string(),
    };
    let actions = drive(plan_run(&job, &info, &ws), Vec::new(), names(1), &|_| (false, 0));
    let s = |v: &[&str]| v.iter().map(|x| x.to_string()).collect::<Vec<String>>();
    assert_eq!(actions[3], Action::Extract(s(&["-y", "-i", "in.mp4", "-vf", "fps=25/1", "-start_number", "0", "w/in/%06d.png"])));
    assert!(actions.contains(&Action::Upscale(names(1), s(&["-i", "w/chunk_in", "-o", "w/chunk_out", "-s", "2", "-n", "m", "-m", "models"]))));
    assert!(actions.contains(&Action::Encode(s(&[
        "-y", "-framerate", "25/1", "-i", "w/out/%06d.png", "-map", "0:v:0", "-c:v", "libx264", "-crf", "18",
        "-pix_fmt", "yuv420p", "-movflags", "+faststart", "in_upscaled.mp4",
    ]))));
}

#[test]
fn cancel_before_extraction_extracts_nothing() {
    let actions = drive(runner(false), Vec::new(), names(3), &|chunk| (chunk.is_empty(), 0));
    assert_eq!(actions[2], Action::Inspect(Vec::new()));
    assert_eq!(actions.last(), Some(&Action::Fail("cancelled by user".to_string())));
    assert!(!actions.iter().any(|a| matches!(a, Action::Extract(_) | Action::Upscale(_, _) | Action::Encode(_))));
}

#[test]
fn cancel_during_the_last_chunk_skips_the_encode() {
    let count = std::cell::Cell::new(0);
    let actions = drive(runner(false), Vec::new(), names(1), &|_| {
        count.set(count.get() + 1);
        (count.get() == 3, 0)
    });
    assert_eq!(progress(&actions), vec![(1, 1)]);
    assert!(actions.contains(&Action::Notify(Event::Stage("encode"))));
    assert_eq!(actions.last(), Some(&Action::Fail("cancelled by user".to_string())));
    assert!(!actions.iter().any(|a| matches!(a, Action::Encode(_))));
}
