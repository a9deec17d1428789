//! The decisions of one upscaling run, from listing the extracted frames
//! to the final encode. The caller does the work each `Action` names and
//! answers with a `Reply`; `Runner::step` decides what comes next.

use vstd::prelude::*;
use crate::cli::views;
use crate::paths::{frame_pred, select_frames, sorted};
use crate::text::{decimal, decimal_string};

verus! {

broadcast use vstd::seq_lib::group_seq_properties;

/// How many frames one upscaler invocation handles.
pub const CHUNK_SIZE: usize = 48;

/// What a run reports to whoever watches it.
#[derive(Debug, Clone, PartialEq)]
pub enum Event<'a> {
    /// A new stage begins: "probe", "extract", "upscale" or "encode".
    Stage(&'a str),
    /// `done` of the `total` frames are upscaled.
    Progress { done: usize, total: usize },
    /// A remark.
    Info(String),
}

/// The content of an `Event`.
pub enum EventView {
    Stage(Seq<char>),
    Progress { done: nat, total: nat },
    Info(Seq<char>),
}

impl<'a> View for Event<'a> {
    type V = EventView;

    open spec fn view(&self) -> EventView {
        match self {
            Event::Stage(s) => EventView::Stage(s@),
            Event::Progress { done, total } => EventView::Progress {
                done: *done as nat,
                total: *total as nat,
            },
            Event::Info(m) => EventView::Info(m@),
        }
    }
}

/// The work a run asks for next.
#[derive(Debug, PartialEq)]
pub enum Action {
    /// Report this event, then answer `Ack`.
    Notify(Event<'static>),
    /// List the names in the directory of extracted frames; answer `Listed`.
    ListFrames,
    /// Empty the directory of extracted frames and run ffmpeg with these
    /// arguments; answer `Ack`.
    Extract(Vec<String>),
    /// Look whether the user cancelled, and how many of these frames (none,
    /// before the extraction and before the encode) already have an
    /// upscaled file; answer `Inspected`.
    Inspect(Vec<String>),
    /// Stage these frames alone, run the upscaler with these arguments on
    /// them, and collect what it wrote; answer `Ack`.
    Upscale(Vec<String>, Vec<String>),
    /// Run ffmpeg with these arguments to encode the output; answer `Ack`.
    Encode(Vec<String>),
    /// The run succeeded.
    Finish,
    /// The run stops with this error.
    Fail(String),
}

/// The content of an `Action`.
pub enum ActionView {
    Notify(EventView),
    ListFrames,
    Extract(Seq<Seq<char>>),
    Inspect(Seq<Seq<char>>),
    Upscale(Seq<Seq<char>>, Seq<Seq<char>>),
    Encode(Seq<Seq<char>>),
    Finish,
    Fail(Seq<char>),
}

impl View for Action {
    type V = ActionView;

    open spec fn view(&self) -> ActionView {
        match self {
            Action::Notify(e) => ActionView::Notify(e@),
            Action::ListFrames => ActionView::ListFrames,
            Action::Extract(a) => ActionView::Extract(views(a@)),
            Action::Inspect(f) => ActionView::Inspect(views(f@)),
            Action::Upscale(f, a) => ActionView::Upscale(views(f@), views(a@)),
            Action::Encode(a) => ActionView::Encode(views(a@)),
            Action::Finish => ActionView::Finish,
            Action::Fail(m) => ActionView::Fail(m@),
        }
    }
}

/// The answer to an `Action`.
#[derive(Debug, PartialEq)]
pub enum Reply {
    /// The work is done.
    Ack,
    /// The names found in the directory of extracted frames.
    Listed(Vec<String>),
    /// Whether the user cancelled, and how many of the chunk's frames
    /// already have an upscaled file.
    Inspected { cancelled: bool, present: usize },
}

/// The content of a `Reply`.
pub enum ReplyView {
    Ack,
    Listed(Seq<Seq<char>>),
    Inspected { cancelled: bool, present: nat },
}

impl View for Reply {
    type V = ReplyView;

    open spec fn view(&self) -> ReplyView {
        match self {
            Reply::Ack => ReplyView::Ack,
            Reply::Listed(n) => ReplyView::Listed(views(n@)),
            Reply::Inspected { cancelled, present } => ReplyView::Inspected {
                cancelled: *cancelled,
                present: *present as nat,
            },
        }
    }
}

/// Where a run stands.
#[derive(Clone, Copy, PartialEq, Eq, Structural, Debug)]
pub enum Phase {
    /// Nothing done yet.
    Start,
    /// Waiting for the frames already extracted.
    AwaitExisting,
    /// About to look whether the user cancelled before extracting.
    StartExtract,
    /// Waiting for that look; then extracting.
    AwaitExtractCheck,
    /// About to list the extracted frames.
    Relist,
    /// Waiting for the extracted frames.
    AwaitFrames,
    /// About to start upscaling.
    StartUpscale,
    /// Before the next chunk.
    NextChunk,
    /// Waiting for a chunk's inspection.
    AwaitInspection,
    /// Waiting for a chunk's upscale.
    AwaitUpscale,
    /// About to look whether the user cancelled before encoding.
    StartEncode,
    /// Waiting for that look; then encoding.
    AwaitEncodeCheck,
    /// Waiting for the encode.
    AwaitEncode,
    /// The run has finished or failed.
    Over,
}

/// The decision state of one run.
pub struct Runner {
    resume: bool,
    extract: Vec<String>,
    upscale: Vec<String>,
    encode: Vec<String>,
    phase: Phase,
    frames: Vec<String>,
    next: usize,
    done: usize,
}

/// The content of a `Runner`: its fixed plan (whether to resume, and the
/// arguments of the extraction, of each upscale and of the encode), where
/// it stands, the frames to upscale, the next chunk and the frames done.
pub struct RunnerView {
    pub resume: bool,
    pub extract: Seq<Seq<char>>,
    pub upscale: Seq<Seq<char>>,
    pub encode: Seq<Seq<char>>,
    pub phase: Phase,
    pub frames: Seq<Seq<char>>,
    pub next: nat,
    pub done: nat,
}

impl View for Runner {
    type V = RunnerView;

    closed spec fn view(&self) -> RunnerView {
        RunnerView {
            resume: self.resume,
            extract: views(self.extract@),
            upscale: views(self.upscale@),
            encode: views(self.encode@),
            phase: self.phase,
            frames: views(self.frames@),
            next: self.next as nat,
            done: self.done as nat,
        }
    }
}

/// Where chunk `k` of `len` frames ends: `CHUNK_SIZE` frames after its
/// start, or at the last frame.
pub open spec fn chunk_end(len: nat, k: nat) -> nat {
    if (k + 1) * CHUNK_SIZE < len {
        ((k + 1) * CHUNK_SIZE) as nat
    } else {
        len
    }
}

/// Chunk `k` of the frames, as `slice::chunks(CHUNK_SIZE)` cuts them.
pub open spec fn chunk(frames: Seq<Seq<char>>, k: nat) -> Seq<Seq<char>> {
    frames.subrange((k * CHUNK_SIZE) as int, chunk_end(frames.len(), k) as int)
}

/// How many chunks `len` frames make.
pub open spec fn chunk_count(len: nat) -> nat {
    ((len + CHUNK_SIZE - 1) / (CHUNK_SIZE as int)) as nat
}

/// "resume: reusing N extracted frames".
pub open spec fn resume_message(n: nat) -> Seq<char> {
    "resume: reusing "@ + decimal(n) + " extracted frames"@
}

/// "N frames to upscale".
pub open spec fn count_message(n: nat) -> Seq<char> {
    decimal(n) + " frames to upscale"@
}

/// The error of a run that extracted no frames.
pub open spec fn no_frames_message() -> Seq<char> {
    "no frames were extracted — check the input file and fps setting"@
}

/// The error of a run the user cancelled.
pub open spec fn cancelled_message() -> Seq<char> {
    "cancelled by user"@
}

/// Whether a runner in `phase` takes `reply`: a listing where it waits for
/// one, an inspection where it waits for one, an acknowledgement
/// elsewhere, and nothing once the run is over.
pub open spec fn takes(phase: Phase, reply: ReplyView) -> bool {
    match phase {
        Phase::AwaitExisting => reply is Listed,
        Phase::AwaitFrames => reply is Listed,
        Phase::AwaitInspection => reply is Inspected,
        Phase::AwaitExtractCheck => reply is Inspected,
        Phase::AwaitEncodeCheck => reply is Inspected,
        Phase::Over => false,
        _ => reply is Ack,
    }
}

/// `r2` is `r` with only its phase changed, to `p`.
pub open spec fn moved(r: RunnerView, r2: RunnerView, p: Phase) -> bool {
    r2 == RunnerView { phase: p, ..r }
}

/// `r2` is `r` after its current chunk: the next chunk comes, and the
/// chunk's frames count as done.
pub open spec fn advanced(r: RunnerView, r2: RunnerView) -> bool {
    r2 == RunnerView {
        phase: Phase::NextChunk,
        next: r.next + 1,
        done: r.done + chunk(r.frames, r.next).len(),
        ..r
    }
}

/// The decision rule: from `r`, answered `reply`, the runner goes to `r2`
/// and asks for `a`.
///
/// It lists the frames already extracted; with `resume` and some there it
/// reuses them, and otherwise it extracts, unless the user cancelled by
/// then. It lists the frames again and
/// fails when there are none; else it takes them in path order and goes
/// through them chunk by chunk. Before each chunk it looks whether the
/// user cancelled (then it fails) and, with `resume`, whether every frame
/// of the chunk already has an upscaled file (then it only counts the
/// chunk as done); otherwise it upscales the chunk. After each chunk it
/// reports the progress. After the last chunk it encodes, unless the user
/// cancelled by then, and finishes. A cancelled run fails with
/// `cancelled_message()`.
pub open spec fn step_to(r: RunnerView, reply: ReplyView, r2: RunnerView, a: ActionView) -> bool {
    match r.phase {
        Phase::Start => moved(r, r2, Phase::AwaitExisting) && a == ActionView::ListFrames,
        Phase::AwaitExisting => match reply {
            ReplyView::Listed(names) => {
                let n = names.filter(frame_pred()).len();
                if r.resume && n > 0 {
                    moved(r, r2, Phase::Relist) && a == ActionView::Notify(
                        EventView::Info(resume_message(n)),
                    )
                } else {
                    moved(r, r2, Phase::StartExtract) && a == ActionView::Notify(
                        EventView::Stage("extract"@),
                    )
                }
            },
            _ => false,
        },
        Phase::StartExtract => moved(r, r2, Phase::AwaitExtractCheck) && a == ActionView::Inspect(
            seq![],
        ),
        Phase::AwaitExtractCheck => match reply {
            ReplyView::Inspected { cancelled, present } => if cancelled {
                moved(r, r2, Phase::Over) && a == ActionView::Fail(cancelled_message())
            } else {
                moved(r, r2, Phase::Relist) && a == ActionView::Extract(r.extract)
            },
            _ => false,
        },
        Phase::Relist => moved(r, r2, Phase::AwaitFrames) && a == ActionView::ListFrames,
        Phase::AwaitFrames => match reply {
            ReplyView::Listed(names) => {
                let f = names.filter(frame_pred());
                if f.len() == 0 {
                    moved(r, r2, Phase::Over) && a == ActionView::Fail(no_frames_message())
                } else {
                    &&& r2 == RunnerView {
                        phase: Phase::StartUpscale,
                        frames: r2.frames,
                        next: 0,
                        done: 0,
                        ..r
                    }
                    &&& sorted(r2.frames)
                    &&& r2.frames.to_multiset() == f.to_multiset()
                    &&& a == ActionView::Notify(EventView::Info(count_message(f.len())))
                }
            },
            _ => false,
        },
        Phase::StartUpscale => moved(r, r2, Phase::NextChunk) && a == ActionView::Notify(
            EventView::Stage("upscale"@),
        ),
        Phase::NextChunk => if r.next * CHUNK_SIZE >= r.frames.len() {
            moved(r, r2, Phase::StartEncode) && a == ActionView::Notify(
                EventView::Stage("encode"@),
            )
        } else {
            moved(r, r2, Phase::AwaitInspection) && a == ActionView::Inspect(
                chunk(r.frames, r.next),
            )
        },
        Phase::AwaitInspection => match reply {
            ReplyView::Inspected { cancelled, present } => if cancelled {
                moved(r, r2, Phase::Over) && a == ActionView::Fail(cancelled_message())
            } else if r.resume && present == chunk(r.frames, r.next).len() {
                advanced(r, r2) && a == ActionView::Notify(
                    EventView::Progress { done: r2.done, total: r.frames.len() },
                )
            } else {
                moved(r, r2, Phase::AwaitUpscale) && a == ActionView::Upscale(
                    chunk(r.frames, r.next),
                    r.upscale,
                )
            },
            _ => false,
        },
        Phase::AwaitUpscale => advanced(r, r2) && a == ActionView::Notify(
            EventView::Progress { done: r2.done, total: r.frames.len() },
        ),
        Phase::StartEncode => moved(r, r2, Phase::AwaitEncodeCheck) && a == ActionView::Inspect(
            seq![],
        ),
        Phase::AwaitEncodeCheck => match reply {
            ReplyView::Inspected { cancelled, present } => if cancelled {
                moved(r, r2, Phase::Over) && a == ActionView::Fail(cancelled_message())
            } else {
                moved(r, r2, Phase::AwaitEncode) && a == ActionView::Encode(r.encode)
            },
            _ => false,
        },
        Phase::AwaitEncode => moved(r, r2, Phase::Over) && a == ActionView::Finish,
        Phase::Over => false,
    }
}

/// What holds of a runner wherever it stands: before the frames are known
/// nothing is counted; while chunks go by, the frames done are those of the
/// chunks before the next one; once encoding starts, every frame is done.
pub open spec fn well_formed(r: RunnerView) -> bool {
    match r.phase {
        Phase::Start | Phase::AwaitExisting | Phase::StartExtract | Phase::AwaitExtractCheck
        | Phase::Relist | Phase::AwaitFrames => r.next == 0 && r.done == 0,
        Phase::StartUpscale => r.next == 0 && r.done == 0 && r.frames.len() > 0,
        Phase::NextChunk => {
            &&& r.frames.len() > 0
            &&& r.next * CHUNK_SIZE < r.frames.len() + CHUNK_SIZE
            &&& r.done == if r.next * CHUNK_SIZE < r.frames.len() {
                r.next * CHUNK_SIZE
            } else {
                r.frames.len() as int
            }
        },
        Phase::AwaitInspection | Phase::AwaitUpscale => {
            &&& r.next * CHUNK_SIZE < r.frames.len()
            &&& r.done == r.next * CHUNK_SIZE
        },
        Phase::StartEncode | Phase::AwaitEncodeCheck | Phase::AwaitEncode => r.frames.len() > 0
            && r.done == r.frames.len(),
        Phase::Over => true,
    }
}

impl Runner {
    #[verifier::type_invariant]
    spec fn runner_invariant(self) -> bool {
        well_formed(self@)
    }

    /// A runner at the start of a run with this plan: whether to resume, and
    /// the arguments of the extraction, of each chunk's upscale and of the
    /// encode.
    pub fn new(resume: bool, extract: Vec<String>, upscale: Vec<String>, encode: Vec<String>) -> (r:
        Runner)
        ensures
            r@ == (RunnerView {
                resume,
                extract: views(extract@),
                upscale: views(upscale@),
                encode: views(encode@),
                phase: Phase::Start,
                frames: seq![],
                next: 0,
                done: 0,
            }),
    {
        let r = Runner {
            resume,
            extract,
            upscale,
            encode,
            phase: Phase::Start,
            frames: Vec::new(),
            next: 0,
            done: 0,
        };
        assert(r@.frames =~= seq![]);
        r
    }

    /// Where the run stands.
    pub fn phase(&self) -> (p: Phase)
        ensures
            p == self@.phase,
    {
        self.phase
    }

    /// Whether the runner takes `reply` now (see `takes`).
    pub fn takes(&self, reply: &Reply) -> (b: bool)
        ensures
            b == takes(self@.phase, reply@),
    {
        match self.phase {
            Phase::AwaitExisting | Phase::AwaitFrames => match reply {
                Reply::Listed(_) => true,
                _ => false,
            },
            Phase::AwaitInspection | Phase::AwaitExtractCheck | Phase::AwaitEncodeCheck => match reply {
                Reply::Inspected { .. } => true,
                _ => false,
            },
            Phase::Over => false,
            _ => match reply {
                Reply::Ack => true,
                _ => false,
            },
        }
    }

    /// Decides what comes next after `reply`, by `step_to`.
    pub fn step(self, reply: Reply) -> (res: (Runner, Action))
        requires
            takes(self@.phase, reply@),
        ensures
            step_to(self@, reply@, res.0@, res.1@),
    {
        proof {
            use_type_invariant(&self);
        }
        let ghost r = self@;
        let Runner { resume, extract, upscale, encode, phase, frames, next, done } = self;
        match phase {
            Phase::Start => {
                let r2 = Runner { resume, extract, upscale, encode, phase: Phase::AwaitExisting, frames, next, done };
                (r2, Action::ListFrames)
            },
            Phase::AwaitExisting => {
                let names = match reply {
                    Reply::Listed(n) => n,
                    _ => Vec::new(),
                };
                let found = select_frames(names);
                let ghost f = reply@->Listed_0.filter(frame_pred());
                assert(found.len() == f.len()) by {
                    assert(views(found@).len() == views(found@).to_multiset().len());
                    assert(f.len() == f.to_multiset().len());
                }
                if resume && found.len() > 0 {
                    let m = resume_text(found.len());
                    let r2 = Runner { resume, extract, upscale, encode, phase: Phase::Relist, frames, next, done };
                    (r2, Action::Notify(Event::Info(m)))
                } else {
                    let r2 = Runner { resume, extract, upscale, encode, phase: Phase::StartExtract, frames, next, done };
                    (r2, Action::Notify(Event::Stage("extract")))
                }
            },
            Phase::StartExtract => {
                let r2 = Runner { resume, extract, upscale, encode, phase: Phase::AwaitExtractCheck, frames, next, done };
                let none: Vec<String> = Vec::new();
                proof {
                    assert(views(none@) =~= seq![]);
                }
                (r2, Action::Inspect(none))
            },
            Phase::AwaitExtractCheck => {
                let cancelled = match reply {
                    Reply::Inspected { cancelled, .. } => cancelled,
                    _ => true,
                };
                if cancelled {
                    let r2 = Runner { resume, extract, upscale, encode, phase: Phase::Over, frames, next, done };
                    (r2, Action::Fail(String::from_str("cancelled by user")))
                } else {
                    let a = clone_all(&extract);
                    let r2 = Runner { resume, extract, upscale, encode, phase: Phase::Relist, frames, next, done };
                    (r2, Action::Extract(a))
                }
            },
            Phase::Relist => {
                let r2 = Runner { resume, extract, upscale, encode, phase: Phase::AwaitFrames, frames, next, done };
                (r2, Action::ListFrames)
            },
            Phase::AwaitFrames => {
                let names = match reply {
                    Reply::Listed(n) => n,
                    _ => Vec::new(),
                };
                let found = select_frames(names);
                let ghost f = reply@->Listed_0.filter(frame_pred());
                assert(found.len() == f.len()) by {
                    assert(views(found@).len() == views(found@).to_multiset().len());
                    assert(f.len() == f.to_multiset().len());
                }
                if found.len() == 0 {
                    let r2 = Runner { resume, extract, upscale, encode, phase: Phase::Over, frames, next, done };
                    (r2, Action::Fail(String::from_str("no frames were extracted — check the input file and fps setting")))
                } else {
                    let m = count_text(found.len());
                    let r2 = Runner { resume, extract, upscale, encode, phase: Phase::StartUpscale, frames: found, next: 0, done: 0 };
                    (r2, Action::Notify(Event::Info(m)))
                }
            },
            Phase::StartUpscale => {
                let r2 = Runner { resume, extract, upscale, encode, phase: Phase::NextChunk, frames, next, done };
                (r2, Action::Notify(Event::Stage("upscale")))
            },
            Phase::NextChunk => {
                if done >= frames.len() {
                    let r2 = Runner { resume, extract, upscale, encode, phase: Phase::StartEncode, frames, next, done };
                    (r2, Action::Notify(Event::Stage("encode")))
                } else {
                    let c = chunk_at(&frames, next, done);
                    let r2 = Runner { resume, extract, upscale, encode, phase: Phase::AwaitInspection, frames, next, done };
                    (r2, Action::Inspect(c))
                }
            },
            Phase::AwaitInspection => {
                let (cancelled, present) = match reply {
                    Reply::Inspected { cancelled, present } => (cancelled, present),
                    _ => (true, 0),
                };
                if cancelled {
                    let r2 = Runner { resume, extract, upscale, encode, phase: Phase::Over, frames, next, done };
                    (r2, Action::Fail(String::from_str("cancelled by user")))
                } else {
                    let len = chunk_len(frames.len(), next, done);
                    if resume && present == len {
                        let total = frames.len();
                        let r2 = Runner { resume, extract, upscale, encode, phase: Phase::NextChunk, frames, next: next + 1, done: done + len };
                        (r2, Action::Notify(Event::Progress { done: done + len, total }))
                    } else {
                        let c = chunk_at(&frames, next, done);
                        let a = clone_all(&upscale);
                        let r2 = Runner { resume, extract, upscale, encode, phase: Phase::AwaitUpscale, frames, next, done };
                        (r2, Action::Upscale(c, a))
                    }
                }
            },
            Phase::AwaitUpscale => {
                let len = chunk_len(frames.len(), next, done);
                let total = frames.len();
                let r2 = Runner { resume, extract, upscale, encode, phase: Phase::NextChunk, frames, next: next + 1, done: done + len };
                (r2, Action::Notify(Event::Progress { done: done + len, total }))
            },
            Phase::StartEncode => {
                let r2 = Runner { resume, extract, upscale, encode, phase: Phase::AwaitEncodeCheck, frames, next, done };
                let none: Vec<String> = Vec::new();
                proof {
                    assert(views(none@) =~= seq![]);
                }
                (r2, Action::Inspect(none))
            },
            Phase::AwaitEncodeCheck => {
                let cancelled = match reply {
                    Reply::Inspected { cancelled, .. } => cancelled,
                    _ => true,
                };
                if cancelled {
                    let r2 = Runner { resume, extract, upscale, encode, phase: Phase::Over, frames, next, done };
                    (r2, Action::Fail(String::from_str("cancelled by user")))
                } else {
                    let a = clone_all(&encode);
                    let r2 = Runner { resume, extract, upscale, encode, phase: Phase::AwaitEncode, frames, next, done };
                    (r2, Action::Encode(a))
                }
            },
            Phase::AwaitEncode => {
                let r2 = Runner { resume, extract, upscale, encode, phase: Phase::Over, frames, next, done };
                (r2, Action::Finish)
            },
            Phase::Over => {
                let r2 = Runner { resume, extract, upscale, encode, phase: Phase::Over, frames, next, done };
                (r2, Action::Finish)
            },
        }
    }
}

/// Every step keeps a runner well formed.
pub proof fn law_step_keeps_well_formed(r: RunnerView, reply: ReplyView, r2: RunnerView, a: ActionView)
    requires
        well_formed(r),
        takes(r.phase, reply),
        step_to(r, reply, r2, a),
    ensures
        well_formed(r2),
{
    broadcast use vstd::seq_lib::group_to_multiset_ensures;

    if r.phase == Phase::AwaitFrames {
        let f = reply->Listed_0.filter(frame_pred());
        if f.len() > 0 {
            assert(r2.frames.len() == r2.frames.to_multiset().len());
            assert(f.len() == f.to_multiset().len());
        }
    }
}

/// Progress reports count up to the number of frames: each reports the
/// frames of every chunk up to and including the one just handled, which
/// is more than before, and never more than there are.
pub proof fn law_progress(r: RunnerView, reply: ReplyView, r2: RunnerView, a: ActionView)
    requires
        well_formed(r),
        step_to(r, reply, r2, a),
        a matches ActionView::Notify(EventView::Progress { .. }),
    ensures
        a->Notify_0->total == r.frames.len(),
        a->Notify_0->done == chunk_end(r.frames.len(), r.next),
        r.done < a->Notify_0->done <= r.frames.len(),
        r2.done == a->Notify_0->done,
{
}

/// Encoding starts only once every frame has been upscaled, or found
/// already upscaled, and there was at least one.
pub proof fn law_encode_after_every_frame(
    r: RunnerView,
    reply: ReplyView,
    r2: RunnerView,
    a: ActionView,
)
    requires
        well_formed(r),
        step_to(r, reply, r2, a),
        a is Encode,
    ensures
        r.frames.len() > 0,
        r.done == r.frames.len(),
{
}

/// The chunks cut the frames into consecutive pieces: frame `i` is at place
/// `i % CHUNK_SIZE` of chunk `i / CHUNK_SIZE`, and every chunk holds between
/// one and `CHUNK_SIZE` frames.
pub proof fn law_chunks_partition(frames: Seq<Seq<char>>, i: int, k: nat)
    ensures
        0 <= i < frames.len() ==> {
            &&& i / (CHUNK_SIZE as int) < chunk_count(frames.len())
            &&& chunk(frames, (i / (CHUNK_SIZE as int)) as nat)[i % (CHUNK_SIZE as int)] == frames[i]
        },
        k < chunk_count(frames.len()) ==> 0 < chunk(frames, k).len() <= CHUNK_SIZE,
{
    if 0 <= i < frames.len() {
        let q = i / 48;
        let m = i % 48;
        assert(i == q * 48 + m && 0 <= m < 48);
        assert(q * 48 <= i);
        assert(chunk(frames, q as nat)[m] == frames[q * 48 + m]);
    }
    if k < chunk_count(frames.len()) {
        assert(k * 48 < frames.len());
    }
}

/// With `resume`, frames already extracted are reused: the run goes on to
/// list them again without extracting.
pub proof fn law_resume_reuses_extracted_frames(
    r: RunnerView,
    names: Seq<Seq<char>>,
    r2: RunnerView,
    a: ActionView,
)
    requires
        r.phase == Phase::AwaitExisting,
        r.resume,
        names.filter(frame_pred()).len() > 0,
        step_to(r, ReplyView::Listed(names), r2, a),
    ensures
        r2.phase == Phase::Relist,
        !(a is Extract),
{
}

/// With `resume`, a chunk whose frames all have upscaled files is counted
/// as done without being upscaled again.
pub proof fn law_resume_skips_upscaled_chunks(
    r: RunnerView,
    present: nat,
    r2: RunnerView,
    a: ActionView,
)
    requires
        r.phase == Phase::AwaitInspection,
        r.resume,
        present == chunk(r.frames, r.next).len(),
        step_to(r, ReplyView::Inspected { cancelled: false, present }, r2, a),
    ensures
        !(a is Upscale),
        r2.next == r.next + 1,
        r2.done == r.done + chunk(r.frames, r.next).len(),
{
}

/// A chunk is upscaled unless the run resumes and every one of its frames
/// already has an upscaled file: when the user did not cancel and the run
/// does not resume, or fewer of the chunk's frames than it holds are
/// present, the next action upscales exactly that chunk's frames with the
/// planned arguments, and nothing is counted as done yet.
pub proof fn law_incomplete_chunks_are_upscaled(
    r: RunnerView,
    present: nat,
    r2: RunnerView,
    a: ActionView,
)
    requires
        well_formed(r),
        r.phase == Phase::AwaitInspection,
        !r.resume || present < chunk_end(r.frames.len(), r.next) - r.next * CHUNK_SIZE,
        step_to(r, ReplyView::Inspected { cancelled: false, present }, r2, a),
    ensures
        a == ActionView::Upscale(
            r.frames.subrange(r.next * CHUNK_SIZE, chunk_end(r.frames.len(), r.next) as int),
            r.upscale,
        ),
        r2.phase == Phase::AwaitUpscale,
        r2.done == r.done,
        r2.next == r.next,
{
}

/// Whenever the runner looks whether the user cancelled (before the
/// extraction, before each chunk, before the encode) and the answer is
/// yes, the run fails with the cancellation error and takes no further
/// reply: no extraction, upscale or encode follows.
pub proof fn law_cancel_stops(r: RunnerView, present: nat, r2: RunnerView, a: ActionView)
    requires
        takes(r.phase, ReplyView::Inspected { cancelled: true, present }),
        step_to(r, ReplyView::Inspected { cancelled: true, present }, r2, a),
    ensures
        a == ActionView::Fail(cancelled_message()),
        r2.phase == Phase::Over,
        forall|reply: ReplyView| !takes(r2.phase, reply),
{
}

/// The extraction, every upscale and the encode come only right after the
/// runner looked and the user had not cancelled.
pub proof fn law_work_only_when_not_cancelled(
    r: RunnerView,
    reply: ReplyView,
    r2: RunnerView,
    a: ActionView,
)
    requires
        step_to(r, reply, r2, a),
        a is Extract || a is Upscale || a is Encode,
    ensures
        reply matches ReplyView::Inspected { cancelled, .. } && !cancelled,
{
}

/// The look before the encode comes after every chunk: the runner asks for
/// it only once every frame is done.
pub proof fn law_encode_check_after_every_frame(
    r: RunnerView,
    reply: ReplyView,
    r2: RunnerView,
    a: ActionView,
)
    requires
        well_formed(r),
        step_to(r, reply, r2, a),
        r2.phase == Phase::AwaitEncodeCheck,
    ensures
        r.frames.len() > 0,
        r.done == r.frames.len(),
        a == ActionView::Inspect(seq![]),
{
}

/// The order of the stages of a run; the chunk loop is one stage.
pub open spec fn stage_rank(p: Phase) -> nat {
    match p {
        Phase::Start => 0,
        Phase::AwaitExisting => 1,
        Phase::StartExtract => 2,
        Phase::AwaitExtractCheck => 3,
        Phase::Relist => 4,
        Phase::AwaitFrames => 5,
        Phase::StartUpscale => 6,
        Phase::NextChunk | Phase::AwaitInspection | Phase::AwaitUpscale => 7,
        Phase::StartEncode => 8,
        Phase::AwaitEncodeCheck => 9,
        Phase::AwaitEncode => 10,
        Phase::Over => 11,
    }
}

/// What is left of the chunk loop: three steps for each chunk not yet
/// begun, and the steps left of the current one.
pub open spec fn loop_rank(r: RunnerView) -> int {
    3 * (chunk_count(r.frames.len()) - r.next) + match r.phase {
        Phase::NextChunk => 2int,
        Phase::AwaitInspection => 1,
        _ => 0,
    }
}

/// Every step moves a run forward: to a later stage, or, within the chunk
/// loop, closer to its end. So every run ends.
pub proof fn law_step_moves_forward(r: RunnerView, reply: ReplyView, r2: RunnerView, a: ActionView)
    requires
        well_formed(r),
        step_to(r, reply, r2, a),
    ensures
        stage_rank(r2.phase) > stage_rank(r.phase) || (stage_rank(r2.phase) == stage_rank(r.phase)
            && 0 <= loop_rank(r2) < loop_rank(r)),
{
}

/// A copy of a list of strings.
fn clone_all(v: &Vec<String>) -> (r: Vec<String>)
    ensures
        r@ == v@,
{
    let mut r: Vec<String> = Vec::new();
    let mut k: usize = 0;
    while k < v.len()
        invariant
            k <= v.len(),
            r@ == v@.take(k as int),
        decreases v.len() - k,
    {
        r.push(v[k].clone());
        assert(v@.take(k + 1) =~= v@.take(k as int).push(v@[k as int]));
        k = k + 1;
    }
    assert(v@.take(v.len() as int) =~= v@);
    r
}

/// The length of chunk `next` of `len` frames, which starts at `done`.
fn chunk_len(len: usize, next: usize, done: usize) -> (n: usize)
    requires
        done == next * CHUNK_SIZE,
        done < len,
    ensures
        n == chunk_end(len as nat, next as nat) - next * CHUNK_SIZE,
        0 < n <= CHUNK_SIZE,
{
    if len - done > CHUNK_SIZE {
        CHUNK_SIZE
    } else {
        len - done
    }
}

/// Chunk `next` of the frames, which starts at `done`.
fn chunk_at(frames: &Vec<String>, next: usize, done: usize) -> (c: Vec<String>)
    requires
        done == next * CHUNK_SIZE,
        done < frames.len(),
    ensures
        views(c@) == chunk(views(frames@), next as nat),
{
    let end = done + chunk_len(frames.len(), next, done);
    let mut c: Vec<String> = Vec::new();
    let mut k = done;
    while k < end
        invariant
            done <= k <= end <= frames.len(),
            views(c@) == views(frames@).subrange(done as int, k as int),
        decreases end - k,
    {
        c.push(frames[k].clone());
        assert(views(frames@).subrange(done as int, k + 1) =~= views(frames@).subrange(
            done as int,
            k as int,
        ).push(frames@[k as int]@));
        k = k + 1;
    }
    c
}

/// "resume: reusing N extracted frames".
fn resume_text(n: usize) -> (m: String)
    ensures
        m@ == resume_message(n as nat),
{
    let mut m = String::from_str("resume: reusing ");
    m.append(decimal_string(n as u64).as_str());
    m.append(" extracted frames");
    m
}

/// "N frames to upscale".
fn count_text(n: usize) -> (m: String)
    ensures
        m@ == count_message(n as nat),
{
    let mut m = decimal_string(n as u64);
    m.append(" frames to upscale");
    m
}

} // verus!
