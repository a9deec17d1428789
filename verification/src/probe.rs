//! Reading ffprobe's JSON report: the model of a JSON document, and the
//! facts about the source video that the pipeline needs from it.

use vstd::prelude::*;
use crate::cli::opt_view;
use crate::text::str_eq;

verus! {

/// A JSON value. Objects keep their members in the order the parser
/// reports them (by key, without repeated keys).
#[derive(Debug, PartialEq)]
pub enum JsonValue {
    Null,
    Bool(bool),
    /// A number, holding its value when it is an integer in `u64` range.
    Number(Option<u64>),
    Str(String),
    Array(Vec<JsonValue>),
    Object(Vec<(String, JsonValue)>),
}

/// `serde_json::Error`, the parser's error.
#[verifier::external_type_specification]
#[verifier::external_body]
pub struct ExJsonError(serde_json::Error);

/// `serde_json::Value`, the parser's document type.
#[verifier::external_type_specification]
#[verifier::external_body]
pub struct ExJsonDocument(serde_json::Value);

/// The document that serde_json reads from `bytes`, when they hold one.
pub uninterp spec fn json_parse(bytes: Seq<u8>) -> Option<JsonValue>;

/// `serde_json::from_slice` into a `serde_json::Value`, then carried over
/// into `JsonValue`. The parse fails exactly when `json_parse` has no
/// document for the bytes, and gives that document otherwise; which error
/// it reports is not stated.
#[verifier::external_body]
fn parse_json(bytes: &[u8]) -> (r: Result<JsonValue, serde_json::Error>)
    ensures
        r is Ok <==> json_parse(bytes@) is Some,
        r matches Ok(v) ==> json_parse(bytes@) == Some(v),
{
    serde_json::from_slice::<serde_json::Value>(bytes).map(json_model)
}

/// Carries a `serde_json::Value` over into `JsonValue`, variant by variant
/// (a number through `Number::as_u64`). Nothing is stated of the result:
/// `parse_json`'s contract speaks of the parse as a whole.
#[verifier::external_body]
fn json_model(v: serde_json::Value) -> JsonValue {
    match v {
        serde_json::Value::Null => JsonValue::Null,
        serde_json::Value::Bool(b) => JsonValue::Bool(b),
        serde_json::Value::Number(n) => JsonValue::Number(n.as_u64()),
        serde_json::Value::String(s) => JsonValue::Str(s),
        serde_json::Value::Array(a) => JsonValue::Array(a.into_iter().map(json_model).collect()),
        serde_json::Value::Object(m) => JsonValue::Object(
            m.into_iter().map(|(k, x)| (k, json_model(x))).collect(),
        ),
    }
}

/// The member `key` of an object's members, or `Null` (as indexing a
/// `serde_json::Value` gives).
pub open spec fn lookup(members: Seq<(String, JsonValue)>, key: Seq<char>) -> JsonValue
    decreases members.len(),
{
    if members.len() == 0 {
        JsonValue::Null
    } else if members[0].0@ == key {
        members[0].1
    } else {
        lookup(members.drop_first(), key)
    }
}

/// `v[key]`: the member `key` of an object, `Null` for anything else.
pub open spec fn field(v: JsonValue, key: Seq<char>) -> JsonValue {
    match v {
        JsonValue::Object(members) => lookup(members@, key),
        _ => JsonValue::Null,
    }
}

/// `v.as_u64()`.
pub open spec fn as_u64(v: JsonValue) -> Option<u64> {
    match v {
        JsonValue::Number(n) => n,
        _ => None,
    }
}

/// `v.as_str()`, by view.
pub open spec fn as_text(v: JsonValue) -> Option<Seq<char>> {
    match v {
        JsonValue::Str(s) => Some(s@),
        _ => None,
    }
}

/// The stream is of media type `kind` (its `codec_type` is that string).
pub open spec fn is_kind(stream: JsonValue, kind: Seq<char>) -> bool {
    as_text(field(stream, "codec_type"@)) == Some(kind)
}

/// The position of the first stream of media type `kind`, if any.
pub open spec fn first_of_kind(streams: Seq<JsonValue>, kind: Seq<char>) -> Option<int>
    decreases streams.len(),
{
    if streams.len() == 0 {
        None
    } else if is_kind(streams[0], kind) {
        Some(0)
    } else {
        match first_of_kind(streams.drop_first(), kind) {
            Some(i) => Some(i + 1),
            None => None,
        }
    }
}

/// What the pipeline knows of the source video.
#[derive(Debug, Clone, PartialEq)]
pub struct VideoInfo {
    pub width: u32,
    pub height: u32,
    /// Rational frame rate as ffmpeg accepts it, e.g. "30000/1001".
    pub fps: String,
    pub has_audio: bool,
    /// The duration in seconds as ffprobe wrote it, when it did.
    pub duration: Option<String>,
}

/// Why a probe report gives no video description.
#[derive(Debug)]
pub enum ProbeError {
    /// The report is not JSON.
    Parse(serde_json::Error),
    /// The report has no list of streams.
    NoStreams,
    /// None of the streams is a video stream.
    NoVideoStream,
    /// The video stream gives no width.
    MissingWidth,
    /// The video stream gives no height.
    MissingHeight,
}

/// The error a report would give, if any, in the order the checks are made.
pub open spec fn report_error(doc: JsonValue) -> Option<ProbeErrorKind> {
    match field(doc, "streams"@) {
        JsonValue::Array(list) => match first_of_kind(list@, "video"@) {
            Some(i) => if as_u64(field(list@[i], "width"@)) is None {
                Some(ProbeErrorKind::MissingWidth)
            } else if as_u64(field(list@[i], "height"@)) is None {
                Some(ProbeErrorKind::MissingHeight)
            } else {
                None
            },
            None => Some(ProbeErrorKind::NoVideoStream),
        },
        _ => Some(ProbeErrorKind::NoStreams),
    }
}

/// The kinds of `ProbeError`, without the parser's error value.
#[derive(PartialEq, Eq, Structural, Debug, Clone, Copy)]
pub enum ProbeErrorKind {
    Parse,
    NoStreams,
    NoVideoStream,
    MissingWidth,
    MissingHeight,
}

impl ProbeError {
    /// The kind of this error.
    pub open spec fn kind(self) -> ProbeErrorKind {
        match self {
            ProbeError::Parse(_) => ProbeErrorKind::Parse,
            ProbeError::NoStreams => ProbeErrorKind::NoStreams,
            ProbeError::NoVideoStream => ProbeErrorKind::NoVideoStream,
            ProbeError::MissingWidth => ProbeErrorKind::MissingWidth,
            ProbeError::MissingHeight => ProbeErrorKind::MissingHeight,
        }
    }

    /// What went wrong, in words.
    pub fn message(&self) -> (m: &'static str)
        ensures
            self.kind() == ProbeErrorKind::Parse ==> m@ == "parsing ffprobe output"@,
            self.kind() == ProbeErrorKind::NoStreams ==> m@ == "ffprobe returned no streams"@,
            self.kind() == ProbeErrorKind::NoVideoStream ==> m@ == "no video stream found"@,
            self.kind() == ProbeErrorKind::MissingWidth ==> m@ == "missing width"@,
            self.kind() == ProbeErrorKind::MissingHeight ==> m@ == "missing height"@,
    {
        match self {
            ProbeError::Parse(_) => "parsing ffprobe output",
            ProbeError::NoStreams => "ffprobe returned no streams",
            ProbeError::NoVideoStream => "no video stream found",
            ProbeError::MissingWidth => "missing width",
            ProbeError::MissingHeight => "missing height",
        }
    }
}

/// `doc[key]` of an object; `None` stands for the `Null` that indexing
/// gives for a missing member or a non-object.
pub fn member<'a>(v: &'a JsonValue, key: &str) -> (r: Option<&'a JsonValue>)
    ensures
        match r {
            Some(x) => *x == field(*v, key@),
            None => field(*v, key@) == JsonValue::Null,
        },
{
    match v {
        JsonValue::Object(members) => {
            let mut i: usize = 0;
            assert(members@.skip(0) =~= members@);
            while i < members.len()
                invariant
                    i <= members.len(),
                    field(*v, key@) == lookup(members@, key@),
                    lookup(members@, key@) == lookup(members@.skip(i as int), key@),
                decreases members.len() - i,
            {
                assert(members@.skip(i as int).drop_first() =~= members@.skip(i + 1));
                assert(members@.skip(i as int)[0] == members@[i as int]);
                if str_eq(members[i].0.as_str(), key) {
                    assert(lookup(members@.skip(i as int), key@) == members@[i as int].1);
                    return Some(&members[i].1);
                }
                i = i + 1;
            }
            assert(members@.skip(i as int).len() == 0);
            None
        },
        _ => None,
    }
}

/// `v.as_u64()` of an optional member (`None` for a missing one).
fn member_u64(v: Option<&JsonValue>) -> (r: Option<u64>)
    ensures
        r == match v {
            Some(x) => as_u64(*x),
            None => None::<u64>,
        },
{
    match v {
        Some(JsonValue::Number(n)) => *n,
        _ => None,
    }
}

/// `v.as_str()` of an optional member, as owned text.
fn member_text(v: Option<&JsonValue>) -> (r: Option<String>)
    ensures
        opt_view(r) == match v {
            Some(x) => as_text(*x),
            None => None::<Seq<char>>,
        },
{
    match v {
        Some(JsonValue::Str(s)) => Some(s.clone()),
        _ => None,
    }
}

/// Whether the stream's `codec_type` is the string `kind`.
pub fn stream_is_kind(stream: &JsonValue, kind: &str) -> (b: bool)
    ensures
        b == is_kind(*stream, kind@),
{
    match member(stream, "codec_type") {
        Some(JsonValue::Str(s)) => str_eq(s.as_str(), kind),
        _ => false,
    }
}

/// The first stream of a kind is one of the streams, and is of that kind.
pub proof fn lemma_first_of_kind(streams: Seq<JsonValue>, kind: Seq<char>)
    ensures
        first_of_kind(streams, kind) matches Some(i) ==> 0 <= i < streams.len() && is_kind(
            streams[i],
            kind,
        ),
        first_of_kind(streams, kind) is None ==> forall|i: int|
            0 <= i < streams.len() ==> !is_kind(#[trigger] streams[i], kind),
    decreases streams.len(),
{
    if streams.len() > 0 {
        lemma_first_of_kind(streams.drop_first(), kind);
        assert forall|i: int| 1 <= i < streams.len() implies streams[i] == streams.drop_first()[i
            - 1] by {}
    }
}

/// The first stream of media type `kind`.
fn find_kind(streams: &Vec<JsonValue>, kind: &str) -> (r: Option<usize>)
    ensures
        match r {
            Some(i) => first_of_kind(streams@, kind@) == Some(i as int),
            None => first_of_kind(streams@, kind@) is None,
        },
{
    let mut i: usize = 0;
    assert(streams@.skip(0) =~= streams@);
    while i < streams.len()
        invariant
            i <= streams.len(),
            first_of_kind(streams@, kind@) == match first_of_kind(streams@.skip(i as int), kind@) {
                Some(j) => Some(j + i),
                None => None::<int>,
            },
        decreases streams.len() - i,
    {
        assert(streams@.skip(i as int).drop_first() =~= streams@.skip(i + 1));
        assert(streams@.skip(i as int)[0] == streams@[i as int]);
        if stream_is_kind(&streams[i], kind) {
            return Some(i);
        }
        i = i + 1;
    }
    assert(streams@.skip(i as int).len() == 0);
    None
}

/// The source description in a report without errors: the first video
/// stream's size (cut to 32 bits) and frame rate ("25/1" when it gives
/// none), whether any stream is audio, and the format's duration text.
pub open spec fn describes(info: VideoInfo, doc: JsonValue) -> bool {
    match field(doc, "streams"@) {
        JsonValue::Array(list) => match first_of_kind(list@, "video"@) {
            Some(i) => {
                let video = list@[i];
                &&& as_u64(field(video, "width"@)) matches Some(w) && info.width == w as u32
                &&& as_u64(field(video, "height"@)) matches Some(h) && info.height == h as u32
                &&& info.fps@ == match as_text(field(video, "r_frame_rate"@)) {
                    Some(t) => t,
                    None => "25/1"@,
                }
                &&& info.has_audio == first_of_kind(list@, "audio"@) is Some
                &&& opt_view(info.duration) == as_text(field(field(doc, "format"@), "duration"@))
            },
            None => false,
        },
        _ => false,
    }
}

/// Whether the source has audio does not depend on where its streams stand:
/// it has audio exactly when some stream of the report, before or after the
/// video stream, has `codec_type` "audio".
pub proof fn law_audio_from_any_stream(info: VideoInfo, doc: JsonValue)
    requires
        describes(info, doc),
    ensures
        field(doc, "streams"@) matches JsonValue::Array(list) && (info.has_audio <==> exists|k: int|
            0 <= k < list@.len() && as_text(field(#[trigger] list@[k], "codec_type"@)) == Some(
                "audio"@,
            )),
{
    match field(doc, "streams"@) {
        JsonValue::Array(list) => {
            lemma_first_of_kind(list@, "audio"@);
        },
        _ => {},
    }
}

/// The size and frame rate come from the first video stream: a stream whose
/// `codec_type` is "video", with none before it.
pub proof fn law_size_from_first_video_stream(info: VideoInfo, doc: JsonValue)
    requires
        describes(info, doc),
    ensures
        field(doc, "streams"@) matches JsonValue::Array(list) && exists|i: int|
            {
                &&& 0 <= i < list@.len()
                &&& as_text(field(#[trigger] list@[i], "codec_type"@)) == Some("video"@)
                &&& forall|j: int|
                    0 <= j < i ==> as_text(field(#[trigger] list@[j], "codec_type"@)) != Some(
                        "video"@,
                    )
                &&& (as_u64(field(list@[i], "width"@)) matches Some(w) && info.width == w as u32)
                &&& (as_u64(field(list@[i], "height"@)) matches Some(h) && info.height == h as u32)
            },
{
    match field(doc, "streams"@) {
        JsonValue::Array(list) => {
            lemma_first_of_kind(list@, "video"@);
            lemma_first_of_kind_is_first(list@, "video"@);
        },
        _ => {},
    }
}

/// No stream before the first of a kind is of that kind.
pub proof fn lemma_first_of_kind_is_first(streams: Seq<JsonValue>, kind: Seq<char>)
    ensures
        first_of_kind(streams, kind) matches Some(i) ==> forall|j: int|
            0 <= j < i ==> !is_kind(#[trigger] streams[j], kind),
    decreases streams.len(),
{
    if streams.len() > 0 && !is_kind(streams[0], kind) {
        let rest = streams.drop_first();
        lemma_first_of_kind_is_first(rest, kind);
        lemma_first_of_kind(rest, kind);
        if let Some(i) = first_of_kind(rest, kind) {
            assert forall|j: int| 0 <= j < i + 1 implies !is_kind(#[trigger] streams[j], kind) by {
                if j > 0 {
                    assert(streams[j] == rest[j - 1]);
                }
            }
        }
    }
}

/// Reads the source description out of a parsed report. It fails, in this
/// order, when there is no list of streams, no video stream, or the video
/// stream lacks its width or its height.
pub fn video_info_from_report(doc: &JsonValue) -> (r: Result<VideoInfo, ProbeError>)
    ensures
        match r {
            Ok(info) => report_error(*doc) is None && describes(info, *doc),
            Err(e) => report_error(*doc) == Some(e.kind()),
        },
{
    let streams = match member(doc, "streams") {
        Some(JsonValue::Array(list)) => list,
        _ => return Err(ProbeError::NoStreams),
    };
    proof {
        lemma_first_of_kind(streams@, "video"@);
    }
    let vi = match find_kind(streams, "video") {
        Some(i) => i,
        None => return Err(ProbeError::NoVideoStream),
    };
    let video = &streams[vi];
    let width = match member_u64(member(video, "width")) {
        Some(w) => w as u32,
        None => return Err(ProbeError::MissingWidth),
    };
    let height = match member_u64(member(video, "height")) {
        Some(h) => h as u32,
        None => return Err(ProbeError::MissingHeight),
    };
    let fps = match member_text(member(video, "r_frame_rate")) {
        Some(t) => t,
        None => String::from_str("25/1"),
    };
    let has_audio = find_kind(streams, "audio").is_some();
    let duration = match member(doc, "format") {
        Some(format) => member_text(member(format, "duration")),
        None => None,
    };
    Ok(VideoInfo { width, height, fps, has_audio, duration })
}

/// Reads ffprobe's JSON report (its standard output) into the source
/// description. An unreadable report is a `Parse` error; a readable one
/// gives what `video_info_from_report` gives for its document.
pub fn parse_probe_output(stdout: &[u8]) -> (r: Result<VideoInfo, ProbeError>)
    ensures
        (r matches Err(e) && e.kind() == ProbeErrorKind::Parse) <==> json_parse(stdout@) is None,
        json_parse(stdout@) matches Some(doc) ==> match r {
            Ok(info) => report_error(doc) is None && describes(info, doc),
            Err(e) => report_error(doc) == Some(e.kind()),
        },
{
    match parse_json(stdout) {
        Ok(doc) => video_info_from_report(&doc),
        Err(e) => Err(ProbeError::Parse(e)),
    }
}

} // verus!
