//! File names: the stem of a path, the names derived from it, and the
//! selection and ordering of extracted frame files.

use vstd::prelude::*;
use crate::cli::{opt_view, views};
use crate::text::chars_of;

verus! {

broadcast use vstd::seq_lib::group_seq_properties, vstd::seq_lib::group_to_multiset_ensures;

/// A path that is one ordinary file name on every platform: not empty,
/// neither `.` nor `..`, and without `/`, `\` or `:`.
pub open spec fn is_bare_name(p: Seq<char>) -> bool {
    &&& p.len() > 0
    &&& p != seq!['.']
    &&& p != seq!['.', '.']
    &&& forall|i: int| 0 <= i < p.len() ==> #[trigger] p[i] != '/' && p[i] != '\\' && p[i] != ':'
}

/// The position of the last `.` in `s`, or -1 when there is none.
pub open spec fn last_dot(s: Seq<char>) -> int
    decreases s.len(),
{
    if s.len() == 0 {
        -1
    } else if s.last() == '.' {
        s.len() - 1
    } else {
        last_dot(s.drop_last())
    }
}

/// The stem of a file name, as `Path::file_stem` documents it: the whole
/// name when it has no `.` or its only `.` is the first character, and
/// otherwise the part before the last `.`.
pub open spec fn name_stem(name: Seq<char>) -> Seq<char> {
    if last_dot(name) <= 0 {
        name
    } else {
        name.subrange(0, last_dot(name))
    }
}

/// The position of the last `/` in `s`, or -1 when there is none.
pub open spec fn last_slash(s: Seq<char>) -> int
    decreases s.len(),
{
    if s.len() == 0 {
        -1
    } else if s.last() == '/' {
        s.len() - 1
    } else {
        last_slash(s.drop_last())
    }
}

/// What follows the last `/` of a path (the whole path when it has none).
pub open spec fn last_segment(p: Seq<char>) -> Seq<char> {
    p.subrange(last_slash(p) + 1, p.len() as int)
}

/// A path that every platform reads the same way: `/` is its only
/// separator, and it has no prefix (no `\`, no `:`, and it does not begin
/// with two separators).
pub open spec fn is_portable_path(p: Seq<char>) -> bool {
    &&& forall|i: int| 0 <= i < p.len() ==> #[trigger] p[i] != '\\' && p[i] != ':'
    &&& !(p.len() >= 2 && p[0] == '/' && p[1] == '/')
}

/// A portable path whose last component is an ordinary file name.
pub open spec fn names_file(p: Seq<char>) -> bool {
    is_portable_path(p) && is_bare_name(last_segment(p))
}

/// A path with no file name: empty, `.`, `..`, or a portable path that
/// ends in `/..`.
pub open spec fn names_no_file(p: Seq<char>) -> bool {
    ||| p == Seq::<char>::empty()
    ||| p == seq!['.']
    ||| p == seq!['.', '.']
    ||| (is_portable_path(p) && p.len() >= 3 && p.subrange(p.len() - 3, p.len() as int) == seq![
        '/',
        '.',
        '.',
    ])
}

/// The path without what ends it but names nothing: trailing separators
/// and trailing `/.` components, as path parsing drops them
/// (`clip.mp4/` and `clip.mp4/.` name `clip.mp4`).
pub open spec fn trimmed(p: Seq<char>) -> Seq<char>
    decreases p.len(),
{
    if p.len() > 0 && p.last() == '/' {
        trimmed(p.drop_last())
    } else if p.len() >= 2 && p.last() == '.' && p[p.len() - 2] == '/' {
        trimmed(p.subrange(0, p.len() - 2))
    } else {
        p
    }
}

/// The stem of a portable path: that of its last component when that is a
/// file name, and none when the path names no file (it is empty, `/`, `.`,
/// or ends in `..`).
pub open spec fn portable_stem(p: Seq<char>) -> Option<Seq<char>> {
    if names_file(trimmed(p)) {
        Some(name_stem(last_segment(trimmed(p))))
    } else {
        None
    }
}

/// A path that ends in a file name on every platform: it is not empty,
/// does not begin with two separators (`/` or `\`, which can open a Windows
/// network or device prefix), and its last character is no separator, no
/// `:` and no `.`.
pub open spec fn ends_in_name(p: Seq<char>) -> bool {
    &&& p.len() > 0
    &&& !(p.len() >= 2 && (p[0] == '/' || p[0] == '\\') && (p[1] == '/' || p[1] == '\\'))
    &&& p.last() != '/' && p.last() != '\\' && p.last() != ':' && p.last() != '.'
}

/// The file name of `p` can begin after position `k` on some platform: `k`
/// is before the start or holds a separator (`/`, or `\` on Windows) or the
/// `:` of a Windows drive, and no `/` comes after it.
pub open spec fn name_starts_after(p: Seq<char>, k: int) -> bool {
    &&& -1 <= k < p.len() - 1
    &&& (k == -1 || p[k] == '/' || p[k] == '\\' || p[k] == ':')
    &&& forall|j: int| k < j < p.len() ==> #[trigger] p[j] != '/'
}

/// `s` is the stem of the part of `p` after some position where its file
/// name can begin.
pub open spec fn is_final_name_stem(p: Seq<char>, s: Seq<char>) -> bool {
    exists|k: int|
        name_starts_after(p, k) && s == name_stem(#[trigger] p.subrange(k + 1, p.len() as int))
}

/// `Path::file_stem` on the path `path`, the stem returned as text. For a
/// portable path it is `portable_stem`. For any path that ends in a file
/// name there is a stem, and it is the stem of the path's last part after a
/// separator or drive colon; which separators and prefixes count depends on
/// the platform's path syntax, so which of those parts it is is not stated.
#[verifier::external_body]
pub(crate) fn file_stem(path: &str) -> (r: Option<String>)
    ensures
        is_portable_path(path@) ==> opt_view(r) == portable_stem(path@),
        ends_in_name(path@) ==> r is Some && is_final_name_stem(path@, opt_view(r)->0),
{
    std::path::Path::new(path).file_stem().map(|s| s.to_string_lossy().into_owned())
}

/// The last `/` of `s` is a `/`, and none follows it.
pub proof fn lemma_last_slash(s: Seq<char>)
    ensures
        -1 <= last_slash(s) < s.len(),
        last_slash(s) >= 0 ==> s[last_slash(s)] == '/',
        forall|i: int| last_slash(s) < i < s.len() ==> #[trigger] s[i] != '/',
    decreases s.len(),
{
    if s.len() > 0 && s.last() != '/' {
        lemma_last_slash(s.drop_last());
        assert forall|i: int| last_slash(s) < i < s.len() implies #[trigger] s[i] != '/' by {
            if i < s.len() - 1 {
                assert(s[i] == s.drop_last()[i]);
            }
        }
    }
}

/// Trimming keeps a prefix of the path, ending neither in `/` nor in `/.`.
pub proof fn lemma_trimmed(p: Seq<char>)
    ensures
        trimmed(p).len() <= p.len(),
        trimmed(p) == p.subrange(0, trimmed(p).len() as int),
        trimmed(p).len() > 0 ==> trimmed(p).last() != '/',
        !(trimmed(p).len() >= 2 && trimmed(p).last() == '.' && trimmed(p)[trimmed(p).len() - 2]
            == '/'),
    decreases p.len(),
{
    if p.len() > 0 && p.last() == '/' {
        lemma_trimmed(p.drop_last());
        assert(p.drop_last().subrange(0, trimmed(p).len() as int) =~= p.subrange(
            0,
            trimmed(p).len() as int,
        ));
    } else if p.len() >= 2 && p.last() == '.' && p[p.len() - 2] == '/' {
        let q = p.subrange(0, p.len() - 2);
        lemma_trimmed(q);
        assert(q.subrange(0, trimmed(p).len() as int) =~= p.subrange(0, trimmed(p).len() as int));
    } else {
        assert(p.subrange(0, p.len() as int) =~= p);
    }
}

/// Every portable path either ends in a file name or names no file, once
/// its trailing separators and `/.` components are dropped: `portable_stem`
/// covers every portable path.
pub proof fn lemma_portable_paths_covered(p: Seq<char>)
    requires
        is_portable_path(p),
    ensures
        names_file(trimmed(p)) || names_no_file(trimmed(p)),
{
    lemma_trimmed(p);
    let t = trimmed(p);
    assert forall|i: int| 0 <= i < t.len() implies #[trigger] t[i] != '\\' && t[i] != ':' by {
        assert(t[i] == p[i]);
    }
    if t.len() >= 2 {
        assert(t[0] == p[0] && t[1] == p[1]);
    }
    assert(is_portable_path(t));
    if t.len() > 0 {
        lemma_last_slash(t);
        let k = last_slash(t);
        let seg = last_segment(t);
        assert(k < t.len() - 1);
        assert forall|i: int| 0 <= i < seg.len() implies #[trigger] seg[i] != '/' && seg[i] != '\\'
            && seg[i] != ':' by {
            assert(seg[i] == t[k + 1 + i]);
        }
        if seg == seq!['.'] {
            if k >= 0 {
                assert(seg.len() == t.len() - k - 1);
                assert(seg[0] == t[k + 1]);
                assert(t[t.len() - 2] == '/' && t.last() == '.');
            } else {
                assert(t =~= seg);
            }
        } else if seg == seq!['.', '.'] {
            if k >= 0 {
                assert(seg.len() == t.len() - k - 1);
                assert(seg[0] == t[k + 1] && seg[1] == t[k + 2]);
                assert(t.subrange(t.len() - 3, t.len() as int) =~= seq!['/', '.', '.']);
            } else {
                assert(t =~= seg);
            }
        }
    }
}

/// The last `.` of `s` is a `.` of `s`.
pub proof fn lemma_last_dot(s: Seq<char>)
    ensures
        -1 <= last_dot(s) < s.len(),
    decreases s.len(),
{
    if s.len() > 0 && s.last() != '.' {
        lemma_last_dot(s.drop_last());
    }
}

/// A default name is made from the start of the path's final file name:
/// the stem of the part after any position where that name can begin is a
/// non-empty start of that part, with no separator in it.
pub proof fn law_stem_starts_final_name(p: Seq<char>, k: int)
    requires
        ends_in_name(p),
        name_starts_after(p, k),
    ensures
        ({
            let seg = p.subrange(k + 1, p.len() as int);
            let s = name_stem(seg);
            &&& 0 < s.len() <= seg.len()
            &&& s == seg.subrange(0, s.len() as int)
            &&& forall|j: int| 0 <= j < s.len() ==> #[trigger] s[j] != '/'
        }),
{
    let seg = p.subrange(k + 1, p.len() as int);
    lemma_last_dot(seg);
    assert(seg.subrange(0, seg.len() as int) =~= seg);
    assert forall|j: int| 0 <= j < name_stem(seg).len() implies #[trigger] name_stem(seg)[j]
        != '/' by {
        assert(name_stem(seg)[j] == seg[j]);
        assert(seg[j] == p[k + 1 + j]);
    }
}

/// The default output file name for an input whose stem is `stem`:
/// `<stem>_upscaled.mp4`, with `output` standing in for a missing stem.
pub open spec fn upscaled_name(stem: Option<Seq<char>>) -> Seq<char> {
    match stem {
        Some(s) => s + "_upscaled.mp4"@,
        None => "output"@ + "_upscaled.mp4"@,
    }
}

/// The default output file name from the input's stem.
pub fn upscaled_name_for(stem: Option<String>) -> (name: String)
    ensures
        name@ == upscaled_name(opt_view(stem)),
{
    let mut name = match stem {
        Some(s) => s,
        None => String::from_str("output"),
    };
    name.append("_upscaled.mp4");
    name
}

/// The name of the default working directory for an output whose stem is
/// `stem`: `<stem>.frames`, with `pixellift` standing in for a missing stem.
pub open spec fn frames_dir_name(stem: Option<Seq<char>>) -> Seq<char> {
    match stem {
        Some(s) => s + ".frames"@,
        None => "pixellift"@ + ".frames"@,
    }
}

/// The name of the default working directory, beside the output file,
/// from the output's stem as `Path::file_stem` gives it.
pub fn frames_dir_for(output: &str) -> (name: String)
    ensures
        is_portable_path(output@) ==> name@ == frames_dir_name(portable_stem(output@)),
        ends_in_name(output@) ==> exists|s: Seq<char>|
            is_final_name_stem(output@, s) && name@ == #[trigger] frames_dir_name(Some(s)),
{
    let stem = file_stem(output);
    frames_dir_from_stem(stem)
}

/// The name of the default working directory from the output's stem.
pub fn frames_dir_from_stem(stem: Option<String>) -> (name: String)
    ensures
        name@ == frames_dir_name(opt_view(stem)),
{
    let mut name = match stem {
        Some(s) => s,
        None => String::from_str("pixellift"),
    };
    name.append(".frames");
    name
}

/// A directory entry is an extracted frame when its extension is `png`:
/// it ends in `.png` and something comes before that.
pub open spec fn is_frame_name(n: Seq<char>) -> bool {
    n.len() > 4 && n.subrange(n.len() - 4, n.len() as int) == seq!['.', 'p', 'n', 'g']
}

/// The predicate `is_frame_name`, as a function value.
pub open spec fn frame_pred() -> spec_fn(Seq<char>) -> bool {
    |n: Seq<char>| is_frame_name(n)
}

/// Whether a file name is that of an extracted frame.
pub fn frame_name(n: &Vec<char>) -> (b: bool)
    ensures
        b == is_frame_name(n@),
{
    let l = n.len();
    if l <= 4 {
        return false;
    }
    let r = n[l - 4] == '.' && n[l - 3] == 'p' && n[l - 2] == 'n' && n[l - 1] == 'g';
    assert(r == (n@.subrange(l - 4, l as int) =~= seq!['.', 'p', 'n', 'g']));
    r
}

/// Code-point order of strings, shorter first on a common prefix: the
/// order in which paths of one directory sort.
pub open spec fn lex_le(a: Seq<char>, b: Seq<char>) -> bool
    decreases a.len(),
{
    if a.len() == 0 {
        true
    } else if b.len() == 0 {
        false
    } else if a[0] != b[0] {
        (a[0] as u32) < (b[0] as u32)
    } else {
        lex_le(a.drop_first(), b.drop_first())
    }
}

/// Any two strings compare one way or the other.
pub proof fn lemma_lex_total(a: Seq<char>, b: Seq<char>)
    ensures
        lex_le(a, b) || lex_le(b, a),
    decreases a.len(),
{
    if a.len() > 0 && b.len() > 0 {
        if a[0] == b[0] {
            lemma_lex_total(a.drop_first(), b.drop_first());
        } else {
            vstd::utf8::char_u32_cast(a[0], a[0] as u32);
            vstd::utf8::char_u32_cast(b[0], b[0] as u32);
        }
    }
}

/// The order is transitive.
pub proof fn lemma_lex_trans(a: Seq<char>, b: Seq<char>, c: Seq<char>)
    requires
        lex_le(a, b),
        lex_le(b, c),
    ensures
        lex_le(a, c),
    decreases a.len(),
{
    if a.len() > 0 && b.len() > 0 && c.len() > 0 && a[0] == b[0] && b[0] == c[0] {
        lemma_lex_trans(a.drop_first(), b.drop_first(), c.drop_first());
    }
}

/// Compares two strings in code-point order.
fn lex_le_exec(a: &Vec<char>, b: &Vec<char>) -> (r: bool)
    ensures
        r == lex_le(a@, b@),
{
    let mut k: usize = 0;
    while k < a.len() && k < b.len() && a[k] == b[k]
        invariant
            k <= a.len(),
            k <= b.len(),
            lex_le(a@, b@) == lex_le(a@.skip(k as int), b@.skip(k as int)),
        decreases a.len() - k,
    {
        assert(a@.skip(k as int).drop_first() =~= a@.skip(k + 1));
        assert(b@.skip(k as int).drop_first() =~= b@.skip(k + 1));
        k = k + 1;
    }
    if k == a.len() {
        assert(a@.skip(k as int).len() == 0);
        true
    } else if k == b.len() {
        assert(b@.skip(k as int).len() == 0);
        false
    } else {
        let ca = a[k];
        let cb = b[k];
        assert(a@.skip(k as int)[0] == ca && b@.skip(k as int)[0] == cb);
        (ca as u32) < (cb as u32)
    }
}

/// Every earlier element is at most every later one.
pub open spec fn sorted(s: Seq<Seq<char>>) -> bool {
    forall|i: int, j: int| 0 <= i < j < s.len() ==> lex_le(#[trigger] s[i], #[trigger] s[j])
}

/// The frame files among directory entry names, in path order: the entries
/// whose extension is `png`, sorted.
pub fn select_frames(names: Vec<String>) -> (frames: Vec<String>)
    ensures
        sorted(views(frames@)),
        views(frames@).to_multiset() == views(names@).filter(frame_pred()).to_multiset(),
{
    let ghost pred = frame_pred();
    let mut out: Vec<String> = Vec::new();
    let mut keys: Vec<Vec<char>> = Vec::new();
    let mut i: usize = 0;
    while i < names.len()
        invariant
            i <= names.len(),
            out.len() == keys.len(),
            forall|k: int| 0 <= k < out.len() ==> #[trigger] keys@[k]@ == out@[k]@,
            sorted(views(out@)),
            pred == frame_pred(),
            views(out@).to_multiset() == views(names@).take(i as int).filter(pred).to_multiset(),
        decreases names.len() - i,
    {
        let name = names[i].clone();
        let key = chars_of(name.as_str());
        proof {
            assert(views(names@).take(i + 1) =~= views(names@).take(i as int).push(name@));
            views(names@).take(i as int).lemma_filter_push(name@, pred);
        }
        let ghost before = views(names@).take(i as int).filter(pred);
        assert(views(names@).take(i as int).push(name@).filter(pred) == if is_frame_name(name@) {
            before.push(name@)
        } else {
            before
        });
        assert(views(names@).take(i + 1).filter(pred) == if is_frame_name(name@) {
            before.push(name@)
        } else {
            before
        });
        if frame_name(&key) {
            let mut lo: usize = 0;
            let mut hi: usize = out.len();
            while lo < hi
                invariant
                    lo <= hi <= out.len(),
                    out.len() == keys.len(),
                    forall|k: int| 0 <= k < out.len() ==> #[trigger] keys@[k]@ == out@[k]@,
                    key@ == name@,
                    sorted(views(out@)),
                    forall|k: int| 0 <= k < lo ==> lex_le(#[trigger] out@[k]@, name@),
                    forall|k: int| hi <= k < out.len() ==> !lex_le(#[trigger] out@[k]@, name@),
                decreases hi - lo,
            {
                let mid = lo + (hi - lo) / 2;
                if lex_le_exec(&keys[mid], &key) {
                    proof {
                        assert forall|k: int| 0 <= k < mid + 1 implies lex_le(
                            #[trigger] out@[k]@,
                            name@,
                        ) by {
                            if k < mid {
                                assert(lex_le(views(out@)[k], views(out@)[mid as int]));
                                lemma_lex_trans(out@[k]@, out@[mid as int]@, name@);
                            }
                        }
                    }
                    lo = mid + 1;
                } else {
                    proof {
                        assert forall|k: int| mid <= k < out.len() implies !lex_le(
                            #[trigger] out@[k]@,
                            name@,
                        ) by {
                            if k > mid && lex_le(out@[k]@, name@) {
                                assert(lex_le(views(out@)[mid as int], views(out@)[k]));
                                lemma_lex_trans(out@[mid as int]@, out@[k]@, name@);
                            }
                        }
                    }
                    hi = mid;
                }
            }
            let ghost old_out = out@;
            out.insert(lo, name);
            keys.insert(lo, key);
            proof {
                assert(views(out@) =~= views(old_out).insert(lo as int, name@));
                vstd::seq_lib::to_multiset_insert(views(old_out), lo as int, name@);
                assert(views(out@).to_multiset() == views(old_out).to_multiset().insert(name@));
                assert(before.push(name@).to_multiset() == before.to_multiset().insert(name@));
                assert(views(out@).to_multiset() == views(names@).take(i + 1).filter(pred).to_multiset());
                assert forall|a: int, b: int| 0 <= a < b < out.len() implies lex_le(
                    #[trigger] views(out@)[a],
                    #[trigger] views(out@)[b],
                ) by {
                    if a < lo && b == lo {
                    } else if a == lo && b > lo {
                        lemma_lex_total(name@, old_out[b - 1]@);
                    } else if a < lo && b > lo {
                        assert(lex_le(views(old_out)[a], views(old_out)[b - 1]));
                    } else if b < lo {
                        assert(lex_le(views(old_out)[a], views(old_out)[b]));
                    } else {
                        assert(lex_le(views(old_out)[a - 1], views(old_out)[b - 1]));
                    }
                }
                assert forall|k: int| 0 <= k < out.len() implies #[trigger] keys@[k]@ == out@[k]@ by {
                    if k < lo {
                    } else if k == lo {
                    } else {
                        assert(keys@[k] == keys@[k]);
                    }
                }
            }
        }
        i = i + 1;
    }
    proof {
        assert(views(names@).take(names.len() as int) =~= views(names@));
    }
    out
}

} // verus!
