//! What to report when an external command fails.

use vstd::prelude::*;
use crate::text::{chars_of, first_newline, is_blank, is_white_space, join, lemma_first_newline_at, lines, strip_cr, white_space};

verus! {

broadcast use vstd::seq_lib::group_seq_properties;

/// How many of the last non-blank lines of a failed command's error output
/// are reported.
pub const TAIL_LINES: usize = 6;

/// What separates two reported lines of error output: a line feed and two spaces.
pub open spec fn tail_sep() -> Seq<char> {
    seq!['\n', ' ', ' ']
}

/// The predicate that keeps a line: it is not blank.
pub open spec fn nonblank() -> spec_fn(Seq<char>) -> bool {
    |l: Seq<char>| !is_blank(l)
}

/// The non-blank lines of `log`, in order.
pub open spec fn nonblank_lines(log: Seq<char>) -> Seq<Seq<char>> {
    lines(log).filter(nonblank())
}

/// The last `TAIL_LINES` non-blank lines of `log` (all of them when there
/// are fewer), in their order, joined by `tail_sep()`.
pub open spec fn failure_tail_text(log: Seq<char>) -> Seq<char> {
    let kept = nonblank_lines(log);
    let from = if kept.len() > TAIL_LINES { kept.len() - TAIL_LINES } else { 0 };
    join(kept.subrange(from as int, kept.len() as int), tail_sep())
}

/// Whether the characters `cs[start..end]` are all white space.
fn blank_range(cs: &Vec<char>, start: usize, end: usize) -> (b: bool)
    requires
        start <= end <= cs.len(),
    ensures
        b == is_blank(cs@.subrange(start as int, end as int)),
{
    let mut k = start;
    while k < end
        invariant
            start <= k <= end <= cs.len(),
            forall|j: int| start <= j < k ==> is_white_space(cs@[j]),
        decreases end - k,
    {
        if !white_space(cs[k]) {
            assert(!is_white_space(cs@.subrange(start as int, end as int)[k - start]));
            return false;
        }
        k = k + 1;
    }
    assert forall|j: int| 0 <= j < end - start implies is_white_space(
        #[trigger] cs@.subrange(start as int, end as int)[j],
    ) by {
        assert(cs@.subrange(start as int, end as int)[j] == cs@[start + j]);
    }
    true
}

/// Appends the characters `cs[start..end]` to `t`.
fn push_range(t: &mut String, cs: &Vec<char>, start: usize, end: usize)
    requires
        start <= end <= cs.len(),
    ensures
        final(t)@ == old(t)@ + cs@.subrange(start as int, end as int),
{
    let mut k = start;
    while k < end
        invariant
            start <= k <= end <= cs.len(),
            t@ == old(t)@ + cs@.subrange(start as int, k as int),
        decreases end - k,
    {
        t.push(cs[k]);
        assert(cs@.subrange(start as int, k + 1) =~= cs@.subrange(start as int, k as int).push(
            cs@[k as int],
        ));
        k = k + 1;
    }
}

/// Splitting off the first line of `r` when its first line feed is at `k`.
proof fn lemma_lines_step(r: Seq<char>, k: int)
    requires
        0 <= k < r.len(),
        forall|j: int| 0 <= j < k ==> r[j] != '\n',
        r[k] == '\n',
    ensures
        lines(r) == seq![strip_cr(r.subrange(0, k))] + lines(r.subrange(k + 1, r.len() as int)),
{
    lemma_first_newline_at(r, k);
}

/// The last line of `r`, which holds no line feed.
proof fn lemma_lines_last(r: Seq<char>)
    requires
        r.len() > 0,
        forall|j: int| 0 <= j < r.len() ==> r[j] != '\n',
    ensures
        lines(r) == seq![r],
{
    lemma_first_newline_at(r, r.len() as int);
}

/// The ranges of `cs` that hold the non-blank lines of `log`, in order.
fn nonblank_ranges(cs: &Vec<char>, log: &str) -> (kept: Vec<(usize, usize)>)
    requires
        cs@ == log@,
    ensures
        kept.len() == nonblank_lines(log@).len(),
        forall|j: int|
            #![trigger kept@[j]]
            #![trigger nonblank_lines(log@)[j]]
            0 <= j < kept.len() ==> {
                &&& kept@[j].0 <= kept@[j].1 <= cs.len()
                &&& nonblank_lines(log@)[j] == log@.subrange(
                    kept@[j].0 as int,
                    kept@[j].1 as int,
                )
            },
{
    let n = cs.len();
    let mut kept: Vec<(usize, usize)> = Vec::new();
    let ghost mut kv: Seq<Seq<char>> = seq![];
    let mut start: usize = 0;
    let mut i: usize = 0;
    assert(log@.subrange(0, n as int) =~= log@);
    while i < n
        invariant
            cs@ == log@,
            n == cs.len(),
            start <= i <= n,
            forall|j: int| start <= j < i ==> cs@[j] != '\n',
            kept.len() == kv.len(),
            forall|j: int|
                #![trigger kept@[j]]
                #![trigger kv[j]]
                0 <= j < kept.len() ==> {
                    &&& kept@[j].0 <= kept@[j].1 <= n
                    &&& kv[j] == log@.subrange(kept@[j].0 as int, kept@[j].1 as int)
                },
            nonblank_lines(log@) == kv + lines(log@.subrange(start as int, n as int)).filter(
                nonblank(),
            ),
        decreases n - i,
    {
        if cs[i] == '\n' {
            let mut end = i;
            if end > start && cs[end - 1] == '\r' {
                end = end - 1;
            }
            let ghost r = log@.subrange(start as int, n as int);
            let ghost line = log@.subrange(start as int, end as int);
            proof {
                lemma_lines_step(r, i - start);
                assert(r.subrange(i - start + 1, r.len() as int) =~= log@.subrange(
                    i + 1,
                    n as int,
                ));
                assert(strip_cr(r.subrange(0, i - start)) =~= line);
                lines(log@.subrange(i + 1, n as int)).lemma_filter_prepend(line, nonblank());
            }
            if !blank_range(cs, start, end) {
                kept.push((start, end));
                proof {
                    kv = kv.push(line);
                }
            }
            start = i + 1;
        }
        i = i + 1;
    }
    if start < n {
        let ghost r = log@.subrange(start as int, n as int);
        proof {
            lemma_lines_last(r);
            Seq::<Seq<char>>::empty().lemma_filter_prepend(r, nonblank());
        }
        if !blank_range(cs, start, n) {
            kept.push((start, n));
            proof {
                kv = kv.push(r);
            }
        }
    }
    proof {
        reveal(Seq::filter);
        assert(nonblank_lines(log@) =~= kv);
    }
    kept
}

/// The error output worth showing for a failed command: its last
/// `TAIL_LINES` non-blank lines, joined by a line feed and two spaces.
pub fn failure_tail(log: &str) -> (t: String)
    ensures
        t@ == failure_tail_text(log@),
{
    let cs = chars_of(log);
    let kept = nonblank_ranges(&cs, log);
    let ghost kv = nonblank_lines(log@);
    let m = kept.len();
    let from = if m > TAIL_LINES { m - TAIL_LINES } else { 0 };
    let mut t = String::new();
    let mut j = from;
    while j < m
        invariant
            cs@ == log@,
            from <= j <= m,
            m == kept.len(),
            kept.len() == kv.len(),
            kv == nonblank_lines(log@),
            forall|x: int|
                #![trigger kept@[x]]
                #![trigger nonblank_lines(log@)[x]]
                0 <= x < kept.len() ==> {
                    &&& kept@[x].0 <= kept@[x].1 <= cs.len()
                    &&& nonblank_lines(log@)[x] == log@.subrange(
                        kept@[x].0 as int,
                        kept@[x].1 as int,
                    )
                },
            t@ == join(kv.subrange(from as int, j as int), tail_sep()),
        decreases m - j,
    {
        let ghost before = t@;
        if j > from {
            t.push('\n');
            t.push(' ');
            t.push(' ');
        }
        let (a, b) = kept[j];
        assert(kv[j as int] == cs@.subrange(a as int, b as int));
        push_range(&mut t, &cs, a, b);
        proof {
            let parts = kv.subrange(from as int, j + 1);
            assert(parts.drop_last() =~= kv.subrange(from as int, j as int));
            assert(parts.last() == kv[j as int]);
            if j > from {
                assert(before + tail_sep() + kv[j as int] =~= t@);
            } else {
                assert(parts.len() == 1);
                assert(t@ =~= kv[j as int]);
            }
        }
        j = j + 1;
    }
    t
}

/// The message for a command that ended unsuccessfully: what it was, how it
/// ended, and the tail of its error output.
pub fn failure_message(what: &str, status: &str, log: &str) -> (m: String)
    ensures
        m@ == what@ + " failed with "@ + status@ + "\n  last output:\n  "@ + failure_tail_text(
            log@,
        ),
{
    let mut m = String::new();
    m.append(what);
    m.append(" failed with ");
    m.append(status);
    m.append("\n  last output:\n  ");
    let tail = failure_tail(log);
    m.append(tail.as_str());
    assert(m@ =~= what@ + " failed with "@ + status@ + "\n  last output:\n  "@ + tail@);
    m
}

} // verus!
