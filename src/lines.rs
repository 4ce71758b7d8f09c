//! Splitting of multi-line payloads into the lines that are sent one by one.

use vstd::prelude::*;
use vstd::std_specs::iter::IteratorSpec;
use vstd::string::StrSliceExecFns;

verus! {

/// The index just past the last `'\n'` of `s`, or 0 when `s` holds none.
pub open spec fn tail_start(s: Seq<char>) -> int
    decreases s.len(),
{
    if s.len() == 0 {
        0
    } else if s.last() == '\n' {
        s.len() as int
    } else {
        tail_start(s.drop_last())
    }
}

/// `l` without one `'\r'` at its end.
pub open spec fn strip_cr(l: Seq<char>) -> Seq<char> {
    if l.len() > 0 && l.last() == '\r' {
        l.drop_last()
    } else {
        l
    }
}

/// The lines of `s` that a `'\n'` ends, each without that `'\n'` and without
/// one `'\r'` just before it.
pub open spec fn ended_lines(s: Seq<char>) -> Seq<Seq<char>>
    decreases s.len(),
{
    if s.len() == 0 {
        seq![]
    } else if s.last() == '\n' {
        let body = s.drop_last();
        ended_lines(body).push(strip_cr(body.subrange(tail_start(body), body.len() as int)))
    } else {
        ended_lines(s.drop_last())
    }
}

/// The lines of `s`: those that a `'\n'` (or `"\r\n"`) ends, then the text
/// after the last `'\n'` when it is not empty. A final line ending is thus
/// optional, and an empty text has no lines.
pub open spec fn lines_of(s: Seq<char>) -> Seq<Seq<char>> {
    let t = tail_start(s);
    if t < s.len() {
        ended_lines(s).push(s.subrange(t, s.len() as int))
    } else {
        ended_lines(s)
    }
}

/// `s` holds no line ending.
pub open spec fn single_line(s: Seq<char>) -> bool {
    forall|i: int| 0 <= i < s.len() ==> s[i] != '\n'
}

/// The views of a sequence of string slices.
pub open spec fn views_of(v: Seq<&str>) -> Seq<Seq<char>> {
    v.map_values(|l: &str| l@)
}

proof fn lemma_tail_start_bounds(s: Seq<char>)
    ensures
        0 <= tail_start(s) <= s.len(),
        tail_start(s) > 0 ==> s[tail_start(s) - 1] == '\n',
    decreases s.len(),
{
    if s.len() > 0 && s.last() != '\n' {
        lemma_tail_start_bounds(s.drop_last());
    }
}

proof fn lemma_tail_single_line(s: Seq<char>)
    ensures
        forall|j: int| tail_start(s) <= j < s.len() ==> s[j] != '\n',
    decreases s.len(),
{
    if s.len() > 0 && s.last() != '\n' {
        lemma_tail_single_line(s.drop_last());
        lemma_tail_start_bounds(s.drop_last());
        assert forall|j: int| tail_start(s) <= j < s.len() implies s[j] != '\n' by {
            if j < s.len() - 1 {
                assert(s[j] == s.drop_last()[j]);
            }
        }
    }
}

proof fn lemma_ended_lines_single_line(s: Seq<char>)
    ensures
        forall|i: int| 0 <= i < ended_lines(s).len() ==> single_line(#[trigger] ended_lines(s)[i]),
    decreases s.len(),
{
    if s.len() > 0 {
        let body = s.drop_last();
        lemma_ended_lines_single_line(body);
        lemma_tail_single_line(body);
        lemma_tail_start_bounds(body);
        let line = body.subrange(tail_start(body), body.len() as int);
        assert(single_line(line));
        assert(single_line(strip_cr(line)));
        assert forall|i: int| 0 <= i < ended_lines(s).len() implies single_line(#[trigger] ended_lines(s)[i]) by {
            if i < ended_lines(body).len() {
                assert(ended_lines(s)[i] == ended_lines(body)[i]);
            }
        }
    }
}

/// No line of `s` holds a line ending.
pub proof fn lemma_lines_single_line(s: Seq<char>)
    ensures
        forall|i: int| 0 <= i < lines_of(s).len() ==> single_line(#[trigger] lines_of(s)[i]),
{
    lemma_ended_lines_single_line(s);
    lemma_tail_single_line(s);
    lemma_tail_start_bounds(s);
    assert(single_line(s.subrange(tail_start(s), s.len() as int)));
}

/// Splits `s` into its lines, as `str::lines` does.
pub fn split_lines(s: &str) -> (r: Vec<&str>)
    ensures
        views_of(r@) == lines_of(s@),
{
    let len = s.unicode_len();
    let mut r: Vec<&str> = Vec::new();
    let mut start: usize = 0;
    let mut i: usize = 0;
    let mut prev_cr = false;
    for c in it: s.chars()
        invariant
            len == s@.len(),
            it.seq() == s@,
            i == it.index(),
            start as int == tail_start(s@.take(i as int)),
            views_of(r@) == ended_lines(s@.take(i as int)),
            prev_cr == (i > 0 && s@[i - 1] == '\r'),
    {
        let ghost pre = s@.take(i as int);
        let ghost cur = s@.take(i + 1);
        assert(cur.drop_last() =~= pre);
        proof {
            lemma_tail_start_bounds(pre);
        }
        if c == '\n' {
            let end = if prev_cr && start < i {
                i - 1
            } else {
                i
            };
            let line = s.substring_char(start, end);
            assert(line@ =~= strip_cr(pre.subrange(start as int, i as int)));
            r.push(line);
            assert(views_of(r@) =~= views_of(r@.drop_last()).push(line@));
            start = i + 1;
        }
        prev_cr = c == '\r';
        i = i + 1;
    }
    assert(s@.take(len as int) =~= s@);
    proof {
        lemma_tail_start_bounds(s@);
    }
    if start < len {
        let line = s.substring_char(start, len);
        r.push(line);
        assert(views_of(r@) =~= views_of(r@.drop_last()).push(line@));
    }
    r
}

} // verus!
