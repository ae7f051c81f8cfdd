//! White space and comments.
use crate::parser::{in_range, tag};
use crate::source::Source;
use vstd::prelude::*;

verus! {

/// The characters that count as white space between the words of a
/// program.
pub open spec fn is_gap(c: char) -> bool {
    c == ' ' || c == '\t' || c == '\r' || c == '\n'
}

pub fn is_space_or_newline(c: char) -> (r: bool)
    ensures
        r == is_gap(c),
{
    c == ' ' || c == '\t' || c == '\r' || c == '\n'
}

/// The first index at or after `from` and before `end` that holds no
/// white space; `end` if there is none.
pub open spec fn skip_gap(s: Seq<char>, from: int, end: int) -> int
    decreases end - from,
{
    if 0 <= from < end <= s.len() && is_gap(s[from]) {
        skip_gap(s, from + 1, end)
    } else {
        from
    }
}

/// The index behind the line feed that ends the line of `from`; `end` if
/// the line does not end before it.
pub open spec fn skip_line(s: Seq<char>, from: int, end: int) -> int
    decreases end - from,
{
    if 0 <= from < end <= s.len() {
        if s[from] == '\n' {
            from + 1
        } else {
            skip_line(s, from + 1, end)
        }
    } else {
        from
    }
}

/// The index behind the white space and the comments that start at
/// `from`. A comment starts with two slashes and ends with its line.
pub open spec fn skip_blank(s: Seq<char>, from: int, end: int) -> int
    decreases end - from,
{
    let p = skip_gap(s, from, end);
    if from <= p && p + 2 <= end <= s.len() && s[p] == '/' && s[p + 1] == '/' {
        let q = skip_line(s, p + 2, end);
        if p + 2 <= q <= end {
            skip_blank(s, q, end)
        } else {
            p
        }
    } else {
        p
    }
}

pub proof fn lemma_skip_gap(s: Seq<char>, from: int, end: int)
    requires
        0 <= from <= end <= s.len(),
    ensures
        from <= skip_gap(s, from, end) <= end,
    decreases end - from,
{
    if from < end && is_gap(s[from]) {
        lemma_skip_gap(s, from + 1, end);
    }
}

pub proof fn lemma_skip_line(s: Seq<char>, from: int, end: int)
    requires
        0 <= from <= end <= s.len(),
    ensures
        from <= skip_line(s, from, end) <= end,
    decreases end - from,
{
    if from < end && s[from] != '\n' {
        lemma_skip_line(s, from + 1, end);
    }
}

pub proof fn lemma_skip_blank(s: Seq<char>, from: int, end: int)
    requires
        0 <= from <= end <= s.len(),
    ensures
        from <= skip_blank(s, from, end) <= end,
    decreases end - from,
{
    lemma_skip_gap(s, from, end);
    let p = skip_gap(s, from, end);
    if p + 2 <= end && s[p] == '/' && s[p + 1] == '/' {
        lemma_skip_line(s, p + 2, end);
        let q = skip_line(s, p + 2, end);
        lemma_skip_blank(s, q, end);
    }
}

/// Skips white space and comments. Returns the index behind them.
pub fn ml_space0(src: &Source, pos: usize, end: usize) -> (r: usize)
    requires
        in_range(src, pos, end),
    ensures
        r == skip_blank(src.text(), pos as int, end as int),
        pos <= r <= end,
{
    let chars = src.chars();
    let mut at: usize = pos;
    proof {
        lemma_skip_blank(src.text(), pos as int, end as int);
    }
    loop
        invariant
            pos <= at <= end <= chars.len(),
            chars@ == src.text(),
            skip_blank(src.text(), pos as int, end as int) == skip_blank(
                src.text(),
                at as int,
                end as int,
            ),
        decreases end - at,
    {
        let mut p: usize = at;
        while p < end && is_space_or_newline(chars[p])
            invariant
                at <= p <= end <= chars.len(),
                skip_gap(chars@, at as int, end as int) == skip_gap(chars@, p as int, end as int),
            decreases end - p,
        {
            p = p + 1;
        }
        if end - p >= 2 && chars[p] == '/' && chars[p + 1] == '/' {
            let mut q: usize = p + 2;
            while q < end && chars[q] != '\n'
                invariant
                    p + 2 <= q <= end <= chars.len(),
                    skip_line(chars@, p + 2, end as int) == skip_line(
                        chars@,
                        q as int,
                        end as int,
                    ),
                decreases end - q,
            {
                q = q + 1;
            }
            if q < end {
                q = q + 1;
            }
            at = q;
        } else {
            return p;
        }
    }
}

/// Skips white space and comments, of which there has to be some.
pub fn ml_space1(src: &Source, pos: usize, end: usize) -> (r: Option<usize>)
    requires
        in_range(src, pos, end),
    ensures
        match r {
            Some(p) => p == skip_blank(src.text(), pos as int, end as int) && pos < p <= end,
            None => skip_blank(src.text(), pos as int, end as int) == pos,
        },
{
    let p = ml_space0(src, pos, end);
    if p > pos {
        Some(p)
    } else {
        None
    }
}

} // verus!
