//! Expressions and identifiers.
use crate::ast::{ExprView, ExprWithLocation};
use crate::parser::logical::{expr_logical, expr_logical_spec};
use crate::parser::{hard, hard_at, in_range, seen, soft, soft_at, within, Parsed, ParsedView};
use crate::source::{Source, SourceView};
use crate::text::text_between;
use vstd::prelude::*;

verus! {

/// The characters that an identifier can start with.
pub open spec fn is_letter(c: char) -> bool {
    ('a' as int <= c as int <= 'z' as int) || ('A' as int <= c as int <= 'Z' as int) || c == '_'
}

/// The characters that an identifier can go on with.
pub open spec fn is_word(c: char) -> bool {
    is_letter(c) || ('0' as int <= c as int <= '9' as int)
}

pub fn letter(c: char) -> (r: bool)
    ensures
        r == is_letter(c),
{
    let n: u32 = crate::text::code_point(c);
    (0x61 <= n && n <= 0x7a) || (0x41 <= n && n <= 0x5a) || n == 0x5f
}

pub fn word(c: char) -> (r: bool)
    ensures
        r == is_word(c),
{
    let n: u32 = crate::text::code_point(c);
    (0x61 <= n && n <= 0x7a) || (0x41 <= n && n <= 0x5a) || n == 0x5f || (0x30 <= n && n <= 0x39)
}

/// The first index at or after `from` and before `end` that cannot go on
/// an identifier; `end` if there is none.
pub open spec fn word_end(s: Seq<char>, from: int, end: int) -> int
    decreases end - from,
{
    if 0 <= from < end <= s.len() && is_word(s[from]) {
        word_end(s, from + 1, end)
    } else {
        from
    }
}

/// What an expression is: a logical expression, one level deeper.
#[verifier::opaque]
pub open spec fn expr_spec(src: SourceView, pos: int, end: int, depth: nat) -> ParsedView<
    ExprView,
>
    decreases depth, 0nat, 0nat,
{
    if depth == 0 {
        Err(hard_at(pos))
    } else {
        expr_logical_spec(src, pos, end, (depth - 1) as nat)
    }
}

/// An expression. `depth` says how far expressions may nest.
pub fn expr(src: &Source, pos: usize, end: usize, depth: usize) -> (r: Parsed<ExprWithLocation>)
    requires
        in_range(src, pos, end),
    ensures
        within(r, pos, end),
        seen(r) == expr_spec(src.view(), pos as int, end as int, depth as nat),
    decreases depth, 0nat,
{
    reveal_with_fuel(expr_spec, 1);
    if depth == 0 {
        return Err(hard(pos));
    }
    expr_logical(src, pos, end, depth - 1)
}

/// What an identifier is: a letter or an underscore, and then letters,
/// digits and underscores as far as they go.
pub open spec fn identifier_spec(src: SourceView, pos: int, end: int) -> ParsedView<Seq<char>> {
    if 0 <= pos < end <= src.text.len() && is_letter(src.text[pos]) {
        Ok((src.text.subrange(pos, word_end(src.text, pos, end)), word_end(src.text, pos, end)))
    } else {
        Err(soft_at(pos))
    }
}

pub fn identifier(src: &Source, pos: usize, end: usize) -> (r: Parsed<String>)
    requires
        in_range(src, pos, end),
    ensures
        within(r, pos, end),
        seen(r) == identifier_spec(src.view(), pos as int, end as int),
        r matches Ok((_, p)) ==> pos < p,
{
    let chars = src.chars();
    if pos >= end || !letter(chars[pos]) {
        return Err(soft(pos));
    }
    let mut p: usize = pos;
    while p < end && word(chars[p])
        invariant
            pos <= p <= end <= chars.len(),
            word_end(chars@, pos as int, end as int) == word_end(chars@, p as int, end as int),
        decreases end - p,
    {
        p = p + 1;
    }
    Ok((text_between(chars, pos, p), p))
}

} // verus!
