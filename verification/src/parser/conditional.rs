//! Conditionals.
use crate::ast::{Conditional, ConditionalView};
use crate::parser::expr::{expr, expr_spec};
use crate::parser::spaces::{ml_space1, skip_blank};
use crate::parser::{cut, cut_spec, hard, hard_at, has_word, in_range, seen, soft, soft_at, tag,
    within, Parsed, ParsedView};
use crate::source::{Source, SourceView};
use vstd::prelude::*;

verus! {

/// White space, a word, and white space: the index behind them, or the
/// index at which one of the three is missing.
pub open spec fn keyword_spec(s: Seq<char>, pos: int, end: int, word: Seq<char>) -> Result<
    int,
    int,
> {
    let before = skip_blank(s, pos, end);
    if before <= pos {
        Err(pos)
    } else if !has_word(s, before, end, word) {
        Err(before)
    } else {
        let behind = before + word.len();
        let after = skip_blank(s, behind, end);
        if after <= behind {
            Err(behind)
        } else {
            Ok(after)
        }
    }
}

fn keyword(src: &Source, pos: usize, end: usize, word: &str) -> (r: Result<usize, usize>)
    requires
        in_range(src, pos, end),
    ensures
        match r {
            Ok(p) => pos <= p <= end && keyword_spec(src.text(), pos as int, end as int, word@)
                == Ok::<int, int>(p as int),
            Err(p) => pos <= p <= end && keyword_spec(src.text(), pos as int, end as int, word@)
                == Err::<int, int>(p as int),
        },
{
    let before = match ml_space1(src, pos, end) {
        Some(p) => p,
        None => {
            return Err(pos);
        },
    };
    let behind = match tag(src, before, end, word) {
        Some(p) => p,
        None => {
            return Err(before);
        },
    };
    match ml_space1(src, behind, end) {
        Some(p) => Ok(p),
        None => Err(behind),
    }
}

/// What a conditional is: `if`, a condition, `then`, an expression,
/// `else`, an expression. Once `if` and white space are read, the rest
/// has to follow.
#[verifier::opaque]
pub open spec fn conditional_spec(src: SourceView, pos: int, end: int, depth: nat) -> ParsedView<
    ConditionalView,
>
    decreases depth, 120nat, 0nat,
{
    if !has_word(src.text, pos, end, "if"@) {
        Err(soft_at(pos))
    } else {
        let word = pos + "if"@.len();
        let start = skip_blank(src.text, word, end);
        if start <= word {
            Err(soft_at(word))
        } else {
            match expr_spec(src, start, end, depth) {
                Err(stop) => Err(cut_spec(stop)),
                Ok((condition, after_condition)) => match keyword_spec(src.text, after_condition, end, "then"@) {
                    Err(p) => Err(hard_at(p)),
                    Ok(then_start) => match expr_spec(src, then_start, end, depth) {
                        Err(stop) => Err(cut_spec(stop)),
                        Ok((then_branch, after_then)) => match keyword_spec(src.text, after_then, end, "else"@) {
                            Err(p) => Err(hard_at(p)),
                            Ok(else_start) => match expr_spec(src, else_start, end, depth) {
                                Err(stop) => Err(cut_spec(stop)),
                                Ok((else_branch, after_else)) => Ok(
                                    (ConditionalView { condition, then_branch, else_branch }, after_else),
                                ),
                            },
                        },
                    },
                },
            }
        }
    }
}

pub fn conditional(src: &Source, pos: usize, end: usize, depth: usize) -> (r: Parsed<Conditional>)
    requires
        in_range(src, pos, end),
    ensures
        within(r, pos, end),
        seen(r) == conditional_spec(src.view(), pos as int, end as int, depth as nat),
    decreases depth, 120nat,
{
    reveal_with_fuel(conditional_spec, 1);
    let word = match tag(src, pos, end, "if") {
        Some(p) => p,
        None => {
            return Err(soft(pos));
        },
    };
    let start = match ml_space1(src, word, end) {
        Some(p) => p,
        None => {
            return Err(soft(word));
        },
    };
    let (condition, after_condition) = match expr(src, start, end, depth) {
        Ok(found) => found,
        Err(stop) => {
            return Err(cut(stop));
        },
    };
    let then_start = match keyword(src, after_condition, end, "then") {
        Ok(p) => p,
        Err(p) => {
            return Err(hard(p));
        },
    };
    let (then_branch, after_then) = match expr(src, then_start, end, depth) {
        Ok(found) => found,
        Err(stop) => {
            return Err(cut(stop));
        },
    };
    let else_start = match keyword(src, after_then, end, "else") {
        Ok(p) => p,
        Err(p) => {
            return Err(hard(p));
        },
    };
    let (else_branch, after_else) = match expr(src, else_start, end, depth) {
        Ok(found) => found,
        Err(stop) => {
            return Err(cut(stop));
        },
    };
    Ok((Conditional { condition, then_branch, else_branch }, after_else))
}

} // verus!
