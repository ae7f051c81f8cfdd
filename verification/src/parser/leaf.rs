//! The expressions that stand by themselves.
use crate::ast::{Expr, ExprKind, ExprView, ExprWithLocation};
use crate::parser::block::{block_expr, block_expr_spec};
use crate::parser::conditional::{conditional, conditional_spec};
use crate::parser::expr::{expr, expr_spec, identifier, identifier_spec};
use crate::parser::func::{func_definition, func_definition_spec};
use crate::parser::spaces::{ml_space0, ml_space1, skip_blank};
use crate::parser::value::{config_value, config_value_spec};
use crate::parser::{has_word, in_range, place_in, seen, soft, soft_at, tag, within, Parsed,
    ParsedView, Trouble};
use crate::source::{Source, SourceView};
use crate::text::text_between;
use std::sync::Arc;
use vstd::prelude::*;

verus! {

/// An expression of the given kind at the given place.
pub open spec fn expr_at(src: SourceView, at: int, kind: ExprKind) -> ExprView {
    ExprView { inner: Box::new(kind), location: place_in(src, at) }
}

/// What an expression that stands by itself is: an import, a conditional,
/// a literal, an identifier, a function, an expression in round brackets,
/// or a block: the first of these that the text is.
#[verifier::opaque]
pub open spec fn expr_leaf_spec(src: SourceView, pos: int, end: int, depth: nat) -> ParsedView<
    ExprView,
>
    decreases depth, 130nat, 0nat,
{
    match import_spec(src, pos, end) {
        Ok(found) => Ok(found),
        Err(_) => match conditional_spec(src, pos, end, depth) {
            Ok((x, p)) => Ok((expr_at(src, pos, ExprKind::Conditional(x)), p)),
            Err(s1) => if s1.trouble != Trouble::Soft {
                Err(s1)
            } else {
                match config_value_spec(src, pos, end, depth) {
                    Ok((x, p)) => Ok((expr_at(src, pos, ExprKind::Value(x)), p)),
                    Err(s2) => if s2.trouble != Trouble::Soft {
                        Err(s2)
                    } else {
                        match identifier_spec(src, pos, end) {
                            Ok((x, p)) => Ok((expr_at(src, pos, ExprKind::Identifier(x)), p)),
                            Err(_) => match func_definition_spec(src, pos, end, depth) {
                                Ok((x, p)) => Ok(
                                    (expr_at(src, pos, ExprKind::FuncDefinition(x)), p),
                                ),
                                Err(s3) => if s3.trouble != Trouble::Soft {
                                    Err(s3)
                                } else {
                                    match bracketed_spec(src, pos, end, depth) {
                                        Ok(found) => Ok(found),
                                        Err(s4) => if s4.trouble != Trouble::Soft {
                                            Err(s4)
                                        } else {
                                            match block_expr_spec(src, pos, end, depth) {
                                                Ok((x, p)) => Ok(
                                                    (expr_at(src, pos, ExprKind::Block(x)), p),
                                                ),
                                                Err(s5) => Err(s5),
                                            }
                                        },
                                    }
                                },
                            },
                        }
                    },
                }
            },
        },
    }
}

pub fn expr_leaf(src: &Source, pos: usize, end: usize, depth: usize) -> (r: Parsed<
    ExprWithLocation,
>)
    requires
        in_range(src, pos, end),
    ensures
        within(r, pos, end),
        seen(r) == expr_leaf_spec(src.view(), pos as int, end as int, depth as nat),
    decreases depth, 130nat,
{
    reveal_with_fuel(bracketed_spec, 1);
    reveal_with_fuel(expr_leaf_spec, 1);
    match import(src, pos, end) {
        Ok(found) => {
            return Ok(found);
        },
        Err(_) => {},
    }
    match conditional(src, pos, end, depth) {
        Ok((x, p)) => {
            let inner = Expr::Conditional(Box::new(x));
            assert(inner@ == ExprKind::Conditional(x@));
            return Ok((inner.with_location(src.locate(pos)), p));
        },
        Err(stop) => match stop.trouble {
            Trouble::Soft => {},
            _ => {
                return Err(stop);
            },
        },
    }
    match config_value(src, pos, end, depth) {
        Ok((x, p)) => {
            let inner = Expr::Value(x);
            assert(inner@ == ExprKind::Value(x@));
            return Ok((inner.with_location(src.locate(pos)), p));
        },
        Err(stop) => match stop.trouble {
            Trouble::Soft => {},
            _ => {
                return Err(stop);
            },
        },
    }
    match identifier(src, pos, end) {
        Ok((x, p)) => {
            let inner = Expr::Identifier(x);
            assert(inner@ == ExprKind::Identifier(x@));
            return Ok((inner.with_location(src.locate(pos)), p));
        },
        Err(_) => {},
    }
    match func_definition(src, pos, end, depth) {
        Ok((x, p)) => {
            let inner = Expr::FuncDefinition(Arc::new(x));
            assert(inner@ == ExprKind::FuncDefinition(x@));
            return Ok((inner.with_location(src.locate(pos)), p));
        },
        Err(stop) => match stop.trouble {
            Trouble::Soft => {},
            _ => {
                return Err(stop);
            },
        },
    }
    match bracketed(src, pos, end, depth) {
        Ok(found) => {
            return Ok(found);
        },
        Err(stop) => match stop.trouble {
            Trouble::Soft => {},
            _ => {
                return Err(stop);
            },
        },
    }
    match block_expr(src, pos, end, depth) {
        Ok((x, p)) => {
            let inner = Expr::Block(x);
            assert(inner@ == ExprKind::Block(x@));
            Ok((inner.with_location(src.locate(pos)), p))
        },
        Err(stop) => Err(stop),
    }
}

/// An expression in round brackets.
#[verifier::opaque]
pub open spec fn bracketed_spec(src: SourceView, pos: int, end: int, depth: nat) -> ParsedView<
    ExprView,
>
    decreases depth, 120nat, 0nat,
{
    if !has_word(src.text, pos, end, "("@) {
        Err(soft_at(pos))
    } else {
        match expr_spec(src, skip_blank(src.text, pos + "("@.len(), end), end, depth) {
            Err(stop) => Err(stop),
            Ok((inner, p)) => {
                let close = skip_blank(src.text, p, end);
                if has_word(src.text, close, end, ")"@) {
                    Ok((inner, close + ")"@.len()))
                } else {
                    Err(soft_at(close))
                }
            },
        }
    }
}

fn bracketed(src: &Source, pos: usize, end: usize, depth: usize) -> (r: Parsed<ExprWithLocation>)
    requires
        in_range(src, pos, end),
    ensures
        within(r, pos, end),
        seen(r) == bracketed_spec(src.view(), pos as int, end as int, depth as nat),
    decreases depth, 120nat,
{
    reveal_with_fuel(bracketed_spec, 1);
    let open = match tag(src, pos, end, "(") {
        Some(p) => p,
        None => {
            return Err(soft(pos));
        },
    };
    let (inner, p) = match expr(src, ml_space0(src, open, end), end, depth) {
        Ok(found) => found,
        Err(stop) => {
            return Err(stop);
        },
    };
    let close = ml_space0(src, p, end);
    match tag(src, close, end, ")") {
        Some(q) => Ok((inner, q)),
        None => Err(soft(close)),
    }
}

/// The first index at or after `from` and before `end` that holds a
/// double quote; `end` if there is none.
pub open spec fn quote_at(s: Seq<char>, from: int, end: int) -> int
    decreases end - from,
{
    if 0 <= from < end <= s.len() && s[from] != '"' {
        quote_at(s, from + 1, end)
    } else {
        from
    }
}

/// `import`, white space, and a path in double quotes. The path is not
/// empty.
pub open spec fn import_spec(src: SourceView, pos: int, end: int) -> ParsedView<ExprView> {
    if !has_word(src.text, pos, end, "import"@) {
        Err(soft_at(pos))
    } else {
        let word = pos + "import"@.len();
        let space = skip_blank(src.text, word, end);
        if space <= word {
            Err(soft_at(word))
        } else if !has_word(src.text, space, end, "\""@) {
            Err(soft_at(space))
        } else {
            let start = space + "\""@.len();
            let p = quote_at(src.text, start, end);
            if p == start || p >= end {
                Err(soft_at(p))
            } else {
                Ok((expr_at(src, pos, ExprKind::Import(src.text.subrange(start, p))), p + 1))
            }
        }
    }
}

fn import(src: &Source, pos: usize, end: usize) -> (r: Parsed<ExprWithLocation>)
    requires
        in_range(src, pos, end),
    ensures
        within(r, pos, end),
        seen(r) == import_spec(src.view(), pos as int, end as int),
        r matches Err(stop) ==> stop.trouble == Trouble::Soft,
{
    let word = match tag(src, pos, end, "import") {
        Some(p) => p,
        None => {
            return Err(soft(pos));
        },
    };
    let space = match ml_space1(src, word, end) {
        Some(p) => p,
        None => {
            return Err(soft(word));
        },
    };
    let start = match tag(src, space, end, "\"") {
        Some(p) => p,
        None => {
            return Err(soft(space));
        },
    };
    let chars = src.chars();
    let mut p: usize = start;
    while p < end && chars[p] != '"'
        invariant
            start <= p <= end <= chars.len(),
            quote_at(chars@, start as int, end as int) == quote_at(chars@, p as int, end as int),
        decreases end - p,
    {
        p = p + 1;
    }
    if p == start || p >= end {
        return Err(soft(p));
    }
    let path = text_between(chars, start, p);
    let inner = Expr::Import(path);
    assert(inner@ == ExprKind::Import(path@));
    Ok((inner.with_location(src.locate(pos)), p + 1))
}

} // verus!
