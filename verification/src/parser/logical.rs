//! `and`, `or` and `not`.
use crate::ast::{Expr, ExprKind, ExprView, ExprWithLocation, Logical, LogicalView};
use crate::parser::comparison::{expr_comparison, expr_comparison_spec};
use crate::parser::spaces::{ml_space0, ml_space1, skip_blank};
use crate::parser::{hard, hard_at, has_word, in_range, place_in, seen, soft, soft_at, tag,
    within, Parsed, ParsedView, Trouble};
use crate::source::{Source, SourceView};
use vstd::prelude::*;

verus! {

/// A logical expression at the place of its operator.
pub open spec fn logical_at(src: SourceView, at: int, logical: LogicalView) -> ExprView {
    ExprView { inner: Box::new(ExprKind::Logical(logical)), location: place_in(src, at) }
}

fn logical_expr(src: &Source, at: usize, logical: Logical) -> (r: ExprWithLocation)
    requires
        at <= src.text().len(),
    ensures
        r@ == logical_at(src.view(), at as int, logical@),
{
    let inner = Expr::Logical(Box::new(logical));
    assert(inner@ == ExprKind::Logical(logical@));
    inner.with_location(src.locate(at))
}

/// What a logical expression is: a negation, or else comparisons joined
/// by `and` and `or`.
#[verifier::opaque]
pub open spec fn expr_logical_spec(src: SourceView, pos: int, end: int, depth: nat) -> ParsedView<
    ExprView,
>
    decreases depth, 200nat, 0nat,
{
    match negation_spec(src, pos, end, depth) {
        Ok(found) => Ok(found),
        Err(stop) => if stop.trouble == Trouble::Soft {
            binary_spec(src, pos, end, depth)
        } else {
            Err(stop)
        },
    }
}

pub fn expr_logical(src: &Source, pos: usize, end: usize, depth: usize) -> (r: Parsed<
    ExprWithLocation,
>)
    requires
        in_range(src, pos, end),
    ensures
        within(r, pos, end),
        seen(r) == expr_logical_spec(src.view(), pos as int, end as int, depth as nat),
    decreases depth, 200nat,
{
    reveal_with_fuel(binary_spec, 1);
    reveal_with_fuel(negation_spec, 1);
    reveal_with_fuel(expr_logical_spec, 1);
    match negation(src, pos, end, depth) {
        Ok(found) => Ok(found),
        Err(stop) => match stop.trouble {
            Trouble::Soft => binary(src, pos, end, depth),
            _ => Err(stop),
        },
    }
}

/// A comparison, and behind `and` or `or` another logical expression. The
/// operator and what follows it belong to the expression only where what
/// follows is a logical expression.
#[verifier::opaque]
pub open spec fn binary_spec(src: SourceView, pos: int, end: int, depth: nat) -> ParsedView<
    ExprView,
>
    decreases depth, 190nat, 0nat,
{
    match expr_comparison_spec(src, pos, end, depth) {
        Err(stop) => Err(stop),
        Ok((expr1, p)) => {
            let at = skip_blank(src.text, p, end);
            let is_and = has_word(src.text, at, end, "and"@);
            let is_or = has_word(src.text, at, end, "or"@);
            if !is_and && !is_or {
                Ok((expr1, p))
            } else {
                let behind = if is_and {
                    at + "and"@.len()
                } else {
                    at + "or"@.len()
                };
                let start = skip_blank(src.text, behind, end);
                if depth == 0 {
                    Err(hard_at(start))
                } else {
                    match expr_logical_spec(src, start, end, (depth - 1) as nat) {
                        Ok((expr2, q)) => Ok(
                            (
                                logical_at(
                                    src,
                                    at,
                                    if is_and {
                                        LogicalView::And(expr1, expr2)
                                    } else {
                                        LogicalView::Or(expr1, expr2)
                                    },
                                ),
                                q,
                            ),
                        ),
                        Err(stop) => if stop.trouble == Trouble::Soft {
                            Ok((expr1, p))
                        } else {
                            Err(stop)
                        },
                    }
                }
            }
        },
    }
}

fn binary(src: &Source, pos: usize, end: usize, depth: usize) -> (r: Parsed<ExprWithLocation>)
    requires
        in_range(src, pos, end),
    ensures
        within(r, pos, end),
        seen(r) == binary_spec(src.view(), pos as int, end as int, depth as nat),
    decreases depth, 190nat,
{
    reveal_with_fuel(expr_logical_spec, 1);
    reveal_with_fuel(binary_spec, 1);
    let (expr1, p) = match expr_comparison(src, pos, end, depth) {
        Ok(found) => found,
        Err(stop) => {
            return Err(stop);
        },
    };
    let at = ml_space0(src, p, end);
    let (is_and, behind) = match tag(src, at, end, "and") {
        Some(q) => (true, q),
        None => match tag(src, at, end, "or") {
            Some(q) => (false, q),
            None => {
                return Ok((expr1, p));
            },
        },
    };
    let start = ml_space0(src, behind, end);
    if depth == 0 {
        return Err(hard(start));
    }
    match expr_logical(src, start, end, depth - 1) {
        Ok((expr2, q)) => {
            let joined = if is_and {
                Logical::And(expr1, expr2)
            } else {
                Logical::Or(expr1, expr2)
            };
            Ok((logical_expr(src, at, joined), q))
        },
        Err(stop) => match stop.trouble {
            Trouble::Soft => Ok((expr1, p)),
            _ => Err(stop),
        },
    }
}

/// `not`, white space, and a comparison.
#[verifier::opaque]
pub open spec fn negation_spec(src: SourceView, pos: int, end: int, depth: nat) -> ParsedView<
    ExprView,
>
    decreases depth, 190nat, 0nat,
{
    if !has_word(src.text, pos, end, "not"@) {
        Err(soft_at(pos))
    } else {
        let behind = pos + "not"@.len();
        let start = skip_blank(src.text, behind, end);
        if start <= behind {
            Err(soft_at(behind))
        } else {
            match expr_comparison_spec(src, start, end, depth) {
                Ok((ex, q)) => Ok((logical_at(src, pos, LogicalView::Not(ex)), q)),
                Err(stop) => Err(stop),
            }
        }
    }
}

fn negation(src: &Source, pos: usize, end: usize, depth: usize) -> (r: Parsed<ExprWithLocation>)
    requires
        in_range(src, pos, end),
    ensures
        within(r, pos, end),
        seen(r) == negation_spec(src.view(), pos as int, end as int, depth as nat),
    decreases depth, 190nat,
{
    reveal_with_fuel(negation_spec, 1);
    let behind = match tag(src, pos, end, "not") {
        Some(q) => q,
        None => {
            return Err(soft(pos));
        },
    };
    let start = match ml_space1(src, behind, end) {
        Some(q) => q,
        None => {
            return Err(soft(behind));
        },
    };
    match expr_comparison(src, start, end, depth) {
        Ok((ex, q)) => Ok((logical_expr(src, pos, Logical::Not(ex)), q)),
        Err(stop) => Err(stop),
    }
}

} // verus!
