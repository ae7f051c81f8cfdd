//! Sums and products.
use crate::ast::{BinaryOperator, BinaryOperatorExpr, BinaryOperatorView, Expr, ExprKind,
    ExprView, ExprWithLocation};
use crate::parser::spaces::{ml_space0, skip_blank};
use crate::parser::suffix_operators::{expr_suffix, expr_suffix_spec};
use crate::parser::{cut, cut_spec, hard, hard_at, has_word, in_range, place_in, seen, tag,
    within, Parsed, ParsedView};
use crate::source::{Source, SourceView};
use vstd::prelude::*;

verus! {

/// An operation on two expressions, at the place of its operator.
pub open spec fn operation_at(
    src: SourceView,
    at: int,
    expr1: ExprView,
    expr2: ExprView,
    op: BinaryOperator,
) -> ExprView {
    ExprView {
        inner: Box::new(ExprKind::BinaryOperator(BinaryOperatorView { expr1, expr2, op })),
        location: place_in(src, at),
    }
}

/// What a sum is: a product, and behind `+` or `-` another sum. Once the
/// operator is read, what follows has to be a sum.
#[verifier::opaque]
pub open spec fn expr_sum_spec(src: SourceView, pos: int, end: int, depth: nat) -> ParsedView<
    ExprView,
>
    decreases depth, 170nat, 0nat,
{
    match expr_prod_spec(src, pos, end, depth) {
        Err(stop) => Err(stop),
        Ok((expr1, p)) => {
            let at = skip_blank(src.text, p, end);
            let plus = has_word(src.text, at, end, "+"@);
            let minus = has_word(src.text, at, end, "-"@);
            if !plus && !minus {
                Ok((expr1, p))
            } else {
                let behind = if plus {
                    at + "+"@.len()
                } else {
                    at + "-"@.len()
                };
                let start = skip_blank(src.text, behind, end);
                if depth == 0 {
                    Err(hard_at(start))
                } else {
                    match expr_sum_spec(src, start, end, (depth - 1) as nat) {
                        Ok((expr2, q)) => Ok(
                            (
                                operation_at(
                                    src,
                                    at,
                                    expr1,
                                    expr2,
                                    if plus {
                                        BinaryOperator::Add
                                    } else {
                                        BinaryOperator::Sub
                                    },
                                ),
                                q,
                            ),
                        ),
                        Err(stop) => Err(cut_spec(stop)),
                    }
                }
            }
        },
    }
}

pub fn expr_sum(src: &Source, pos: usize, end: usize, depth: usize) -> (r: Parsed<
    ExprWithLocation,
>)
    requires
        in_range(src, pos, end),
    ensures
        within(r, pos, end),
        seen(r) == expr_sum_spec(src.view(), pos as int, end as int, depth as nat),
    decreases depth, 170nat,
{
    reveal_with_fuel(expr_sum_spec, 1);
    reveal_with_fuel(expr_prod_spec, 1);
    let (expr1, p) = match expr_prod(src, pos, end, depth) {
        Ok(found) => found,
        Err(stop) => {
            return Err(stop);
        },
    };
    let at = ml_space0(src, p, end);
    let (op, behind) = match tag(src, at, end, "+") {
        Some(q) => (BinaryOperator::Add, q),
        None => match tag(src, at, end, "-") {
            Some(q) => (BinaryOperator::Sub, q),
            None => {
                return Ok((expr1, p));
            },
        },
    };
    let start = ml_space0(src, behind, end);
    if depth == 0 {
        return Err(hard(start));
    }
    match expr_sum(src, start, end, depth - 1) {
        Ok((expr2, q)) => Ok((map_binary_operator(src, at, expr1, expr2, op), q)),
        Err(stop) => Err(cut(stop)),
    }
}

/// What a product is: an expression with its suffixes, and behind `*` or
/// `/` another product. Once the operator is read, what follows has to be
/// a product.
#[verifier::opaque]
pub open spec fn expr_prod_spec(src: SourceView, pos: int, end: int, depth: nat) -> ParsedView<
    ExprView,
>
    decreases depth, 160nat, 0nat,
{
    match expr_suffix_spec(src, pos, end, depth) {
        Err(stop) => Err(stop),
        Ok((expr1, p)) => {
            let at = skip_blank(src.text, p, end);
            let times = has_word(src.text, at, end, "*"@);
            let over = has_word(src.text, at, end, "/"@);
            if !times && !over {
                Ok((expr1, p))
            } else {
                let behind = if times {
                    at + "*"@.len()
                } else {
                    at + "/"@.len()
                };
                let start = skip_blank(src.text, behind, end);
                if depth == 0 {
                    Err(hard_at(start))
                } else {
                    match expr_prod_spec(src, start, end, (depth - 1) as nat) {
                        Ok((expr2, q)) => Ok(
                            (
                                operation_at(
                                    src,
                                    at,
                                    expr1,
                                    expr2,
                                    if times {
                                        BinaryOperator::Mul
                                    } else {
                                        BinaryOperator::Div
                                    },
                                ),
                                q,
                            ),
                        ),
                        Err(stop) => Err(cut_spec(stop)),
                    }
                }
            }
        },
    }
}

pub fn expr_prod(src: &Source, pos: usize, end: usize, depth: usize) -> (r: Parsed<
    ExprWithLocation,
>)
    requires
        in_range(src, pos, end),
    ensures
        within(r, pos, end),
        seen(r) == expr_prod_spec(src.view(), pos as int, end as int, depth as nat),
    decreases depth, 160nat,
{
    reveal_with_fuel(expr_prod_spec, 1);
    let (expr1, p) = match expr_suffix(src, pos, end, depth) {
        Ok(found) => found,
        Err(stop) => {
            return Err(stop);
        },
    };
    let at = ml_space0(src, p, end);
    let (op, behind) = match tag(src, at, end, "*") {
        Some(q) => (BinaryOperator::Mul, q),
        None => match tag(src, at, end, "/") {
            Some(q) => (BinaryOperator::Div, q),
            None => {
                return Ok((expr1, p));
            },
        },
    };
    let start = ml_space0(src, behind, end);
    if depth == 0 {
        return Err(hard(start));
    }
    match expr_prod(src, start, end, depth - 1) {
        Ok((expr2, q)) => Ok((map_binary_operator(src, at, expr1, expr2, op), q)),
        Err(stop) => Err(cut(stop)),
    }
}

/// The operation on two expressions, standing where its operator stands.
fn map_binary_operator(
    src: &Source,
    at: usize,
    expr1: ExprWithLocation,
    expr2: ExprWithLocation,
    op: BinaryOperator,
) -> (r: ExprWithLocation)
    requires
        at <= src.text().len(),
    ensures
        r@ == operation_at(src.view(), at as int, expr1@, expr2@, op),
{
    let operation = BinaryOperatorExpr { expr1, expr2, op };
    let inner = Expr::BinaryOperator(Box::new(operation));
    assert(inner@ == ExprKind::BinaryOperator(operation@));
    inner.with_location(src.locate(at))
}

} // verus!
