//! Comparisons.
use crate::ast::{Comparison, ComparisonOperator, ComparisonView, Expr, ExprKind, ExprView,
    ExprWithLocation};
use crate::parser::binary_operators::{expr_sum, expr_sum_spec};
use crate::parser::spaces::{ml_space0, skip_blank};
use crate::parser::{hard, hard_at, has_word, in_range, place_in, seen, tag, within, Parsed,
    ParsedView, Trouble};
use crate::source::{Source, SourceView};
use vstd::prelude::*;

verus! {

/// The comparison operator at `pos` and the index behind it: of two
/// operators that start alike the longer one.
pub open spec fn operator_spec(s: Seq<char>, pos: int, end: int) -> Option<
    (ComparisonOperator, int),
> {
    if has_word(s, pos, end, "=="@) {
        Some((ComparisonOperator::Equal, pos + "=="@.len()))
    } else if has_word(s, pos, end, "!="@) {
        Some((ComparisonOperator::NotEqual, pos + "!="@.len()))
    } else if has_word(s, pos, end, ">="@) {
        Some((ComparisonOperator::GreaterOrEqual, pos + ">="@.len()))
    } else if has_word(s, pos, end, "<="@) {
        Some((ComparisonOperator::LessOrEqual, pos + "<="@.len()))
    } else if has_word(s, pos, end, ">"@) {
        Some((ComparisonOperator::Greater, pos + ">"@.len()))
    } else if has_word(s, pos, end, "<"@) {
        Some((ComparisonOperator::Less, pos + "<"@.len()))
    } else {
        None
    }
}

pub fn operator(src: &Source, pos: usize, end: usize) -> (r: Option<(ComparisonOperator, usize)>)
    requires
        in_range(src, pos, end),
    ensures
        r matches Some((_, p)) ==> pos <= p <= end,
        match r {
            Some((op, p)) => operator_spec(src.text(), pos as int, end as int) == Some(
                (op, p as int),
            ),
            None => operator_spec(src.text(), pos as int, end as int) is None,
        },
{
    if let Some(p) = tag(src, pos, end, "==") {
        Some((ComparisonOperator::Equal, p))
    } else if let Some(p) = tag(src, pos, end, "!=") {
        Some((ComparisonOperator::NotEqual, p))
    } else if let Some(p) = tag(src, pos, end, ">=") {
        Some((ComparisonOperator::GreaterOrEqual, p))
    } else if let Some(p) = tag(src, pos, end, "<=") {
        Some((ComparisonOperator::LessOrEqual, p))
    } else if let Some(p) = tag(src, pos, end, ">") {
        Some((ComparisonOperator::Greater, p))
    } else if let Some(p) = tag(src, pos, end, "<") {
        Some((ComparisonOperator::Less, p))
    } else {
        None
    }
}

/// A comparison at the place of its operator.
pub open spec fn comparison_at(src: SourceView, at: int, relation: ComparisonView) -> ExprView {
    ExprView { inner: Box::new(ExprKind::Comparison(relation)), location: place_in(src, at) }
}

/// What a comparison is: a sum, and behind a comparison operator another
/// comparison. The operator and what follows it belong to the expression
/// only where what follows is a comparison.
#[verifier::opaque]
pub open spec fn expr_comparison_spec(src: SourceView, pos: int, end: int, depth: nat)
    -> ParsedView<ExprView>
    decreases depth, 180nat, 0nat,
{
    match expr_sum_spec(src, pos, end, depth) {
        Err(stop) => Err(stop),
        Ok((expr1, p)) => {
            let at = skip_blank(src.text, p, end);
            match operator_spec(src.text, at, end) {
                None => Ok((expr1, p)),
                Some((op, behind)) => {
                    let start = skip_blank(src.text, behind, end);
                    if depth == 0 {
                        Err(hard_at(start))
                    } else {
                        match expr_comparison_spec(src, start, end, (depth - 1) as nat) {
                            Ok((expr2, q)) => Ok(
                                (
                                    comparison_at(
                                        src,
                                        at,
                                        ComparisonView { expr1, expr2, operator: op },
                                    ),
                                    q,
                                ),
                            ),
                            Err(stop) => if stop.trouble == Trouble::Soft {
                                Ok((expr1, p))
                            } else {
                                Err(stop)
                            },
                        }
                    }
                },
            }
        },
    }
}

pub fn expr_comparison(src: &Source, pos: usize, end: usize, depth: usize) -> (r: Parsed<
    ExprWithLocation,
>)
    requires
        in_range(src, pos, end),
    ensures
        within(r, pos, end),
        seen(r) == expr_comparison_spec(src.view(), pos as int, end as int, depth as nat),
    decreases depth, 180nat,
{
    reveal_with_fuel(expr_comparison_spec, 1);
    let (expr1, p) = match expr_sum(src, pos, end, depth) {
        Ok(found) => found,
        Err(stop) => {
            return Err(stop);
        },
    };
    let at = ml_space0(src, p, end);
    let (op, behind) = match operator(src, at, end) {
        Some(found) => found,
        None => {
            return Ok((expr1, p));
        },
    };
    let start = ml_space0(src, behind, end);
    if depth == 0 {
        return Err(hard(start));
    }
    match expr_comparison(src, start, end, depth - 1) {
        Ok((expr2, q)) => {
            let relation = Comparison { expr1, expr2, operator: op };
            let inner = Expr::Comparison(Box::new(relation));
            assert(inner@ == ExprKind::Comparison(relation@));
            Ok((inner.with_location(src.locate(at)), q))
        },
        Err(stop) => match stop.trouble {
            Trouble::Soft => Ok((expr1, p)),
            _ => Err(stop),
        },
    }
}

} // verus!
