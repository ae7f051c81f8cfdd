//! Suffixes: fields, calls and indices.
use crate::ast::{exprs_view, Expr, ExprKind, ExprView, ExprWithLocation, SuffixExpr,
    SuffixOperator, SuffixOperatorView, SuffixView};
use crate::parser::expr::{expr, expr_spec, identifier, identifier_spec};
use crate::parser::leaf::{expr_leaf, expr_leaf_spec};
use crate::parser::spaces::{ml_space0, skip_blank};
use crate::parser::{has_word, in_range, place_in, seen, soft, soft_at, tag, within, Parsed,
    ParsedView, Stop, StopView, Trouble};
use crate::source::{Source, SourceView};
use vstd::prelude::*;

verus! {

/// An expression with a suffix, at the place of the suffix.
pub open spec fn suffix_at(src: SourceView, at: int, base: ExprView, operator: SuffixOperatorView)
    -> ExprView {
    ExprView {
        inner: Box::new(ExprKind::Suffix(SuffixView { base, operator })),
        location: place_in(src, at),
    }
}

/// What an expression with suffixes is: an expression that stands by
/// itself, and the suffixes behind it.
#[verifier::opaque]
pub open spec fn expr_suffix_spec(src: SourceView, pos: int, end: int, depth: nat) -> ParsedView<
    ExprView,
>
    decreases depth, 150nat, 0nat,
{
    match expr_leaf_spec(src, pos, end, depth) {
        Err(stop) => Err(stop),
        Ok((base, first)) => suffixes_spec(src, end, depth, base, first),
    }
}

/// The expression `current`, which ends at `p`, with the suffixes behind
/// it. Each suffix applies to all that stands before it. White space may
/// stand before a suffix.
#[verifier::opaque]
pub open spec fn suffixes_spec(src: SourceView, end: int, depth: nat, current: ExprView, p: int)
    -> ParsedView<ExprView>
    decreases depth, 140nat, end - p,
{
    let at = skip_blank(src.text, p, end);
    match suffix_operator_spec(src, at, end, depth) {
        Ok((op, q)) => if q <= p || q > end {
            Ok((current, p))
        } else {
            suffixes_spec(src, end, depth, suffix_at(src, at, current, op), q)
        },
        Err(stop) => if stop.trouble == Trouble::Soft {
            Ok((current, p))
        } else {
            Err(stop)
        },
    }
}

#[verifier::loop_isolation(false)]
pub fn expr_suffix(src: &Source, pos: usize, end: usize, depth: usize) -> (r: Parsed<
    ExprWithLocation,
>)
    requires
        in_range(src, pos, end),
    ensures
        within(r, pos, end),
        seen(r) == expr_suffix_spec(src.view(), pos as int, end as int, depth as nat),
    decreases depth, 150nat,
{
    reveal_with_fuel(suffix_operator_spec, 1);
    reveal_with_fuel(expr_suffix_spec, 1);
    reveal_with_fuel(suffixes_spec, 1);
    let (base, first) = match expr_leaf(src, pos, end, depth) {
        Ok(found) => found,
        Err(stop) => {
            return Err(stop);
        },
    };
    let mut current = base;
    let mut p: usize = first;
    loop
        invariant
            pos <= p <= end,
            in_range(src, pos, end),
            expr_suffix_spec(src.view(), pos as int, end as int, depth as nat) == suffixes_spec(
                src.view(),
                end as int,
                depth as nat,
                current@,
                p as int,
            ),
        decreases end - p,
    {
        let at = ml_space0(src, p, end);
        match suffix_operator(src, at, end, depth) {
            Ok((op, q)) => {
                assert(suffix_operator_spec(src.view(), at as int, end as int, depth as nat)
                    == Ok::<(SuffixOperatorView, int), StopView>((op@, q as int)));
                if q <= p {
                    return Ok((current, p));
                }
                let ghost before = current@;
                let suffix = SuffixExpr { base: current, operator: op };
                let inner = Expr::Suffix(Box::new(suffix));
                assert(inner@ == ExprKind::Suffix(suffix@));
                current = inner.with_location(src.locate(at));
                assert(current@ == suffix_at(src.view(), at as int, before, op@));
                p = q;
            },
            Err(stop) => match stop.trouble {
                Trouble::Soft => {
                    return Ok((current, p));
                },
                _ => {
                    return Err(stop);
                },
            },
        }
    }
}

/// A suffix: a field, or else arguments, or else an index.
#[verifier::opaque]
pub open spec fn suffix_operator_spec(src: SourceView, pos: int, end: int, depth: nat)
    -> ParsedView<SuffixOperatorView>
    decreases depth, 130nat, 0nat,
{
    match dot_spec(src, pos, end) {
        Ok((name, p)) => Ok((SuffixOperatorView::DotField(name), p)),
        Err(_) => match function_application_spec(src, pos, end, depth) {
            Ok((args, p)) => Ok((SuffixOperatorView::FunctionApplication(args), p)),
            Err(stop) => if stop.trouble == Trouble::Soft {
                match index_spec(src, pos, end, depth) {
                    Ok((ix, p)) => Ok((SuffixOperatorView::Index(ix), p)),
                    Err(last) => Err(last),
                }
            } else {
                Err(stop)
            },
        },
    }
}

fn suffix_operator(src: &Source, pos: usize, end: usize, depth: usize) -> (r: Parsed<
    SuffixOperator,
>)
    requires
        in_range(src, pos, end),
    ensures
        within(r, pos, end),
        seen(r) == suffix_operator_spec(src.view(), pos as int, end as int, depth as nat),
    decreases depth, 130nat,
{
    reveal_with_fuel(function_application_spec, 1);
    reveal_with_fuel(index_spec, 1);
    reveal_with_fuel(suffix_operator_spec, 1);
    match dot(src, pos, end) {
        Ok((name, p)) => {
            return Ok((SuffixOperator::DotField(name), p));
        },
        Err(_) => {},
    }
    match function_application(src, pos, end, depth) {
        Ok((args, p)) => {
            return Ok((SuffixOperator::FunctionApplication(args), p));
        },
        Err(stop) => match stop.trouble {
            Trouble::Soft => {},
            _ => {
                return Err(stop);
            },
        },
    }
    match index(src, pos, end, depth) {
        Ok((ix, p)) => Ok((SuffixOperator::Index(ix), p)),
        Err(stop) => Err(stop),
    }
}

/// A full stop, white space if one likes, and an identifier.
pub open spec fn dot_spec(src: SourceView, pos: int, end: int) -> ParsedView<Seq<char>> {
    if has_word(src.text, pos, end, "."@) {
        identifier_spec(src, skip_blank(src.text, pos + "."@.len(), end), end)
    } else {
        Err(soft_at(pos))
    }
}

fn dot(src: &Source, pos: usize, end: usize) -> (r: Parsed<String>)
    requires
        in_range(src, pos, end),
    ensures
        within(r, pos, end),
        seen(r) == dot_spec(src.view(), pos as int, end as int),
        r matches Err(stop) ==> stop.trouble == Trouble::Soft,
{
    match tag(src, pos, end, ".") {
        Some(p) => identifier(src, ml_space0(src, p, end), end),
        None => Err(soft(pos)),
    }
}

/// The view of what a parser of several expressions returns.
pub open spec fn seen_exprs(r: Parsed<Vec<ExprWithLocation>>) -> ParsedView<Seq<ExprView>> {
    match r {
        Ok((x, p)) => Ok((exprs_view(x@), p as int)),
        Err(stop) => Err(stop@),
    }
}

/// The arguments from `p` on behind `acc`, and the index behind the last
/// of them. A comma, with white space around it if one likes, follows an
/// argument or not.
#[verifier::opaque]
pub open spec fn arguments_spec(
    src: SourceView,
    p: int,
    end: int,
    depth: nat,
    acc: Seq<ExprView>,
) -> ParsedView<Seq<ExprView>>
    decreases depth, 110nat, end - p,
{
    match expr_spec(src, p, end, depth) {
        Ok((arg, q)) => {
            let after = skip_blank(src.text, q, end);
            let next = if has_word(src.text, after, end, ","@) {
                skip_blank(src.text, after + ","@.len(), end)
            } else {
                q
            };
            if next <= p || next > end {
                Err(soft_at(p))
            } else {
                arguments_spec(src, next, end, depth, acc.push(arg))
            }
        },
        Err(stop) => if stop.trouble == Trouble::Soft {
            Ok((acc, p))
        } else {
            Err(stop)
        },
    }
}

/// Arguments in round brackets.
#[verifier::opaque]
pub open spec fn function_application_spec(src: SourceView, pos: int, end: int, depth: nat)
    -> ParsedView<Seq<ExprView>>
    decreases depth, 120nat, 0nat,
{
    if !has_word(src.text, pos, end, "("@) {
        Err(soft_at(pos))
    } else {
        match arguments_spec(
            src,
            skip_blank(src.text, pos + "("@.len(), end),
            end,
            depth,
            Seq::empty(),
        ) {
            Err(stop) => Err(stop),
            Ok((args, p)) => {
                let close = skip_blank(src.text, p, end);
                if has_word(src.text, close, end, ")"@) {
                    Ok((args, close + ")"@.len()))
                } else {
                    Err(soft_at(close))
                }
            },
        }
    }
}

#[verifier::loop_isolation(false)]
fn arguments(src: &Source, pos: usize, end: usize, depth: usize) -> (r: Parsed<
    Vec<ExprWithLocation>,
>)
    requires
        in_range(src, pos, end),
    ensures
        within(r, pos, end),
        seen_exprs(r) == arguments_spec(
            src.view(),
            pos as int,
            end as int,
            depth as nat,
            Seq::empty(),
        ),
    decreases depth, 110nat,
{
    reveal_with_fuel(arguments_spec, 1);
    let mut args: Vec<ExprWithLocation> = Vec::new();
    let mut p: usize = pos;
    assert(exprs_view(args@) =~= Seq::<ExprView>::empty());
    loop
        invariant
            pos <= p <= end,
            arguments_spec(src.view(), pos as int, end as int, depth as nat, Seq::empty())
                == arguments_spec(
                src.view(),
                p as int,
                end as int,
                depth as nat,
                exprs_view(args@),
            ),
        decreases end - p,
    {
        match expr(src, p, end, depth) {
            Ok((arg, q)) => {
                let after = ml_space0(src, q, end);
                let next = match tag(src, after, end, ",") {
                    Some(c) => ml_space0(src, c, end),
                    None => q,
                };
                if next <= p {
                    return Err(soft(p));
                }
                let ghost before = exprs_view(args@);
                args.push(arg);
                assert(exprs_view(args@) =~= before.push(arg@));
                p = next;
            },
            Err(stop) => match stop.trouble {
                Trouble::Soft => {
                    return Ok((args, p));
                },
                _ => {
                    return Err(stop);
                },
            },
        }
    }
}

fn function_application(src: &Source, pos: usize, end: usize, depth: usize) -> (r: Parsed<
    Vec<ExprWithLocation>,
>)
    requires
        in_range(src, pos, end),
    ensures
        within(r, pos, end),
        seen_exprs(r) == function_application_spec(
            src.view(),
            pos as int,
            end as int,
            depth as nat,
        ),
    decreases depth, 120nat,
{
    reveal_with_fuel(arguments_spec, 1);
    reveal_with_fuel(function_application_spec, 1);
    let open = match tag(src, pos, end, "(") {
        Some(p) => p,
        None => {
            return Err(soft(pos));
        },
    };
    let (args, p) = match arguments(src, ml_space0(src, open, end), end, depth) {
        Ok(found) => found,
        Err(stop) => {
            return Err(stop);
        },
    };
    let close = ml_space0(src, p, end);
    match tag(src, close, end, ")") {
        Some(q) => Ok((args, q)),
        None => Err(soft(close)),
    }
}

/// An expression in square brackets.
#[verifier::opaque]
pub open spec fn index_spec(src: SourceView, pos: int, end: int, depth: nat) -> ParsedView<
    ExprView,
>
    decreases depth, 120nat, 0nat,
{
    if !has_word(src.text, pos, end, "["@) {
        Err(soft_at(pos))
    } else {
        match expr_spec(src, skip_blank(src.text, pos + "["@.len(), end), end, depth) {
            Err(stop) => Err(stop),
            Ok((ix, p)) => {
                let close = skip_blank(src.text, p, end);
                if has_word(src.text, close, end, "]"@) {
                    Ok((ix, close + "]"@.len()))
                } else {
                    Err(soft_at(close))
                }
            },
        }
    }
}

fn index(src: &Source, pos: usize, end: usize, depth: usize) -> (r: Parsed<ExprWithLocation>)
    requires
        in_range(src, pos, end),
    ensures
        within(r, pos, end),
        seen(r) == index_spec(src.view(), pos as int, end as int, depth as nat),
    decreases depth, 120nat,
{
    reveal_with_fuel(index_spec, 1);
    let open = match tag(src, pos, end, "[") {
        Some(p) => p,
        None => {
            return Err(soft(pos));
        },
    };
    let (ix, p) = match expr(src, ml_space0(src, open, end), end, depth) {
        Ok(found) => found,
        Err(stop) => {
            return Err(stop);
        },
    };
    let close = ml_space0(src, p, end);
    match tag(src, close, end, "]") {
        Some(q) => Ok((ix, q)),
        None => Err(soft(close)),
    }
}

} // verus!
