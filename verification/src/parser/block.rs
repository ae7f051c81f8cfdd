//! Blocks: assignments, and the expression that they are made for.
use crate::ast::{assignments_view, Assignment, BlockExpr, BlockView, ExprView};
use crate::parser::expr::{expr, expr_spec, identifier, identifier_spec};
use crate::parser::spaces::{ml_space0, ml_space1, skip_blank};
use crate::parser::{has_word, in_range, seen, soft, soft_at, tag, within, Parsed, ParsedView,
    Trouble};
use crate::source::{Source, SourceView};
use vstd::prelude::*;

verus! {

/// What an assignment is: `let`, a name, `=`, an expression, and a
/// semicolon for those who like one.
#[verifier::opaque]
pub open spec fn assignment_spec(src: SourceView, pos: int, end: int, depth: nat) -> ParsedView<
    (Seq<char>, ExprView),
>
    decreases depth, 100nat, 0nat,
{
    if !has_word(src.text, pos, end, "let"@) {
        Err(soft_at(pos))
    } else {
        let word = pos + "let"@.len();
        let start = skip_blank(src.text, word, end);
        if start <= word {
            Err(soft_at(word))
        } else {
            match identifier_spec(src, start, end) {
                Err(stop) => Err(stop),
                Ok((name, p)) => {
                    let equals = skip_blank(src.text, p, end);
                    if !has_word(src.text, equals, end, "="@) {
                        Err(soft_at(equals))
                    } else {
                        match expr_spec(
                            src,
                            skip_blank(src.text, equals + "="@.len(), end),
                            end,
                            depth,
                        ) {
                            Err(stop) => Err(stop),
                            Ok((value, q)) => {
                                let semicolon = skip_blank(src.text, q, end);
                                Ok(
                                    (
                                        (name, value),
                                        if has_word(src.text, semicolon, end, ";"@) {
                                            semicolon + ";"@.len()
                                        } else {
                                            q
                                        },
                                    ),
                                )
                            },
                        }
                    }
                },
            }
        }
    }
}

fn assignment(src: &Source, pos: usize, end: usize, depth: usize) -> (r: Parsed<Assignment>)
    requires
        in_range(src, pos, end),
    ensures
        within(r, pos, end),
        seen(r) == assignment_spec(src.view(), pos as int, end as int, depth as nat),
    decreases depth, 100nat,
{
    reveal_with_fuel(assignment_spec, 1);
    let word = match tag(src, pos, end, "let") {
        Some(p) => p,
        None => {
            return Err(soft(pos));
        },
    };
    let start = match ml_space1(src, word, end) {
        Some(p) => p,
        None => {
            return Err(soft(word));
        },
    };
    let (name, p) = match identifier(src, start, end) {
        Ok(found) => found,
        Err(stop) => {
            return Err(stop);
        },
    };
    let equals = ml_space0(src, p, end);
    let behind = match tag(src, equals, end, "=") {
        Some(q) => q,
        None => {
            return Err(soft(equals));
        },
    };
    let (value, q) = match expr(src, ml_space0(src, behind, end), end, depth) {
        Ok(found) => found,
        Err(stop) => {
            return Err(stop);
        },
    };
    let semicolon = ml_space0(src, q, end);
    let last = match tag(src, semicolon, end, ";") {
        Some(s) => s,
        None => q,
    };
    Ok((Assignment(name, value), last))
}

/// The assignments that follow at `p`, each after white space, behind
/// `acc`, and the index behind the last of them.
#[verifier::opaque]
pub open spec fn more_assignments_spec(
    src: SourceView,
    p: int,
    end: int,
    depth: nat,
    acc: Seq<(Seq<char>, ExprView)>,
) -> ParsedView<Seq<(Seq<char>, ExprView)>>
    decreases depth, 105nat, end - p,
{
    let next = skip_blank(src.text, p, end);
    if next <= p {
        Ok((acc, p))
    } else {
        match assignment_spec(src, next, end, depth) {
            Ok((more, q)) => if q <= p || q > end {
                Ok((acc, p))
            } else {
                more_assignments_spec(src, q, end, depth, acc.push(more))
            },
            Err(stop) => if stop.trouble == Trouble::Soft {
                Ok((acc, p))
            } else {
                Err(stop)
            },
        }
    }
}

/// What the body of a block is: assignments with white space between
/// them, `in`, and an expression, with white space around it all.
#[verifier::opaque]
pub open spec fn block_body_spec(src: SourceView, pos: int, end: int, depth: nat) -> ParsedView<
    BlockView,
>
    decreases depth, 110nat, 0nat,
{
    match assignment_spec(src, skip_blank(src.text, pos, end), end, depth) {
        Err(stop) => Err(stop),
        Ok((first, behind)) => match more_assignments_spec(src, behind, end, depth, seq![first]) {
            Err(stop) => Err(stop),
            Ok((assignments, p)) => {
                let before = skip_blank(src.text, p, end);
                if before <= p {
                    Err(soft_at(p))
                } else if !has_word(src.text, before, end, "in"@) {
                    Err(soft_at(before))
                } else {
                    let word = before + "in"@.len();
                    let inner = skip_blank(src.text, word, end);
                    if inner <= word {
                        Err(soft_at(word))
                    } else {
                        match expr_spec(src, inner, end, depth) {
                            Err(stop) => Err(stop),
                            Ok((expression, q)) => Ok(
                                (
                                    BlockView { local_assignments: assignments, expression },
                                    skip_blank(src.text, q, end),
                                ),
                            ),
                        }
                    }
                }
            },
        },
    }
}

/// The view of what a parser of assignments returns.
pub open spec fn seen_assignments(r: Parsed<Vec<Assignment>>) -> ParsedView<
    Seq<(Seq<char>, ExprView)>,
> {
    match r {
        Ok((x, p)) => Ok((assignments_view(x@), p as int)),
        Err(stop) => Err(stop@),
    }
}

#[verifier::loop_isolation(false)]
fn more_assignments(src: &Source, pos: usize, end: usize, depth: usize, first: Assignment) -> (r:
    Parsed<Vec<Assignment>>)
    requires
        in_range(src, pos, end),
    ensures
        within(r, pos, end),
        seen_assignments(r) == more_assignments_spec(
            src.view(),
            pos as int,
            end as int,
            depth as nat,
            seq![first@],
        ),
    decreases depth, 105nat,
{
    reveal_with_fuel(assignment_spec, 1);
    reveal_with_fuel(more_assignments_spec, 1);
    let mut assignments: Vec<Assignment> = Vec::new();
    assignments.push(first);
    assert(assignments_view(assignments@) =~= seq![first@]);
    let mut p: usize = pos;
    loop
        invariant
            pos <= p <= end,
            more_assignments_spec(src.view(), pos as int, end as int, depth as nat, seq![first@])
                == more_assignments_spec(
                src.view(),
                p as int,
                end as int,
                depth as nat,
                assignments_view(assignments@),
            ),
        decreases end - p,
    {
        let next = match ml_space1(src, p, end) {
            Some(q) => q,
            None => {
                return Ok((assignments, p));
            },
        };
        match assignment(src, next, end, depth) {
            Ok((more, q)) => {
                if q <= p {
                    return Ok((assignments, p));
                }
                let ghost before = assignments_view(assignments@);
                assignments.push(more);
                assert(assignments_view(assignments@) =~= before.push(more@));
                p = q;
            },
            Err(stop) => match stop.trouble {
                Trouble::Soft => {
                    return Ok((assignments, p));
                },
                _ => {
                    return Err(stop);
                },
            },
        }
    }
}

pub fn block_body(src: &Source, pos: usize, end: usize, depth: usize) -> (r: Parsed<BlockExpr>)
    requires
        in_range(src, pos, end),
    ensures
        within(r, pos, end),
        seen(r) == block_body_spec(src.view(), pos as int, end as int, depth as nat),
    decreases depth, 110nat,
{
    reveal_with_fuel(assignment_spec, 1);
    reveal_with_fuel(more_assignments_spec, 1);
    reveal_with_fuel(block_body_spec, 1);
    let start = ml_space0(src, pos, end);
    let (first, behind) = match assignment(src, start, end, depth) {
        Ok(found) => found,
        Err(stop) => {
            return Err(stop);
        },
    };
    let (assignments, p) = match more_assignments(src, behind, end, depth, first) {
        Ok(found) => found,
        Err(stop) => {
            return Err(stop);
        },
    };
    let before = match ml_space1(src, p, end) {
        Some(q) => q,
        None => {
            return Err(soft(p));
        },
    };
    let word = match tag(src, before, end, "in") {
        Some(q) => q,
        None => {
            return Err(soft(before));
        },
    };
    let inner = match ml_space1(src, word, end) {
        Some(q) => q,
        None => {
            return Err(soft(word));
        },
    };
    let (expression, q) = match expr(src, inner, end, depth) {
        Ok(found) => found,
        Err(stop) => {
            return Err(stop);
        },
    };
    let block = BlockExpr { local_assignments: assignments, expression: Box::new(expression) };
    assert(block@ == BlockView {
        local_assignments: assignments_view(assignments@),
        expression: expression@,
    });
    Ok((block, ml_space0(src, q, end)))
}

/// A block in braces.
#[verifier::opaque]
pub open spec fn block_expr_spec(src: SourceView, pos: int, end: int, depth: nat) -> ParsedView<
    BlockView,
>
    decreases depth, 120nat, 0nat,
{
    if !has_word(src.text, pos, end, "{"@) {
        Err(soft_at(pos))
    } else {
        match block_body_spec(src, pos + "{"@.len(), end, depth) {
            Err(stop) => Err(stop),
            Ok((body, p)) => if has_word(src.text, p, end, "}"@) {
                Ok((body, p + "}"@.len()))
            } else {
                Err(soft_at(p))
            },
        }
    }
}

pub fn block_expr(src: &Source, pos: usize, end: usize, depth: usize) -> (r: Parsed<BlockExpr>)
    requires
        in_range(src, pos, end),
    ensures
        within(r, pos, end),
        seen(r) == block_expr_spec(src.view(), pos as int, end as int, depth as nat),
    decreases depth, 120nat,
{
    reveal_with_fuel(block_body_spec, 1);
    reveal_with_fuel(block_expr_spec, 1);
    let open = match tag(src, pos, end, "{") {
        Some(p) => p,
        None => {
            return Err(soft(pos));
        },
    };
    let (body, p) = match block_body(src, open, end, depth) {
        Ok(found) => found,
        Err(stop) => {
            return Err(stop);
        },
    };
    match tag(src, p, end, "}") {
        Some(q) => Ok((body, q)),
        None => Err(soft(p)),
    }
}

} // verus!
