//! Function literals.
use crate::ast::{strings_view, FuncDefinition, FuncDefinitionView};
use crate::parser::expr::{expr, expr_spec, identifier, identifier_spec};
use crate::parser::spaces::{ml_space0, skip_blank};
use crate::parser::{cut, cut_spec, has_word, in_range, seen, soft, soft_at, tag, within,
    Parsed, ParsedView, StopView};
use crate::source::{Source, SourceView};
use vstd::prelude::*;

verus! {

/// The names that follow at `p`, each after a comma, behind `acc`, and
/// the index behind the last of them.
pub open spec fn more_names_spec(src: SourceView, p: int, end: int, acc: Seq<Seq<char>>) -> (
    Seq<Seq<char>>,
    int,
)
    decreases end - p,
{
    let comma = skip_blank(src.text, p, end);
    if !has_word(src.text, comma, end, ","@) {
        (acc, p)
    } else {
        match identifier_spec(src, skip_blank(src.text, comma + ","@.len(), end), end) {
            Ok((more, q)) => if q <= p || q > end {
                (acc, p)
            } else {
                more_names_spec(src, q, end, acc.push(more))
            },
            Err(_) => (acc, p),
        }
    }
}

/// The names at `p` with commas between them, and the index behind the
/// last of them.
pub open spec fn names_spec(src: SourceView, p: int, end: int) -> (Seq<Seq<char>>, int) {
    match identifier_spec(src, p, end) {
        Ok((name, q)) => more_names_spec(src, q, end, seq![name]),
        Err(_) => (Seq::empty(), p),
    }
}

/// The parameters of a function: names in round brackets, with commas
/// between them.
pub open spec fn func_arguments_spec(src: SourceView, pos: int, end: int) -> ParsedView<
    Seq<Seq<char>>,
> {
    if !has_word(src.text, pos, end, "("@) {
        Err(soft_at(pos))
    } else {
        let (names, p) = names_spec(src, skip_blank(src.text, pos + "("@.len(), end), end);
        let close = skip_blank(src.text, p, end);
        if has_word(src.text, close, end, ")"@) {
            Ok((names, close + ")"@.len()))
        } else {
            Err(soft_at(close))
        }
    }
}

#[verifier::loop_isolation(false)]
fn names(src: &Source, pos: usize, end: usize) -> (r: (Vec<String>, usize))
    requires
        in_range(src, pos, end),
    ensures
        pos <= r.1 <= end,
        names_spec(src.view(), pos as int, end as int) == (strings_view(r.0@), r.1 as int),
{
    let mut found: Vec<String> = Vec::new();
    assert(strings_view(found@) =~= Seq::<Seq<char>>::empty());
    let (first, behind) = match identifier(src, pos, end) {
        Ok(name) => name,
        Err(_) => {
            return (found, pos);
        },
    };
    found.push(first);
    assert(strings_view(found@) =~= seq![first@]);
    let mut p: usize = behind;
    loop
        invariant
            pos <= p <= end,
            names_spec(src.view(), pos as int, end as int) == more_names_spec(
                src.view(),
                p as int,
                end as int,
                strings_view(found@),
            ),
        decreases end - p,
    {
        let comma = ml_space0(src, p, end);
        let next = match tag(src, comma, end, ",") {
            Some(c) => ml_space0(src, c, end),
            None => {
                return (found, p);
            },
        };
        match identifier(src, next, end) {
            Ok((more, q)) => {
                let ghost before = strings_view(found@);
                found.push(more);
                assert(strings_view(found@) =~= before.push(more@));
                p = q;
            },
            Err(_) => {
                return (found, p);
            },
        }
    }
}

fn func_arguments(src: &Source, pos: usize, end: usize) -> (r: Parsed<Vec<String>>)
    requires
        in_range(src, pos, end),
    ensures
        within(r, pos, end),
        match r {
            Ok((names, p)) => func_arguments_spec(src.view(), pos as int, end as int) == Ok::<
                (Seq<Seq<char>>, int),
                StopView,
            >((strings_view(names@), p as int)),
            Err(stop) => func_arguments_spec(src.view(), pos as int, end as int) == Err::<
                (Seq<Seq<char>>, int),
                StopView,
            >(stop@),
        },
{
    let open = match tag(src, pos, end, "(") {
        Some(p) => p,
        None => {
            return Err(soft(pos));
        },
    };
    let (found, p) = names(src, ml_space0(src, open, end), end);
    let close = ml_space0(src, p, end);
    match tag(src, close, end, ")") {
        Some(q) => Ok((found, q)),
        None => Err(soft(close)),
    }
}

/// What a function literal is: parameters, `=>`, and the body. Once the
/// arrow is read, a body has to follow.
#[verifier::opaque]
pub open spec fn func_definition_spec(src: SourceView, pos: int, end: int, depth: nat)
    -> ParsedView<FuncDefinitionView>
    decreases depth, 120nat, 0nat,
{
    match func_arguments_spec(src, pos, end) {
        Err(stop) => Err(stop),
        Ok((arguments, p)) => {
            let arrow = skip_blank(src.text, p, end);
            if !has_word(src.text, arrow, end, "=>"@) {
                Err(soft_at(arrow))
            } else {
                match expr_spec(src, skip_blank(src.text, arrow + "=>"@.len(), end), end, depth) {
                    Ok((body, q)) => Ok((FuncDefinitionView { arguments, expression: body }, q)),
                    Err(stop) => Err(cut_spec(stop)),
                }
            }
        },
    }
}

pub fn func_definition(src: &Source, pos: usize, end: usize, depth: usize) -> (r: Parsed<
    FuncDefinition,
>)
    requires
        in_range(src, pos, end),
    ensures
        within(r, pos, end),
        seen(r) == func_definition_spec(src.view(), pos as int, end as int, depth as nat),
    decreases depth, 120nat,
{
    reveal_with_fuel(func_definition_spec, 1);
    let (arguments, p) = match func_arguments(src, pos, end) {
        Ok(found) => found,
        Err(stop) => {
            return Err(stop);
        },
    };
    let arrow = ml_space0(src, p, end);
    let behind = match tag(src, arrow, end, "=>") {
        Some(q) => q,
        None => {
            return Err(soft(arrow));
        },
    };
    match expr(src, ml_space0(src, behind, end), end, depth) {
        Ok((body, q)) => {
            let definition = FuncDefinition { arguments, expression: Box::new(body) };
            assert(definition@ == FuncDefinitionView {
                arguments: strings_view(arguments@),
                expression: body@,
            });
            Ok((definition, q))
        },
        Err(stop) => Err(cut(stop)),
    }
}

} // verus!
