//! Literals: booleans, numbers, strings, lists and maps.
use crate::ast::{entries_view, exprs_view, parts_view, ConfigString, ConfigStringView,
    ConfigValue, ConfigValueView, Expr, ExprKind, ExprView, ExprWithLocation, HashMapEntry};
use crate::parser::expr::{expr, expr_spec, identifier, identifier_spec};
use crate::parser::spaces::{ml_space0, ml_space1, skip_blank};
use crate::parser::suffix_operators::seen_exprs;
use crate::parser::{cut, cut_spec, has_word, in_range, place_in, seen, soft, soft_at, tag,
    within, Parsed, ParsedView, StopView, Trouble};
use crate::source::{Source, SourceView};
use vstd::prelude::*;

pub mod number;
pub mod string;

verus! {

/// What a literal is: a boolean, a number, a map, a list, or a string:
/// the first of these that the text is.
#[verifier::opaque]
pub open spec fn config_value_spec(src: SourceView, pos: int, end: int, depth: nat) -> ParsedView<
    ConfigValueView,
>
    decreases depth, 120nat, 0nat,
{
    match boolean_spec(src.text, pos, end) {
        Some((b, p)) => Ok((ConfigValueView::Bool(b), p)),
        None => match number::number_spec(src.text, pos, end) {
            Ok(found) => Ok(found),
            Err(_) => match hashmap_spec(src, pos, end, depth) {
                Ok((entries, p)) => Ok((ConfigValueView::HashMap(entries), p)),
                Err(s1) => if s1.trouble != Trouble::Soft {
                    Err(s1)
                } else {
                    match list_spec(src, pos, end, depth) {
                        Ok((items, p)) => Ok((ConfigValueView::List(items), p)),
                        Err(s2) => if s2.trouble != Trouble::Soft {
                            Err(s2)
                        } else {
                            match string::parse_spec(src, pos, end, depth) {
                                Ok((parts, p)) => Ok((ConfigValueView::String(parts), p)),
                                Err(s3) => Err(s3),
                            }
                        },
                    }
                },
            },
        },
    }
}

pub fn config_value(src: &Source, pos: usize, end: usize, depth: usize) -> (r: Parsed<ConfigValue>)
    requires
        in_range(src, pos, end),
    ensures
        within(r, pos, end),
        seen(r) == config_value_spec(src.view(), pos as int, end as int, depth as nat),
    decreases depth, 120nat,
{
    reveal_with_fuel(hashmap_spec, 1);
    reveal_with_fuel(list_spec, 1);
    reveal_with_fuel(config_value_spec, 1);
    match boolean(src, pos, end) {
        Some((b, p)) => {
            return Ok((ConfigValue::Bool(b), p));
        },
        None => {},
    }
    match number::number(src, pos, end) {
        Ok(found) => {
            return Ok(found);
        },
        Err(_) => {},
    }
    match hashmap(src, pos, end, depth) {
        Ok((entries, p)) => {
            return Ok((ConfigValue::HashMap(entries), p));
        },
        Err(stop) => match stop.trouble {
            Trouble::Soft => {},
            _ => {
                return Err(stop);
            },
        },
    }
    match list(src, pos, end, depth) {
        Ok((items, p)) => {
            return Ok((ConfigValue::List(items), p));
        },
        Err(stop) => match stop.trouble {
            Trouble::Soft => {},
            _ => {
                return Err(stop);
            },
        },
    }
    match string::parse(src, pos, end, depth) {
        Ok((parts, p)) => Ok((ConfigValue::String(parts), p)),
        Err(stop) => Err(stop),
    }
}

/// `true` or `false`.
pub open spec fn boolean_spec(s: Seq<char>, pos: int, end: int) -> Option<(bool, int)> {
    if has_word(s, pos, end, "true"@) {
        Some((true, pos + "true"@.len()))
    } else if has_word(s, pos, end, "false"@) {
        Some((false, pos + "false"@.len()))
    } else {
        None
    }
}

fn boolean(src: &Source, pos: usize, end: usize) -> (r: Option<(bool, usize)>)
    requires
        in_range(src, pos, end),
    ensures
        r matches Some((_, p)) ==> pos <= p <= end,
        match r {
            Some((b, p)) => boolean_spec(src.text(), pos as int, end as int) == Some(
                (b, p as int),
            ),
            None => boolean_spec(src.text(), pos as int, end as int) is None,
        },
{
    match tag(src, pos, end, "true") {
        Some(p) => Some((true, p)),
        None => match tag(src, pos, end, "false") {
            Some(p) => Some((false, p)),
            None => None,
        },
    }
}

/// The string literal that holds this text and nothing else, at the
/// given place.
pub open spec fn raw_string_at(src: SourceView, at: int, s: Seq<char>) -> ExprView {
    ExprView {
        inner: Box::new(
            ExprKind::Value(ConfigValueView::String(seq![ConfigStringView::Raw(s)])),
        ),
        location: place_in(src, at),
    }
}

fn raw_string(src: &Source, at: usize, s: String) -> (r: ExprWithLocation)
    requires
        at <= src.text().len(),
    ensures
        r@ == raw_string_at(src.view(), at as int, s@),
{
    let mut parts: Vec<ConfigString> = Vec::new();
    let part = ConfigString::Raw(s);
    assert(part@ == ConfigStringView::Raw(s@));
    parts.push(part);
    assert(parts_view(parts@) =~= seq![ConfigStringView::Raw(s@)]);
    let value = ConfigValue::String(parts);
    assert(value@ == ConfigValueView::String(parts_view(parts@)));
    let inner = Expr::Value(value);
    assert(inner@ == ExprKind::Value(value@));
    inner.with_location(src.locate(at))
}

/// What an entry of a map is: a key, a colon, and a value. The key is a
/// name, or else an expression. Once the colon is read, a value has to
/// follow.
#[verifier::opaque]
pub open spec fn hashmap_entry_spec(src: SourceView, pos: int, end: int, depth: nat)
    -> ParsedView<(ExprView, ExprView)>
    decreases depth, 90nat, 0nat,
{
    let key = match identifier_spec(src, pos, end) {
        Ok((name, p)) => Ok((raw_string_at(src, pos, name), p)),
        Err(_) => expr_spec(src, pos, end, depth),
    };
    match key {
        Err(stop) => Err(stop),
        Ok((k, p)) => {
            let colon = skip_blank(src.text, p, end);
            if !has_word(src.text, colon, end, ":"@) {
                Err(soft_at(colon))
            } else {
                match expr_spec(src, skip_blank(src.text, colon + ":"@.len(), end), end, depth) {
                    Ok((value, q)) => Ok(((k, value), q)),
                    Err(stop) => Err(cut_spec(stop)),
                }
            }
        },
    }
}

fn hashmap_entry(src: &Source, pos: usize, end: usize, depth: usize) -> (r: Parsed<HashMapEntry>)
    requires
        in_range(src, pos, end),
    ensures
        within(r, pos, end),
        seen(r) == hashmap_entry_spec(src.view(), pos as int, end as int, depth as nat),
    decreases depth, 90nat,
{
    reveal_with_fuel(hashmap_entry_spec, 1);
    let (key, p) = match identifier(src, pos, end) {
        Ok((name, p)) => (raw_string(src, pos, name), p),
        Err(_) => match expr(src, pos, end, depth) {
            Ok(found) => found,
            Err(stop) => {
                return Err(stop);
            },
        },
    };
    let colon = ml_space0(src, p, end);
    let behind = match tag(src, colon, end, ":") {
        Some(q) => q,
        None => {
            return Err(soft(colon));
        },
    };
    match expr(src, ml_space0(src, behind, end), end, depth) {
        Ok((value, q)) => Ok((HashMapEntry { key, value }, q)),
        Err(stop) => Err(cut(stop)),
    }
}

/// A comma with white space around it: the index behind it.
pub open spec fn sep_spec(s: Seq<char>, pos: int, end: int) -> Option<int> {
    let comma = skip_blank(s, pos, end);
    if has_word(s, comma, end, ","@) {
        Some(skip_blank(s, comma + ","@.len(), end))
    } else {
        None
    }
}

fn sep(src: &Source, pos: usize, end: usize) -> (r: Option<usize>)
    requires
        in_range(src, pos, end),
    ensures
        r matches Some(p) ==> pos <= p <= end,
        match r {
            Some(p) => sep_spec(src.text(), pos as int, end as int) == Some(p as int),
            None => sep_spec(src.text(), pos as int, end as int) is None,
        },
{
    let comma = ml_space0(src, pos, end);
    match tag(src, comma, end, ",") {
        Some(p) => Some(ml_space0(src, p, end)),
        None => None,
    }
}

/// The end of a list or a map: behind a last comma, or else behind white
/// space.
pub open spec fn closing_spec(s: Seq<char>, p: int, end: int) -> int {
    match sep_spec(s, p, end) {
        Some(x) => x,
        None => skip_blank(s, p, end),
    }
}

fn closing(src: &Source, p: usize, end: usize) -> (r: usize)
    requires
        in_range(src, p, end),
    ensures
        r == closing_spec(src.text(), p as int, end as int),
        p <= r <= end,
{
    match sep(src, p, end) {
        Some(s) => s,
        None => ml_space0(src, p, end),
    }
}

/// The expressions that follow at `p`, each after a comma, behind `acc`,
/// and the index behind the last of them.
#[verifier::opaque]
pub open spec fn more_items_spec(
    src: SourceView,
    p: int,
    end: int,
    depth: nat,
    acc: Seq<ExprView>,
) -> ParsedView<Seq<ExprView>>
    decreases depth, 95nat, end - p,
{
    match sep_spec(src.text, p, end) {
        None => Ok((acc, p)),
        Some(behind) => match expr_spec(src, behind, end, depth) {
            Ok((more, q)) => if q <= p || q > end {
                Ok((acc, p))
            } else {
                more_items_spec(src, q, end, depth, acc.push(more))
            },
            Err(stop) => if stop.trouble == Trouble::Soft {
                Ok((acc, p))
            } else {
                Err(stop)
            },
        },
    }
}

/// The expressions at `p` with commas between them, and the index behind
/// the last of them.
#[verifier::opaque]
pub open spec fn items_spec(src: SourceView, p: int, end: int, depth: nat) -> ParsedView<
    Seq<ExprView>,
>
    decreases depth, 97nat, 0nat,
{
    match expr_spec(src, p, end, depth) {
        Ok((first, q)) => more_items_spec(src, q, end, depth, seq![first]),
        Err(stop) => if stop.trouble == Trouble::Soft {
            Ok((Seq::empty(), p))
        } else {
            Err(stop)
        },
    }
}

/// What a list is: expressions in square brackets, with commas between
/// them and, if one likes, behind the last.
#[verifier::opaque]
pub open spec fn list_spec(src: SourceView, pos: int, end: int, depth: nat) -> ParsedView<
    Seq<ExprView>,
>
    decreases depth, 110nat, 0nat,
{
    if !has_word(src.text, pos, end, "["@) {
        Err(soft_at(pos))
    } else {
        match items_spec(src, skip_blank(src.text, pos + "["@.len(), end), end, depth) {
            Err(stop) => Err(stop),
            Ok((items, p)) => {
                let close = closing_spec(src.text, p, end);
                if has_word(src.text, close, end, "]"@) {
                    Ok((items, close + "]"@.len()))
                } else {
                    Err(soft_at(close))
                }
            },
        }
    }
}

#[verifier::loop_isolation(false)]
fn items(src: &Source, pos: usize, end: usize, depth: usize) -> (r: Parsed<Vec<ExprWithLocation>>)
    requires
        in_range(src, pos, end),
    ensures
        within(r, pos, end),
        seen_exprs(r) == items_spec(src.view(), pos as int, end as int, depth as nat),
        r matches Err(stop) ==> stop.trouble != Trouble::Soft,
    decreases depth, 97nat,
{
    reveal_with_fuel(items_spec, 1);
    reveal_with_fuel(more_items_spec, 1);
    let mut list: Vec<ExprWithLocation> = Vec::new();
    assert(exprs_view(list@) =~= Seq::<ExprView>::empty());
    let (first, behind) = match expr(src, pos, end, depth) {
        Ok(found) => found,
        Err(stop) => match stop.trouble {
            Trouble::Soft => {
                return Ok((list, pos));
            },
            _ => {
                return Err(stop);
            },
        },
    };
    list.push(first);
    assert(exprs_view(list@) =~= seq![first@]);
    let mut p: usize = behind;
    loop
        invariant
            pos <= p <= end,
            items_spec(src.view(), pos as int, end as int, depth as nat) == more_items_spec(
                src.view(),
                p as int,
                end as int,
                depth as nat,
                exprs_view(list@),
            ),
        decreases end - p,
    {
        let next = match sep(src, p, end) {
            Some(s) => s,
            None => {
                return Ok((list, p));
            },
        };
        match expr(src, next, end, depth) {
            Ok((more, q)) => {
                if q <= p {
                    return Ok((list, p));
                }
                let ghost before = exprs_view(list@);
                list.push(more);
                assert(exprs_view(list@) =~= before.push(more@));
                p = q;
            },
            Err(stop) => match stop.trouble {
                Trouble::Soft => {
                    return Ok((list, p));
                },
                _ => {
                    return Err(stop);
                },
            },
        }
    }
}

fn list(src: &Source, pos: usize, end: usize, depth: usize) -> (r: Parsed<Vec<ExprWithLocation>>)
    requires
        in_range(src, pos, end),
    ensures
        within(r, pos, end),
        seen_exprs(r) == list_spec(src.view(), pos as int, end as int, depth as nat),
    decreases depth, 110nat,
{
    reveal_with_fuel(items_spec, 1);
    reveal_with_fuel(list_spec, 1);
    let open = match tag(src, pos, end, "[") {
        Some(p) => p,
        None => {
            return Err(soft(pos));
        },
    };
    let (found, p) = match items(src, ml_space0(src, open, end), end, depth) {
        Ok(found) => found,
        Err(stop) => {
            return Err(stop);
        },
    };
    let close = closing(src, p, end);
    match tag(src, close, end, "]") {
        Some(q) => Ok((found, q)),
        None => Err(soft(close)),
    }
}

/// The view of what a parser of the entries of a map returns.
pub open spec fn seen_entries(r: Parsed<Vec<HashMapEntry>>) -> ParsedView<
    Seq<(ExprView, ExprView)>,
> {
    match r {
        Ok((x, p)) => Ok((entries_view(x@), p as int)),
        Err(stop) => Err(stop@),
    }
}

/// What a map is: its entries in braces.
#[verifier::opaque]
pub open spec fn hashmap_spec(src: SourceView, pos: int, end: int, depth: nat) -> ParsedView<
    Seq<(ExprView, ExprView)>,
>
    decreases depth, 110nat, 0nat,
{
    if !has_word(src.text, pos, end, "{"@) {
        Err(soft_at(pos))
    } else {
        match hashmap_body_spec(src, pos + "{"@.len(), end, depth) {
            Err(stop) => Err(stop),
            Ok((entries, p)) => if has_word(src.text, p, end, "}"@) {
                Ok((entries, p + "}"@.len()))
            } else {
                Err(soft_at(p))
            },
        }
    }
}

fn hashmap(src: &Source, pos: usize, end: usize, depth: usize) -> (r: Parsed<Vec<HashMapEntry>>)
    requires
        in_range(src, pos, end),
    ensures
        within(r, pos, end),
        seen_entries(r) == hashmap_spec(src.view(), pos as int, end as int, depth as nat),
    decreases depth, 110nat,
{
    reveal_with_fuel(hashmap_body_spec, 1);
    reveal_with_fuel(hashmap_spec, 1);
    let open = match tag(src, pos, end, "{") {
        Some(p) => p,
        None => {
            return Err(soft(pos));
        },
    };
    let (entries, p) = match hashmap_body(src, open, end, depth) {
        Ok(found) => found,
        Err(stop) => {
            return Err(stop);
        },
    };
    match tag(src, p, end, "}") {
        Some(q) => Ok((entries, q)),
        None => Err(soft(p)),
    }
}

/// What separates two entries of a map: a comma, or else white space.
pub open spec fn entry_gap_spec(s: Seq<char>, pos: int, end: int) -> Option<int> {
    match sep_spec(s, pos, end) {
        Some(p) => Some(p),
        None => if skip_blank(s, pos, end) > pos {
            Some(skip_blank(s, pos, end))
        } else {
            None
        },
    }
}

fn entry_gap(src: &Source, pos: usize, end: usize) -> (r: Option<usize>)
    requires
        in_range(src, pos, end),
    ensures
        r matches Some(p) ==> pos <= p <= end,
        match r {
            Some(p) => entry_gap_spec(src.text(), pos as int, end as int) == Some(p as int),
            None => entry_gap_spec(src.text(), pos as int, end as int) is None,
        },
{
    match sep(src, pos, end) {
        Some(p) => Some(p),
        None => ml_space1(src, pos, end),
    }
}

/// The entries that follow at `p`, each after a comma or white space,
/// behind `acc`, and the index behind the last of them.
#[verifier::opaque]
pub open spec fn more_entries_spec(
    src: SourceView,
    p: int,
    end: int,
    depth: nat,
    acc: Seq<(ExprView, ExprView)>,
) -> ParsedView<Seq<(ExprView, ExprView)>>
    decreases depth, 95nat, end - p,
{
    match entry_gap_spec(src.text, p, end) {
        None => Ok((acc, p)),
        Some(behind) => match hashmap_entry_spec(src, behind, end, depth) {
            Ok((more, q)) => if q <= p || q > end {
                Ok((acc, p))
            } else {
                more_entries_spec(src, q, end, depth, acc.push(more))
            },
            Err(stop) => if stop.trouble == Trouble::Soft {
                Ok((acc, p))
            } else {
                Err(stop)
            },
        },
    }
}

/// The entries at `p`, and the index behind the last of them.
#[verifier::opaque]
pub open spec fn entries_spec(src: SourceView, p: int, end: int, depth: nat) -> ParsedView<
    Seq<(ExprView, ExprView)>,
>
    decreases depth, 97nat, 0nat,
{
    match hashmap_entry_spec(src, p, end, depth) {
        Ok((first, q)) => more_entries_spec(src, q, end, depth, seq![first]),
        Err(stop) => if stop.trouble == Trouble::Soft {
            Ok((Seq::empty(), p))
        } else {
            Err(stop)
        },
    }
}

/// What the body of a map is: entries with commas or white space between
/// them, with white space around them all and, if one likes, a comma
/// behind the last.
#[verifier::opaque]
pub open spec fn hashmap_body_spec(src: SourceView, pos: int, end: int, depth: nat) -> ParsedView<
    Seq<(ExprView, ExprView)>,
>
    decreases depth, 100nat, 0nat,
{
    match entries_spec(src, skip_blank(src.text, pos, end), end, depth) {
        Err(stop) => Err(stop),
        Ok((entries, p)) => Ok((entries, closing_spec(src.text, p, end))),
    }
}

#[verifier::loop_isolation(false)]
fn entries(src: &Source, pos: usize, end: usize, depth: usize) -> (r: Parsed<Vec<HashMapEntry>>)
    requires
        in_range(src, pos, end),
    ensures
        within(r, pos, end),
        seen_entries(r) == entries_spec(src.view(), pos as int, end as int, depth as nat),
    decreases depth, 97nat,
{
    reveal_with_fuel(hashmap_entry_spec, 1);
    reveal_with_fuel(entries_spec, 1);
    reveal_with_fuel(more_entries_spec, 1);
    let mut found: Vec<HashMapEntry> = Vec::new();
    assert(entries_view(found@) =~= Seq::<(ExprView, ExprView)>::empty());
    let (first, behind) = match hashmap_entry(src, pos, end, depth) {
        Ok(entry) => entry,
        Err(stop) => match stop.trouble {
            Trouble::Soft => {
                return Ok((found, pos));
            },
            _ => {
                return Err(stop);
            },
        },
    };
    found.push(first);
    assert(entries_view(found@) =~= seq![first@]);
    let mut p: usize = behind;
    loop
        invariant
            pos <= p <= end,
            entries_spec(src.view(), pos as int, end as int, depth as nat) == more_entries_spec(
                src.view(),
                p as int,
                end as int,
                depth as nat,
                entries_view(found@),
            ),
        decreases end - p,
    {
        let next = match entry_gap(src, p, end) {
            Some(s) => s,
            None => {
                return Ok((found, p));
            },
        };
        match hashmap_entry(src, next, end, depth) {
            Ok((more, q)) => {
                if q <= p {
                    return Ok((found, p));
                }
                let ghost before = entries_view(found@);
                found.push(more);
                assert(entries_view(found@) =~= before.push(more@));
                p = q;
            },
            Err(stop) => match stop.trouble {
                Trouble::Soft => {
                    return Ok((found, p));
                },
                _ => {
                    return Err(stop);
                },
            },
        }
    }
}

pub fn hashmap_body(src: &Source, pos: usize, end: usize, depth: usize) -> (r: Parsed<
    Vec<HashMapEntry>,
>)
    requires
        in_range(src, pos, end),
    ensures
        within(r, pos, end),
        seen_entries(r) == hashmap_body_spec(src.view(), pos as int, end as int, depth as nat),
    decreases depth, 100nat,
{
    reveal_with_fuel(entries_spec, 1);
    reveal_with_fuel(hashmap_body_spec, 1);
    let (found, p) = match entries(src, ml_space0(src, pos, end), end, depth) {
        Ok(found) => found,
        Err(stop) => {
            return Err(stop);
        },
    };
    Ok((found, closing(src, p, end)))
}

} // verus!
