//! String literals.
use crate::ast::{parts_view, ConfigString, ConfigStringView};
use crate::parser::expr::{expr, expr_spec};
use crate::parser::spaces::{ml_space0, skip_blank};
use crate::parser::{has_word, in_range, incomplete, incomplete_at, seen, soft, soft_at, tag,
    within, Parsed, ParsedView, StopView, Trouble};
use crate::source::{Source, SourceView};
use crate::text::{chars_of, find, find_from, text_between};
use vstd::prelude::*;

verus! {

/// The first index at or after `from` and before `end` that holds no
/// number sign; `end` if there is none.
pub open spec fn hashes_end(s: Seq<char>, from: int, end: int) -> int
    decreases end - from,
{
    if 0 <= from < end <= s.len() && s[from] == '#' {
        hashes_end(s, from + 1, end)
    } else {
        from
    }
}

/// What closes a string: its quote, and as many number signs as stand
/// before its first quote.
pub open spec fn closing_pattern(quote: char, hashes: int) -> Seq<char> {
    seq![quote] + Seq::new(
        if hashes >= 0 {
            hashes as nat
        } else {
            0
        },
        |i: int| '#',
    )
}

/// The view of what a parser of the pieces of a string returns.
pub open spec fn seen_parts(r: Parsed<Vec<ConfigString>>) -> ParsedView<Seq<ConfigStringView>> {
    match r {
        Ok((x, p)) => Ok((parts_view(x@), p as int)),
        Err(stop) => Err(stop@),
    }
}

/// The pieces of the content of a string from `at` up to `close`, behind
/// `acc`.
#[verifier::opaque]
pub open spec fn pieces_spec(
    src: SourceView,
    at: int,
    close: int,
    depth: nat,
    acc: Seq<ConfigStringView>,
) -> Result<Seq<ConfigStringView>, StopView>
    decreases depth, 105nat, close - at,
{
    if at >= close {
        Ok(acc)
    } else {
        match interpolated_string_spec(src, at, close, depth) {
            Ok((part, next)) => if next <= at || next > close {
                Err(soft_at(at))
            } else {
                pieces_spec(src, next, close, depth, acc.push(part))
            },
            Err(stop) => if stop.trouble == Trouble::Soft {
                Err(soft_at(at))
            } else {
                Err(stop)
            },
        }
    }
}

/// What a string literal is: number signs if one likes, a quote, the
/// content, and the same quote and number signs again. The content ends
/// where the quote and the number signs stand for the first time. Between
/// single quotes the content is text. Between double quotes `${` starts
/// an expression, which `}` ends, and the rest is text.
#[verifier::opaque]
pub open spec fn parse_spec(src: SourceView, pos: int, end: int, depth: nat) -> ParsedView<
    Seq<ConfigStringView>,
>
    decreases depth, 110nat, 0nat,
{
    let s = src.text;
    let p = hashes_end(s, pos, end);
    if !(0 <= p < end <= s.len()) || (s[p] != '"' && s[p] != '\'') {
        Err(soft_at(p))
    } else {
        let start = p + 1;
        let pattern = closing_pattern(s[p], p - pos);
        match find_from(s, pattern, start) {
            None => Err(incomplete_at(start)),
            Some(close) => if close > end || pattern.len() > end - close {
                Err(incomplete_at(start))
            } else if s[p] == '\'' {
                Ok((seq![ConfigStringView::Raw(s.subrange(start, close))], close + pattern.len()))
            } else {
                match pieces_spec(src, start, close, depth, Seq::empty()) {
                    Ok(parts) => Ok((parts, close + pattern.len())),
                    Err(stop) => Err(stop),
                }
            },
        }
    }
}

#[verifier::loop_isolation(false)]
pub fn parse(src: &Source, pos: usize, end: usize, depth: usize) -> (r: Parsed<Vec<ConfigString>>)
    requires
        in_range(src, pos, end),
    ensures
        within(r, pos, end),
        seen_parts(r) == parse_spec(src.view(), pos as int, end as int, depth as nat),
    decreases depth, 110nat,
{
    reveal_with_fuel(interpolated_string_spec, 1);
    reveal_with_fuel(parse_spec, 1);
    reveal_with_fuel(pieces_spec, 1);
    let chars = src.chars();
    let mut p: usize = pos;
    while p < end && chars[p] == '#'
        invariant
            pos <= p <= end <= chars.len(),
            hashes_end(chars@, pos as int, end as int) == hashes_end(chars@, p as int, end as int),
        decreases end - p,
    {
        p = p + 1;
    }
    let hashes: usize = p - pos;
    if p >= end || (chars[p] != '"' && chars[p] != '\'') {
        return Err(soft(p));
    }
    let quote: char = chars[p];
    let start: usize = p + 1;
    let mut pattern: Vec<char> = Vec::new();
    pattern.push(quote);
    let mut k: usize = 0;
    while k < hashes
        invariant
            k <= hashes,
            pattern@ == closing_pattern(quote, k as int),
        decreases hashes - k,
    {
        pattern.push('#');
        k = k + 1;
        assert(pattern@ =~= closing_pattern(quote, k as int));
    }
    let close: usize = match find(chars, &pattern, start) {
        Some(x) => x,
        None => {
            return Err(incomplete(start));
        },
    };
    if close > end || pattern.len() > end - close {
        return Err(incomplete(start));
    }
    let behind: usize = close + pattern.len();
    if quote == '\'' {
        let mut parts: Vec<ConfigString> = Vec::new();
        let part = ConfigString::Raw(text_between(chars, start, close));
        parts.push(part);
        assert(parts_view(parts@) =~= seq![
            ConfigStringView::Raw(chars@.subrange(start as int, close as int)),
        ]);
        return Ok((parts, behind));
    }
    let mut parts: Vec<ConfigString> = Vec::new();
    let mut at: usize = start;
    assert(parts_view(parts@) =~= Seq::<ConfigStringView>::empty());
    while at < close
        invariant
            start <= at <= close,
            pieces_spec(src.view(), start as int, close as int, depth as nat, Seq::empty())
                == pieces_spec(
                src.view(),
                at as int,
                close as int,
                depth as nat,
                parts_view(parts@),
            ),
        decreases close - at,
    {
        match interpolated_string(src, at, close, depth) {
            Ok((part, next)) => {
                if next <= at {
                    return Err(soft(at));
                }
                let ghost before = parts_view(parts@);
                parts.push(part);
                assert(parts_view(parts@) =~= before.push(part@));
                at = next;
            },
            Err(stop) => match stop.trouble {
                Trouble::Soft => {
                    return Err(soft(at));
                },
                _ => {
                    return Err(stop);
                },
            },
        }
    }
    Ok((parts, behind))
}

/// What a piece of the content of a string is: an expression between
/// `${` and `}`, or else the text up to the next `${`.
#[verifier::opaque]
pub open spec fn interpolated_string_spec(src: SourceView, pos: int, end: int, depth: nat)
    -> ParsedView<ConfigStringView>
    decreases depth, 100nat, 0nat,
{
    if pos >= end {
        Err(soft_at(pos))
    } else if has_word(src.text, pos, end, "${"@) {
        match expr_spec(src, skip_blank(src.text, pos + "${"@.len(), end), end, depth) {
            Err(stop) => Err(stop),
            Ok((inner, p)) => {
                let close = skip_blank(src.text, p, end);
                if has_word(src.text, close, end, "}"@) {
                    Ok((ConfigStringView::Interpolated(inner), close + "}"@.len()))
                } else {
                    Err(soft_at(close))
                }
            },
        }
    } else {
        let stop = match find_from(src.text, "${"@, pos) {
            Some(x) => if x < end {
                x
            } else {
                end
            },
            None => end,
        };
        Ok((ConfigStringView::Raw(src.text.subrange(pos, stop)), stop))
    }
}

fn interpolated_string(src: &Source, pos: usize, end: usize, depth: usize) -> (r: Parsed<
    ConfigString,
>)
    requires
        in_range(src, pos, end),
    ensures
        within(r, pos, end),
        seen(r) == interpolated_string_spec(src.view(), pos as int, end as int, depth as nat),
    decreases depth, 100nat,
{
    reveal_with_fuel(interpolated_string_spec, 1);
    if pos >= end {
        return Err(soft(pos));
    }
    let chars = src.chars();
    match tag(src, pos, end, "${") {
        Some(open) => {
            let (inner, p) = match expr(src, ml_space0(src, open, end), end, depth) {
                Ok(found) => found,
                Err(stop) => {
                    return Err(stop);
                },
            };
            let close = ml_space0(src, p, end);
            match tag(src, close, end, "}") {
                Some(q) => Ok((ConfigString::Interpolated(inner), q)),
                None => Err(soft(close)),
            }
        },
        None => {
            let marker = chars_of("${");
            let stop: usize = match find(chars, &marker, pos) {
                Some(x) => if x < end {
                    x
                } else {
                    end
                },
                None => end,
            };
            Ok((ConfigString::Raw(text_between(chars, pos, stop)), stop))
        },
    }
}

} // verus!
