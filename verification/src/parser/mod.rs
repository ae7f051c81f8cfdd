//! The parser: turns source text into a syntax tree.
//!
//! Every parser takes the source, the index at which it starts, and the
//! index at which the text that it may read ends. It returns what it
//! found together with the index behind it, or the index at which it gave
//! up. Parsers that call other parsers take a depth, which bounds how far
//! expressions may nest.
//!
//! Beside every parser stands a specification function of the same name
//! with `_spec` behind it. It is the grammar: it says for every text what
//! the parser returns.
use crate::ast::{ConfigValue, ConfigValueView, Expr, ExprKind, ExprView, ExprWithLocation};
use crate::error::{ErrorKind, ErrorView, ErrorWithLocation};
use crate::source::{place, Source, SourceView};
use crate::text::{chars_of, starts_at, text_between};
use vstd::prelude::*;
use vstd::string::StringExecFns;

pub mod binary_operators;
pub mod block;
pub mod comparison;
pub mod conditional;
pub mod expr;
pub mod func;
pub mod leaf;
pub mod logical;
pub mod spaces;
pub mod suffix_operators;
pub mod value;

verus! {

/// How a parser gave up.
#[derive(Clone, Copy, Debug, PartialEq, Eq, Structural)]
pub enum Trouble {
    /// This parser does not match; another one may.
    Soft,
    /// The text is wrong; no other parser is tried.
    Hard,
    /// The text ends before what was begun is closed.
    Incomplete,
}

/// Where and how a parser gave up.
#[derive(Clone, Copy, Debug)]
pub struct Stop {
    pub at: usize,
    pub trouble: Trouble,
}

pub struct StopView {
    pub at: int,
    pub trouble: Trouble,
}

impl View for Stop {
    type V = StopView;

    open spec fn view(&self) -> StopView {
        StopView { at: self.at as int, trouble: self.trouble }
    }
}

/// What a parser returns: what it found and the index behind it, or where
/// it gave up.
pub type Parsed<T> = Result<(T, usize), Stop>;

/// What the grammar gives: what is there and the index behind it, or
/// where it is not.
pub type ParsedView<T> = Result<(T, int), StopView>;

/// The view of what a parser returns.
pub open spec fn seen<T: View>(r: Parsed<T>) -> ParsedView<T::V> {
    match r {
        Ok((x, p)) => Ok((x@, p as int)),
        Err(stop) => Err(stop@),
    }
}

/// How deep expressions may nest where nothing else is said.
pub const DEFAULT_DEPTH: usize = 256;

/// Whether the indices are in order and within the text.
pub open spec fn in_range(src: &Source, pos: usize, end: usize) -> bool {
    pos <= end <= src.text().len()
}

/// Whether the result of a parser that started at `pos` lies between
/// `pos` and `end`.
pub open spec fn within<T>(r: Parsed<T>, pos: usize, end: usize) -> bool {
    match r {
        Ok((_, p)) => pos <= p <= end,
        Err(stop) => pos <= stop.at <= end,
    }
}

/// Giving up at `at`, for another parser to try.
pub open spec fn soft_at(at: int) -> StopView {
    StopView { at, trouble: Trouble::Soft }
}

/// Giving up at `at` for good.
pub open spec fn hard_at(at: int) -> StopView {
    StopView { at, trouble: Trouble::Hard }
}

/// Giving up at `at` because the text ends too early.
pub open spec fn incomplete_at(at: int) -> StopView {
    StopView { at, trouble: Trouble::Incomplete }
}

/// The same stop, but for good.
pub open spec fn cut_spec(stop: StopView) -> StopView {
    StopView {
        at: stop.at,
        trouble: if stop.trouble == Trouble::Soft {
            Trouble::Hard
        } else {
            stop.trouble
        },
    }
}

pub fn soft(at: usize) -> (r: Stop)
    ensures
        r@ == soft_at(at as int),
        r.at == at,
{
    Stop { at, trouble: Trouble::Soft }
}

pub fn hard(at: usize) -> (r: Stop)
    ensures
        r@ == hard_at(at as int),
        r.at == at,
{
    Stop { at, trouble: Trouble::Hard }
}

pub fn incomplete(at: usize) -> (r: Stop)
    ensures
        r@ == incomplete_at(at as int),
        r.at == at,
{
    Stop { at, trouble: Trouble::Incomplete }
}

pub fn cut(stop: Stop) -> (r: Stop)
    ensures
        r@ == cut_spec(stop@),
        r.at == stop.at,
{
    match stop.trouble {
        Trouble::Soft => Stop { at: stop.at, trouble: Trouble::Hard },
        _ => stop,
    }
}

/// Whether the text at `pos` starts with `word`, and does so before `end`.
pub open spec fn has_word(s: Seq<char>, pos: int, end: int, word: Seq<char>) -> bool {
    pos + word.len() <= end && crate::text::matches_at(s, pos, word)
}

/// The index behind `word` where the text at `pos` starts with it.
pub fn tag(src: &Source, pos: usize, end: usize, word: &str) -> (r: Option<usize>)
    requires
        in_range(src, pos, end),
    ensures
        match r {
            Some(p) => has_word(src.text(), pos as int, end as int, word@) && p == pos
                + word@.len(),
            None => !has_word(src.text(), pos as int, end as int, word@),
        },
{
    let pattern = chars_of(word);
    if pattern.len() <= end - pos && starts_at(src.chars(), pos, &pattern) {
        Some(pos + pattern.len())
    } else {
        None
    }
}

/// The place in the source of the index `pos`.
pub open spec fn place_in(src: SourceView, pos: int) -> crate::error::LocationView {
    place(src.name, src.text, pos)
}

/// The error of a stop: where the parser gave up, and the first twenty
/// characters of the text that it gave up at. A text that ends too early
/// is an error without a place.
pub open spec fn stop_error_spec(src: SourceView, stop: StopView) -> ErrorView {
    if stop.trouble == Trouble::Incomplete {
        ErrorView { location: None, message: "Incomplete input"@, kind: ErrorKind::Parse }
    } else {
        ErrorView {
            location: Some(place_in(src, stop.at)),
            message: "Cannot parse: '"@ + src.text.subrange(
                stop.at,
                if src.text.len() - stop.at > 20 {
                    stop.at + 20
                } else {
                    src.text.len() as int
                },
            ) + "'"@,
            kind: ErrorKind::Parse,
        }
    }
}

pub fn stop_error(src: &Source, stop: Stop) -> (r: ErrorWithLocation)
    requires
        stop.at <= src.text().len(),
    ensures
        r@ == stop_error_spec(src.view(), stop@),
{
    match stop.trouble {
        Trouble::Incomplete => ErrorWithLocation::new(ErrorKind::Parse, "Incomplete input"),
        _ => {
            let chars = src.chars();
            let upto: usize = if chars.len() - stop.at > 20 {
                stop.at + 20
            } else {
                chars.len()
            };
            let message = String::from_str("Cannot parse: '").concat(
                text_between(chars, stop.at, upto).as_str(),
            ).concat("'");
            ErrorWithLocation {
                location: Some(src.locate(stop.at)),
                message,
                kind: ErrorKind::Parse,
            }
        },
    }
}

/// Whether an identifier and a colon come next: the start of a map
/// without braces.
pub open spec fn starts_map_spec(src: SourceView, pos: int, end: int) -> bool {
    match expr::identifier_spec(src, pos, end) {
        Ok((_, p)) => has_word(src.text, spaces::skip_blank(src.text, p, end), end, ":"@),
        Err(_) => false,
    }
}

fn starts_map(src: &Source, pos: usize, end: usize) -> (r: bool)
    requires
        in_range(src, pos, end),
    ensures
        r == starts_map_spec(src.view(), pos as int, end as int),
{
    match expr::identifier(src, pos, end) {
        Ok((_, p)) => {
            let q = spaces::ml_space0(src, p, end);
            tag(src, q, end, ":").is_some()
        },
        Err(_) => false,
    }
}

/// What a whole source is: a block without its braces where it starts
/// with `let`, a map without its braces where it starts with a name and a
/// colon, and else an expression; with nothing but white space and
/// comments around it, and nothing behind it.
#[verifier::opaque]
pub open spec fn unit_spec(src: SourceView, depth: nat) -> ParsedView<ExprView> {
    let end = src.text.len() as int;
    let space = spaces::skip_blank(src.text, 0, end);
    if has_word(src.text, space, end, "let"@) {
        match block::block_body_spec(src, 0, end, depth) {
            Ok((body, p)) => Ok(
                (
                    ExprView { inner: Box::new(ExprKind::Block(body)), location: place_in(src, 0) },
                    p,
                ),
            ),
            Err(stop) => Err(cut_spec(stop)),
        }
    } else if starts_map_spec(src, space, end) {
        match value::hashmap_body_spec(src, 0, end, depth) {
            Ok((entries, p)) => Ok(
                (
                    ExprView {
                        inner: Box::new(ExprKind::Value(ConfigValueView::HashMap(entries))),
                        location: place_in(src, 0),
                    },
                    p,
                ),
            ),
            Err(stop) => Err(cut_spec(stop)),
        }
    } else {
        match expr::expr_spec(src, space, end, depth) {
            Ok((e, p)) => Ok((e, spaces::skip_blank(src.text, p, end))),
            Err(stop) => Err(stop),
        }
    }
}

/// The syntax tree of a whole source, or the error that says where the
/// source is no program.
pub open spec fn parse_unit_spec(src: SourceView, depth: nat) -> Result<ExprView, ErrorView> {
    match unit_spec(src, depth) {
        Ok((e, p)) => if p == src.text.len() {
            Ok(e)
        } else {
            Err(stop_error_spec(src, soft_at(p)))
        },
        Err(stop) => Err(stop_error_spec(src, stop)),
    }
}

/// Parses a whole source.
pub fn parse_unit(src: &Source, depth: usize) -> (r: Result<ExprWithLocation, ErrorWithLocation>)
    ensures
        match r {
            Ok(e) => parse_unit_spec(src.view(), depth as nat) == Ok::<ExprView, ErrorView>(e@),
            Err(e) => parse_unit_spec(src.view(), depth as nat) == Err::<ExprView, ErrorView>(e@),
        },
{
    reveal(unit_spec);
    let end: usize = src.chars().len();
    let space = spaces::ml_space0(src, 0, end);
    let parsed: Parsed<ExprWithLocation> = if tag(src, space, end, "let").is_some() {
        match block::block_body(src, 0, end, depth) {
            Ok((body, p)) => {
                let e = Expr::Block(body).with_location(src.locate(0));
                assert(e@ == ExprView {
                    inner: Box::new(ExprKind::Block(body@)),
                    location: place_in(src.view(), 0),
                });
                Ok((e, p))
            },
            Err(stop) => Err(cut(stop)),
        }
    } else if starts_map(src, space, end) {
        match value::hashmap_body(src, 0, end, depth) {
            Ok((entries, p)) => {
                let ghost ev = crate::ast::entries_view(entries@);
                let v = ConfigValue::HashMap(entries);
                assert(v@ == ConfigValueView::HashMap(ev));
                let inner = Expr::Value(v);
                assert(inner@ == ExprKind::Value(v@));
                let e = inner.with_location(src.locate(0));
                assert(e@ == ExprView {
                    inner: Box::new(ExprKind::Value(ConfigValueView::HashMap(ev))),
                    location: place_in(src.view(), 0),
                });
                Ok((e, p))
            },
            Err(stop) => Err(cut(stop)),
        }
    } else {
        match expr::expr(src, space, end, depth) {
            Ok((e, p)) => Ok((e, spaces::ml_space0(src, p, end))),
            Err(stop) => Err(stop),
        }
    };
    assert(seen(parsed) == unit_spec(src.view(), depth as nat));
    match parsed {
        Ok((e, p)) => {
            if p == end {
                Ok(e)
            } else {
                Err(stop_error(src, soft(p)))
            }
        },
        Err(stop) => Err(stop_error(src, stop)),
    }
}

} // verus!
