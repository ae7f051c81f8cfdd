//! A small, purely functional expression language that produces structured
//! configuration data: maps, lists and scalars, from source text with
//! variables, closures, conditionals, string interpolation and imports.
//!
//! A source text is parsed into a syntax tree, the tree is compiled into a
//! code node, and the node is resolved to a value. The library itself
//! reads no file and starts no process: where a program asks for that, the
//! evaluation stops with a request to the host (see `host`).
pub mod ast;
pub mod context;
pub mod error;
pub mod functions;
pub mod host;
pub mod laws;
pub mod methods;
pub mod node;
pub mod number;
pub mod operators;
pub mod parser;
pub mod resolver;
pub mod serializable;
pub mod source;
pub mod text;
pub mod tree_builder;
pub mod value;
pub mod value_extraction;

pub use crate::ast::ExprWithLocation;
pub use crate::context::{Context, Scopes};
pub use crate::error::{Error, ErrorKind, ErrorWithLocation, Location, TypeMismatch};
pub use crate::host::{Answer, Format, Host, HostView, Request, RequestView};
pub use crate::number::Number;
pub use crate::resolver::resolve;
pub use crate::serializable::SerializableValue;
pub use crate::source::Source;
pub use crate::value::{Dict, Func, Value, ValueString, ValueView};

use crate::error::ErrorView;
use crate::operators::outcome;
use crate::resolver::run_spec;
use vstd::prelude::*;

verus! {

/// How deep an evaluation may go where nothing else is said: as deep as
/// the stack of a thread of the usual size has room for.
pub const DEFAULT_DEPTH: usize = 1500;

/// How an evaluation ended.
#[derive(Debug)]
pub enum Evaluation {
    /// With a value.
    Done(Value),
    /// With an error.
    Failed(ErrorWithLocation),
    /// At a request that the host has yet to answer.
    Pending(Request),
}

pub enum EvaluationView {
    Done(ValueView),
    Failed(ErrorView),
    Pending(RequestView),
}

impl View for Evaluation {
    type V = EvaluationView;

    open spec fn view(&self) -> EvaluationView {
        match self {
            Evaluation::Done(v) => EvaluationView::Done(v@),
            Evaluation::Failed(e) => EvaluationView::Failed(e@),
            Evaluation::Pending(r) => EvaluationView::Pending(r@),
        }
    }
}

/// How the evaluation of an expression ends, given the answers that the
/// host has given so far: at the first request that they do not answer,
/// or else with the value or the error that resolving comes to.
pub open spec fn evaluate_spec(expr: crate::ast::ExprView, answers: Seq<Answer>, depth: nat)
    -> EvaluationView {
    let (result, host) = run_spec(expr, crate::host::fresh(answers), depth);
    match host.pending {
        Some(request) => EvaluationView::Pending(request),
        None => match result {
            Ok(v) => EvaluationView::Done(v),
            Err(e) => EvaluationView::Failed(e),
        },
    }
}

/// Compiles and resolves an expression, with the answers that the host
/// has given so far. Where the result is a request, the host carries it
/// out, adds its answer to the answers, and calls again. The scopes of the
/// evaluation end with it: who wants to call a function that the value
/// holds calls `resolve` with a `Host` of their own and keeps its scopes.
pub fn evaluate(expr: &ExprWithLocation, answers: Vec<Answer>, depth: usize) -> (r: Evaluation)
    ensures
        r@ == evaluate_spec(expr@, answers@, depth as nat),
{
    let mut host = Host::new(answers);
    let result = resolve(expr, &mut host, depth);
    match host.pending {
        Some(request) => Evaluation::Pending(request),
        None => match result {
            Ok(v) => Evaluation::Done(v),
            Err(e) => Evaluation::Failed(e),
        },
    }
}

/// What parsing a source comes to, with expressions allowed to nest as
/// deep as the parser lets them where nothing else is said.
pub open spec fn parse_source_spec(src: crate::source::SourceView) -> Result<
    crate::ast::ExprView,
    ErrorView,
> {
    crate::parser::parse_unit_spec(src, crate::parser::DEFAULT_DEPTH as nat)
}

/// Parses a source.
pub fn parse_source(src: &Source) -> (r: Result<ExprWithLocation, ErrorWithLocation>)
    ensures
        match r {
            Ok(e) => parse_source_spec(src.view()) == Ok::<crate::ast::ExprView, ErrorView>(e@),
            Err(e) => parse_source_spec(src.view()) == Err::<crate::ast::ExprView, ErrorView>(
                e@,
            ),
        },
{
    crate::parser::parse_unit(src, crate::parser::DEFAULT_DEPTH)
}

/// What a program comes to that is given as a text and gets no answer from
/// a host, with `depth` nested resolutions and calls allowed: the error of
/// the parser where the text is no program, and else what compiling and
/// resolving its syntax tree comes to.
pub open spec fn parse_string_spec(input: Seq<char>, depth: nat) -> Result<ValueView, ErrorView> {
    match parse_source_spec(crate::source::SourceView { name: "<input>"@, text: input }) {
        Err(e) => Err(e),
        Ok(expr) => run_spec(expr, crate::host::fresh(Seq::empty()), depth).0,
    }
}

/// Parses, compiles and resolves a program that needs nothing of a host,
/// going at most `depth` nested resolutions and calls deep. Every nested
/// call takes room on the stack of the thread: a greater depth needs a
/// greater stack.
pub fn parse_string_with_depth(input: &str, depth: usize) -> (r: Result<
    Value,
    ErrorWithLocation,
>)
    ensures
        outcome(r) == parse_string_spec(input@, depth as nat),
{
    let src = Source::named("<input>", input);
    match parse_source(&src) {
        Err(e) => Err(e),
        Ok(expr) => {
            let mut host = Host::new(Vec::new());
            resolve(&expr, &mut host, depth)
        },
    }
}

/// Parses, compiles and resolves a program that needs nothing of a host,
/// going as deep as a thread with a stack of the usual size has room for.
/// A program that asks for something that only a host can do ends with
/// an error of the kind `Suspended`.
pub fn parse_string(input: &str) -> (r: Result<Value, ErrorWithLocation>)
    ensures
        outcome(r) == parse_string_spec(input@, DEFAULT_DEPTH as nat),
{
    parse_string_with_depth(input, DEFAULT_DEPTH)
}

} // verus!
