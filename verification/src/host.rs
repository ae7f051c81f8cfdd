//! The host: whoever runs the library, and does for it what only a running
//! program can do.
//!
//! The library reads no file, starts no process and does no floating-point
//! arithmetic. Where an evaluation needs one of these, it stops with a
//! request. The host carries the request out, adds the answer to the
//! answers that it has given so far, and starts the evaluation again with
//! them. Evaluation is deterministic, so the new run asks the same
//! questions in the same order, finds them answered, and gets further.
use crate::ast::BinaryOperator;
use crate::context::{Scopes, ScopesView};
use crate::error::{plain_error, ErrorKind, ErrorView, ErrorWithLocation};
use crate::number::Number;
use crate::value::{Value, ValueView};
use vstd::prelude::*;

verus! {

/// The formats of structured text that a string can be read as.
#[derive(Clone, Copy, Debug, PartialEq, Eq, Structural)]
pub enum Format {
    Json,
    Yaml,
    Toml,
}

/// What the library asks of its host.
#[derive(Clone, Debug, PartialEq)]
pub enum Request {
    /// The content of the file of this name.
    ReadFile(String),
    /// The value of the environment variable of this name.
    GetEnv(String),
    /// What this shell command prints.
    Shell(String),
    /// This template, rendered with this data.
    Render(String, Value),
    /// The map that this text stands for in this format.
    Parse(Format, String),
    /// The result of this operation on two floating-point numbers.
    Arithmetic(BinaryOperator, u64, u64),
    /// The text of this floating-point number.
    Display(u64),
    /// The number that this literal stands for.
    Literal(String),
    /// The canonical path of the file that this path names, where the path
    /// is relative to the directory of the source named first.
    Locate(String, String),
    /// The content of the file at this canonical path.
    Load(String),
}

pub enum RequestView {
    ReadFile(Seq<char>),
    GetEnv(Seq<char>),
    Shell(Seq<char>),
    Render(Seq<char>, ValueView),
    Parse(Format, Seq<char>),
    Arithmetic(BinaryOperator, u64, u64),
    Display(u64),
    Literal(Seq<char>),
    Locate(Seq<char>, Seq<char>),
    Load(Seq<char>),
}

impl View for Request {
    type V = RequestView;

    open spec fn view(&self) -> RequestView {
        match self {
            Request::ReadFile(s) => RequestView::ReadFile(s@),
            Request::GetEnv(s) => RequestView::GetEnv(s@),
            Request::Shell(s) => RequestView::Shell(s@),
            Request::Render(s, v) => RequestView::Render(s@, v@),
            Request::Parse(f, s) => RequestView::Parse(*f, s@),
            Request::Arithmetic(op, a, b) => RequestView::Arithmetic(*op, *a, *b),
            Request::Display(a) => RequestView::Display(*a),
            Request::Literal(s) => RequestView::Literal(s@),
            Request::Locate(from, path) => RequestView::Locate(from@, path@),
            Request::Load(s) => RequestView::Load(s@),
        }
    }
}

/// What the host answers.
#[derive(Clone, Debug, PartialEq)]
pub enum Answer {
    Text(String),
    Value(Value),
    Number(Number),
    /// The request could not be carried out; the text says why.
    Failure(String),
}

/// The state of an evaluation: the answers that the host has given so
/// far, how many of them the evaluation has used, the request that it
/// stopped at, and the scopes that it has made.
#[derive(Debug)]
pub struct Host {
    pub answers: Vec<Answer>,
    pub next: usize,
    pub pending: Option<Request>,
    pub scopes: Scopes,
}

pub struct HostView {
    pub answers: Seq<Answer>,
    pub next: usize,
    pub pending: Option<RequestView>,
    pub scopes: ScopesView,
}

/// The state with other scopes.
pub open spec fn with_scopes(h: HostView, scopes: ScopesView) -> HostView {
    HostView { answers: h.answers, next: h.next, pending: h.pending, scopes }
}

/// The state at the start of an evaluation that has these answers to go
/// by.
pub open spec fn fresh(answers: Seq<Answer>) -> HostView {
    HostView { answers, next: 0, pending: None, scopes: Seq::empty() }
}

impl View for Host {
    type V = HostView;

    open spec fn view(&self) -> HostView {
        HostView {
            answers: self.answers@,
            next: self.next,
            pending: match self.pending {
                Some(r) => Some(r@),
                None => None,
            },
            scopes: self.scopes@,
        }
    }
}

/// What asking does to the host: the index of the answer and the host with
/// that answer used, or no answer and the host with the request noted.
/// Once a request is noted nothing more is answered.
pub open spec fn ask_spec(h: HostView, request: RequestView) -> (Option<int>, HostView) {
    if h.pending is Some {
        (None, h)
    } else if h.next < h.answers.len() {
        (
            Some(h.next as int),
            HostView {
                answers: h.answers,
                next: (h.next + 1) as usize,
                pending: None,
                scopes: h.scopes,
            },
        )
    } else {
        (
            None,
            HostView {
                answers: h.answers,
                next: h.next,
                pending: Some(request),
                scopes: h.scopes,
            },
        )
    }
}

/// The error that stops an evaluation at a request.
pub open spec fn suspended() -> ErrorView {
    plain_error(ErrorKind::Suspended, "waiting for an answer of the host"@)
}

/// The error for an answer of the wrong kind.
pub open spec fn unexpected_answer() -> ErrorView {
    plain_error(ErrorKind::Internal, "the host gave an answer of the wrong kind"@)
}

pub fn suspended_error() -> (r: ErrorWithLocation)
    ensures
        r@ == suspended(),
{
    ErrorWithLocation::new(ErrorKind::Suspended, "waiting for an answer of the host")
}

pub fn unexpected_answer_error() -> (r: ErrorWithLocation)
    ensures
        r@ == unexpected_answer(),
{
    ErrorWithLocation::new(ErrorKind::Internal, "the host gave an answer of the wrong kind")
}

impl Host {
    /// A host that has given these answers, none of them used yet.
    pub fn new(answers: Vec<Answer>) -> (r: Host)
        ensures
            r@ == fresh(answers@),
    {
        Host { answers, next: 0, pending: None, scopes: Scopes::new() }
    }

    /// A state with these answers, none of them used yet, and these
    /// scopes: for calling a function that an earlier evaluation returned.
    pub fn resume(answers: Vec<Answer>, scopes: Scopes) -> (r: Host)
        ensures
            r@ == with_scopes(fresh(answers@), scopes@),
    {
        Host { answers, next: 0, pending: None, scopes }
    }

    /// Asks the host. Returns the index of the answer among the answers,
    /// or `None` where the answer has yet to be given; the request is then
    /// the pending one, unless one was pending already.
    pub fn ask(&mut self, request: Request) -> (r: Option<usize>)
        ensures
            final(self)@ == ask_spec(old(self)@, request@).1,
            match r {
                Some(i) => ask_spec(old(self)@, request@).0 == Some(i as int) && i
                    < old(self).answers.len(),
                None => ask_spec(old(self)@, request@).0 is None,
            },
            final(self).answers == old(self).answers,
    {
        if self.pending.is_some() {
            None
        } else if self.next < self.answers.len() {
            let i: usize = self.next;
            self.next = i + 1;
            Some(i)
        } else {
            self.pending = Some(request);
            None
        }
    }
}

} // verus!
