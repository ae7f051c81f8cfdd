//! Errors, and the places in source text that they point at.
use crate::text::{append_chars, chars_of, decimal, natural_of, text_of};
use vstd::prelude::*;
use vstd::string::StringExecFns;

verus! {

/// What went wrong.
#[derive(Clone, Copy, Debug, PartialEq, Eq, Structural)]
pub enum ErrorKind {
    /// The source text is no expression of the language.
    Parse,
    /// An identifier that no scope and no builtin binds.
    UndefinedVariable,
    /// An operation was given a value of the wrong kind.
    TypeMismatch,
    /// A builtin or a method was given the wrong number of arguments, or an
    /// argument that it cannot work with.
    ArityOrArgument,
    /// Something that is no function was applied to arguments.
    NotCallable,
    /// An imported file could not be found, read or understood.
    ImportIo,
    /// A shell command failed.
    ExternalProcess,
    /// A template could not be rendered.
    TemplateRender,
    /// A state that the builder never produces was met.
    Internal,
    /// The expression nests deeper than the evaluation was allowed to go.
    DepthExceeded,
    /// The evaluation stopped at a question that only the host can answer.
    Suspended,
}

/// A place in a source text.
#[derive(Debug, PartialEq, Eq)]
pub struct Location {
    /// The name of the source: a file name, or a name for a text that came
    /// from no file.
    pub source: String,
    /// The line, counted from 1.
    pub line: usize,
    /// The column in the line, counted from 1 in bytes.
    pub column: usize,
    /// The offset from the start of the source, in bytes.
    pub offset: usize,
}

pub struct LocationView {
    pub source: Seq<char>,
    pub line: usize,
    pub column: usize,
    pub offset: usize,
}

impl View for Location {
    type V = LocationView;

    open spec fn view(&self) -> LocationView {
        LocationView {
            source: self.source@,
            line: self.line,
            column: self.column,
            offset: self.offset,
        }
    }
}

impl Clone for Location {
    fn clone(&self) -> (r: Location)
        ensures
            r == *self,
    {
        Location {
            source: self.source.clone(),
            line: self.line,
            column: self.column,
            offset: self.offset,
        }
    }
}

/// The view of a location that may be missing.
pub open spec fn location_view(location: Option<Location>) -> Option<LocationView> {
    match location {
        Some(l) => Some(l@),
        None => None,
    }
}

pub fn clone_location(location: &Option<Location>) -> (r: Option<Location>)
    ensures
        r == *location,
{
    match location {
        Some(l) => Some(l.clone()),
        None => None,
    }
}

/// The text `source:line:column` of a location.
pub open spec fn location_text(l: LocationView) -> Seq<char> {
    l.source + seq![':'] + decimal(l.line as int) + seq![':'] + decimal(l.column as int)
}

impl Location {
    /// The location as `source:line:column`.
    pub fn to_text(&self) -> (r: String)
        ensures
            r@ == location_text(self@),
    {
        let mut out = chars_of(self.source.as_str());
        out.push(':');
        let line = natural_of(self.line);
        append_chars(&mut out, &line);
        out.push(':');
        let column = natural_of(self.column);
        append_chars(&mut out, &column);
        text_of(&out)
    }
}

/// An error, with the place in the source that it is about where one is
/// known.
#[derive(Debug, PartialEq, Eq)]
pub struct ErrorWithLocation {
    pub location: Option<Location>,
    pub message: String,
    pub kind: ErrorKind,
}

pub type Error = ErrorWithLocation;

pub struct ErrorView {
    pub location: Option<LocationView>,
    pub message: Seq<char>,
    pub kind: ErrorKind,
}

impl View for ErrorWithLocation {
    type V = ErrorView;

    open spec fn view(&self) -> ErrorView {
        ErrorView {
            location: location_view(self.location),
            message: self.message@,
            kind: self.kind,
        }
    }
}

impl Clone for ErrorWithLocation {
    fn clone(&self) -> (r: ErrorWithLocation)
        ensures
            r == *self,
    {
        ErrorWithLocation {
            location: clone_location(&self.location),
            message: self.message.clone(),
            kind: self.kind,
        }
    }
}

/// An error of kind `kind` with the message `message` and no location.
pub open spec fn plain_error(kind: ErrorKind, message: Seq<char>) -> ErrorView {
    ErrorView { location: None, message, kind }
}

/// The error `e`, pointing at `location` unless it points somewhere
/// already: the innermost location stays.
pub open spec fn located(e: ErrorView, location: Option<LocationView>) -> ErrorView {
    if e.location is Some {
        e
    } else {
        ErrorView { location, message: e.message, kind: e.kind }
    }
}

/// The text of an error: its location and a colon where it has a location,
/// then its message.
pub open spec fn error_text(e: ErrorView) -> Seq<char> {
    match e.location {
        Some(l) => location_text(l) + ": "@ + e.message,
        None => e.message,
    }
}

impl ErrorWithLocation {
    /// An error without a location.
    pub fn new(kind: ErrorKind, message: &str) -> (r: ErrorWithLocation)
        ensures
            r@ == plain_error(kind, message@),
    {
        ErrorWithLocation { location: None, message: String::from_str(message), kind }
    }

    /// An error without a location, from a message that is already a
    /// `String`.
    pub fn from_message(kind: ErrorKind, message: String) -> (r: ErrorWithLocation)
        ensures
            r@ == plain_error(kind, message@),
    {
        ErrorWithLocation { location: None, message, kind }
    }

    /// The same error, pointing at `location` unless it points somewhere
    /// already.
    pub fn at(self, location: &Option<Location>) -> (r: ErrorWithLocation)
        ensures
            r@ == located(self@, location_view(*location)),
    {
        if self.location.is_some() {
            self
        } else {
            ErrorWithLocation {
                location: clone_location(location),
                message: self.message,
                kind: self.kind,
            }
        }
    }

    /// The error as text: `location: message`, or the message alone.
    pub fn to_text(&self) -> (r: String)
        ensures
            r@ == error_text(self@),
    {
        match &self.location {
            Some(l) => {
                let head = l.to_text();
                head.concat(": ").concat(self.message.as_str())
            },
            None => self.message.clone(),
        }
    }
}

/// A value of one kind where another was expected.
#[derive(Debug)]
pub struct TypeMismatch {
    pub expects: String,
    pub was: String,
}

/// The message of a type mismatch.
pub open spec fn mismatch_text(expects: Seq<char>, was: Seq<char>) -> Seq<char> {
    "Type Mismatch: expects "@ + expects + " but was "@ + was
}

impl TypeMismatch {
    pub fn new(expects: &str, was: &str) -> (r: TypeMismatch)
        ensures
            r.expects@ == expects@,
            r.was@ == was@,
    {
        TypeMismatch { expects: String::from_str(expects), was: String::from_str(was) }
    }

    /// The message: what was expected, and what was there.
    pub fn to_text(&self) -> (r: String)
        ensures
            r@ == mismatch_text(self.expects@, self.was@),
    {
        String::from_str("Type Mismatch: expects ").concat(self.expects.as_str()).concat(
            " but was ",
        ).concat(self.was.as_str())
    }

    /// The mismatch as an error without a location.
    pub fn into_error(self) -> (r: ErrorWithLocation)
        ensures
            r@ == plain_error(ErrorKind::TypeMismatch, mismatch_text(self.expects@, self.was@)),
    {
        ErrorWithLocation::from_message(ErrorKind::TypeMismatch, self.to_text())
    }
}

} // verus!
