//! Source texts.
use crate::error::{Location, LocationView};
use crate::text::{chars_of, utf8_len, utf8_width};
use vstd::prelude::*;
use vstd::string::StringExecFns;

verus! {

/// A source text with the name of where it came from.
#[derive(Debug)]
pub struct Source {
    file: String,
    content: String,
    chars: Vec<char>,
}

/// A source as a mathematical object: its name, and its text.
pub struct SourceView {
    pub name: Seq<char>,
    pub text: Seq<char>,
}

impl Source {
    /// Whether the characters held are those of the content.
    #[verifier::type_invariant]
    pub closed spec fn wf(self) -> bool {
        self.chars@ == self.content@
    }

    /// The name of the source.
    pub closed spec fn name(self) -> Seq<char> {
        self.file@
    }

    /// The text of the source.
    pub closed spec fn text(self) -> Seq<char> {
        self.content@
    }

    /// The name and the text of the source.
    pub open spec fn view(&self) -> SourceView {
        SourceView { name: self.name(), text: self.text() }
    }

    /// A source that came from no file.
    pub fn from_string(content: String) -> (r: Source)
        ensures
            r.text() == content@,
            r.name() == "<input_string>"@,
    {
        let chars = chars_of(content.as_str());
        Source { file: String::from_str("<input_string>"), content, chars }
    }

    /// A source with the given name.
    pub fn named(file: &str, content: &str) -> (r: Source)
        ensures
            r.text() == content@,
            r.name() == file@,
    {
        let chars = chars_of(content);
        Source { file: String::from_str(file), content: String::from_str(content), chars }
    }

    /// The name of the source.
    pub fn file(&self) -> (r: &String)
        ensures
            r@ == self.name(),
    {
        &self.file
    }

    /// The name of the source.
    pub fn path(&self) -> (r: &str)
        ensures
            r@ == self.name(),
    {
        self.file.as_str()
    }

    /// The text of the source.
    pub fn as_str(&self) -> (r: &str)
        ensures
            r@ == self.text(),
    {
        self.content.as_str()
    }

    /// The characters of the text.
    pub fn chars(&self) -> (r: &Vec<char>)
        ensures
            r@ == self.text(),
    {
        proof {
            use_type_invariant(self);
        }
        &self.chars
    }
}

impl Clone for Source {
    /// A copy with the same name and the same text.
    fn clone(&self) -> (r: Source)
        ensures
            r.name() == self.name(),
            r.text() == self.text(),
            r.view() == self.view(),
    {
        proof {
            use_type_invariant(self);
        }
        Source {
            file: self.file.clone(),
            content: self.content.clone(),
            chars: chars_of(self.content.as_str()),
        }
    }
}

/// `a + b`, and the greatest size where the sum is greater.
pub open spec fn capped_sum(a: int, b: int) -> int {
    if a + b > usize::MAX {
        usize::MAX as int
    } else {
        a + b
    }
}

/// The number of line feeds before index `to`, counted from `from`.
pub open spec fn feeds_between(s: Seq<char>, from: int, to: int, acc: int) -> int
    decreases to - from,
{
    if from < 0 || from >= to || from >= s.len() {
        acc
    } else {
        feeds_between(
            s,
            from + 1,
            to,
            if s[from] == '\n' {
                capped_sum(acc, 1)
            } else {
                acc
            },
        )
    }
}

/// The number of bytes that the characters `from..to` take in UTF-8.
pub open spec fn bytes_between(s: Seq<char>, from: int, to: int, acc: int) -> int
    decreases to - from,
{
    if from < 0 || from >= to || from >= s.len() {
        acc
    } else {
        bytes_between(s, from + 1, to, capped_sum(acc, utf8_width(s[from])))
    }
}

/// The index behind the last line feed before `pos`, and 0 where there is
/// none: where the line of `pos` starts.
pub open spec fn line_start(s: Seq<char>, pos: int) -> int
    decreases pos,
{
    if pos <= 0 || pos > s.len() {
        0
    } else if s[pos - 1] == '\n' {
        pos
    } else {
        line_start(s, pos - 1)
    }
}

/// The place of index `pos` in a text: its line, counted from 1, its
/// column in bytes, counted from 1, and its offset in bytes. Numbers that
/// do not fit are replaced by the greatest that does.
pub open spec fn place(name: Seq<char>, s: Seq<char>, pos: int) -> LocationView {
    LocationView {
        source: name,
        line: feeds_between(s, 0, pos, 1) as usize,
        column: bytes_between(s, line_start(s, pos), pos, 1) as usize,
        offset: bytes_between(s, 0, pos, 0) as usize,
    }
}

fn add_capped(a: usize, b: usize) -> (r: usize)
    ensures
        r == capped_sum(a as int, b as int),
{
    if a > usize::MAX - b {
        usize::MAX
    } else {
        a + b
    }
}

fn count_bytes(chars: &Vec<char>, from: usize, to: usize, start: usize) -> (r: usize)
    requires
        from <= to <= chars.len(),
    ensures
        r == bytes_between(chars@, from as int, to as int, start as int),
{
    let mut acc: usize = start;
    let mut i: usize = from;
    while i < to
        invariant
            from <= i <= to <= chars.len(),
            bytes_between(chars@, from as int, to as int, start as int) == bytes_between(
                chars@,
                i as int,
                to as int,
                acc as int,
            ),
        decreases to - i,
    {
        acc = add_capped(acc, utf8_len(chars[i]));
        i = i + 1;
    }
    acc
}

impl Source {
    /// The place of the character at index `pos`.
    pub fn locate(&self, pos: usize) -> (r: Location)
        requires
            pos <= self.text().len(),
        ensures
            r@ == place(self.name(), self.text(), pos as int),
    {
        let chars = self.chars();
        let mut line: usize = 1;
        let mut i: usize = 0;
        while i < pos
            invariant
                i <= pos <= chars.len(),
                feeds_between(chars@, 0, pos as int, 1) == feeds_between(
                    chars@,
                    i as int,
                    pos as int,
                    line as int,
                ),
            decreases pos - i,
        {
            if chars[i] == '\n' {
                line = add_capped(line, 1);
            }
            i = i + 1;
        }
        let mut start: usize = pos;
        while start > 0 && chars[start - 1] != '\n'
            invariant
                start <= pos <= chars.len(),
                line_start(chars@, pos as int) == line_start(chars@, start as int),
            decreases start,
        {
            start = start - 1;
        }
        let column = count_bytes(chars, start, pos, 1);
        let offset = count_bytes(chars, 0, pos, 0);
        Location { source: self.file.clone(), line, column, offset }
    }
}

} // verus!
