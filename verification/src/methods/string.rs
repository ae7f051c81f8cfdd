//! The methods of strings.
use crate::error::Error;
use crate::functions::is_text;
use crate::host::{ask_spec, suspended, suspended_error, unexpected_answer,
    unexpected_answer_error, Answer, Format, Host, HostView, Request, RequestView};
use crate::methods::hashmap::strings_view;
use crate::operators::{mismatch, mismatch_error, misuse, misuse_error, outcome, Outcome};
use crate::text::{back_whitespace, chars_of, copy_range, is_blank, is_space, is_whitespace,
    join, joined, lines, lines_of, skip_space, skip_whitespace, split, split_by, text_of, texts,
    trim, trim_end, trimmed, trimmed_end};
use crate::value::{values_view, Value, ValueView};
use std::sync::Arc;
use vstd::prelude::*;
use vstd::string::StringExecFns;

verus! {

/// The methods that a string has.
#[derive(Clone, Copy, Debug, PartialEq, Eq, Structural)]
pub enum StringMethod {
    ParseJson,
    ParseYaml,
    ParseToml,
    Trim,
    Split,
    Lines,
    Script,
    Oneline,
}

/// The method of a name.
pub open spec fn method_spec(name: Seq<char>) -> Option<StringMethod> {
    if name == "parse_json"@ {
        Some(StringMethod::ParseJson)
    } else if name == "parse_yaml"@ {
        Some(StringMethod::ParseYaml)
    } else if name == "parse_toml"@ {
        Some(StringMethod::ParseToml)
    } else if name == "trim"@ {
        Some(StringMethod::Trim)
    } else if name == "split"@ {
        Some(StringMethod::Split)
    } else if name == "lines"@ {
        Some(StringMethod::Lines)
    } else if name == "script"@ {
        Some(StringMethod::Script)
    } else if name == "oneline"@ {
        Some(StringMethod::Oneline)
    } else {
        None
    }
}

pub fn method(method_name: &str) -> (r: Option<StringMethod>)
    ensures
        r == method_spec(method_name@),
{
    if is_text(method_name, "parse_json") {
        Some(StringMethod::ParseJson)
    } else if is_text(method_name, "parse_yaml") {
        Some(StringMethod::ParseYaml)
    } else if is_text(method_name, "parse_toml") {
        Some(StringMethod::ParseToml)
    } else if is_text(method_name, "trim") {
        Some(StringMethod::Trim)
    } else if is_text(method_name, "split") {
        Some(StringMethod::Split)
    } else if is_text(method_name, "lines") {
        Some(StringMethod::Lines)
    } else if is_text(method_name, "script") {
        Some(StringMethod::Script)
    } else if is_text(method_name, "oneline") {
        Some(StringMethod::Oneline)
    } else {
        None
    }
}

/// The strings of the given texts, as values.
pub open spec fn text_values(parts: Seq<Seq<char>>) -> Seq<ValueView> {
    Seq::new(parts.len(), |i: int| ValueView::String(parts[i]))
}

/// The list of the strings of the given texts.
pub fn list_of_texts(parts: &Vec<Vec<char>>) -> (r: Value)
    ensures
        r@ == ValueView::List(text_values(texts(parts@))),
{
    let mut out: Vec<Value> = Vec::new();
    let mut i: usize = 0;
    while i < parts.len()
        invariant
            i <= parts.len(),
            out@.len() == i,
            forall|k: int| 0 <= k < i ==> (#[trigger] out@[k])@ == ValueView::String(parts@[k]@),
        decreases parts.len() - i,
    {
        out.push(Value::String(text_of(&parts[i])));
        i = i + 1;
    }
    assert(values_view(out@) =~= text_values(texts(parts@)));
    Value::List(Arc::new(out))
}

/// `string.trim()`: the string without the white space at its two ends.
pub open spec fn trim_spec(s: Seq<char>, args: Seq<ValueView>) -> Outcome {
    if args.len() != 0 {
        Err(misuse("'trim' does not take any arguments"@))
    } else {
        Ok(ValueView::String(trimmed(s)))
    }
}

pub fn trim_string(string: &str, args: &Vec<Value>) -> (r: Result<Value, Error>)
    ensures
        outcome(r) == trim_spec(string@, values_view(args@)),
{
    if args.len() != 0 {
        return Err(misuse_error("'trim' does not take any arguments"));
    }
    let chars = chars_of(string);
    Ok(Value::String(text_of(&trim(&chars))))
}

/// `string.split(separator)`: the list of the pieces that the separator
/// parts the string into.
pub open spec fn split_spec(s: Seq<char>, args: Seq<ValueView>) -> Outcome {
    if args.len() != 1 {
        Err(misuse("'split' takes exactly one argument"@))
    } else {
        match args[0] {
            ValueView::String(sep) => Ok(ValueView::List(text_values(split_by(s, sep)))),
            other => Err(mismatch("string"@, other)),
        }
    }
}

pub fn split_string(string: &str, args: &Vec<Value>) -> (r: Result<Value, Error>)
    ensures
        outcome(r) == split_spec(string@, values_view(args@)),
{
    if args.len() != 1 {
        return Err(misuse_error("'split' takes exactly one argument"));
    }
    match &args[0] {
        Value::String(sep) => {
            let chars = chars_of(string);
            let sep_chars = chars_of(sep.as_str());
            let pieces = split(&chars, &sep_chars);
            assert(texts(pieces@) =~= split_by(string@, sep@));
            Ok(list_of_texts(&pieces))
        },
        other => Err(mismatch_error("string", other)),
    }
}

/// `string.lines()`: the list of the lines of the string.
pub open spec fn lines_spec(s: Seq<char>, args: Seq<ValueView>) -> Outcome {
    if args.len() != 0 {
        Err(misuse("'lines' does not expect any argument"@))
    } else {
        Ok(ValueView::List(text_values(lines_of(s))))
    }
}

pub fn lines_string(string: &str, args: &Vec<Value>) -> (r: Result<Value, Error>)
    ensures
        outcome(r) == lines_spec(string@, values_view(args@)),
{
    if args.len() != 0 {
        return Err(misuse_error("'lines' does not expect any argument"));
    }
    let chars = chars_of(string);
    let pieces = lines(&chars);
    assert(texts(pieces@) =~= lines_of(string@));
    Ok(list_of_texts(&pieces))
}

/// Whether the text starts with white space.
pub open spec fn starts_with_space(s: Seq<char>) -> bool {
    s.len() > 0 && is_space(s[0])
}

pub fn starts_with_whitespace(s: &str) -> (r: bool)
    ensures
        r == starts_with_space(s@),
{
    let chars = chars_of(s);
    chars.len() > 0 && is_whitespace(chars[0])
}

/// Whether the line at index `i` counts as indented text: every line but
/// the first does, and the first does where it starts with white space.
pub open spec fn indented(i: int, line: Seq<char>) -> bool {
    i > 0 || starts_with_space(line)
}

/// The least indentation of the lines from `from` on that count as
/// indented text and are not blank, and `best` if that is less. The
/// indentation of a line is the number of white-space characters that it
/// starts with.
pub open spec fn least_indent_from(lines: Seq<Seq<char>>, from: int, best: Option<int>) -> Option<
    int,
>
    decreases lines.len() - from,
{
    if from < 0 || from >= lines.len() {
        best
    } else {
        let line = lines[from];
        let next = if indented(from, line) && !is_blank(line) {
            match best {
                Some(b) => if skip_space(line, 0) < b {
                    Some(skip_space(line, 0))
                } else {
                    best
                },
                None => Some(skip_space(line, 0)),
            }
        } else {
            best
        };
        least_indent_from(lines, from + 1, next)
    }
}

/// The indentation that the lines share: the least one, and 0 where no
/// line has one.
pub open spec fn indent_of(lines: Seq<Seq<char>>) -> int {
    match least_indent_from(lines, 0, None) {
        Some(n) => n,
        None => 0,
    }
}

/// The line at index `i` without the shared indentation and without the
/// white space at its end.
pub open spec fn cut_line(i: int, line: Seq<char>, indent: int) -> Seq<char> {
    if indented(i, line) && 0 <= indent {
        let from = if indent < line.len() {
            indent
        } else {
            line.len() as int
        };
        let rest = line.subrange(from, line.len() as int);
        trimmed_end(rest)
    } else {
        trimmed_end(line)
    }
}

/// The cut lines from `from` on behind `acc`, without the empty ones that
/// come before the first line that is not empty.
pub open spec fn cut_from(
    lines: Seq<Seq<char>>,
    indent: int,
    from: int,
    started: bool,
    acc: Seq<Seq<char>>,
) -> Seq<Seq<char>>
    decreases lines.len() - from,
{
    if from < 0 || from >= lines.len() {
        acc
    } else {
        let line = cut_line(from, lines[from], indent);
        if started || line.len() > 0 {
            cut_from(lines, indent, from + 1, true, acc.push(line))
        } else {
            cut_from(lines, indent, from + 1, false, acc)
        }
    }
}

/// The lines of a text without the indentation that they share: the white
/// space at the end of the text is dropped, every line loses the shared
/// indentation and the white space at its end, and the empty lines at the
/// start are dropped.
pub open spec fn unindented(s: Seq<char>) -> Seq<Seq<char>> {
    let lines = lines_of(trimmed_end(s));
    cut_from(lines, indent_of(lines), 0, false, Seq::empty())
}

fn blank(line: &Vec<char>) -> (r: bool)
    ensures
        r == is_blank(line@),
{
    skip_whitespace(line, 0) == line.len()
}

fn counts_as_indented(i: usize, line: &Vec<char>) -> (r: bool)
    ensures
        r == indented(i as int, line@),
{
    i > 0 || (line.len() > 0 && is_whitespace(line[0]))
}

fn unindent_chars(string: &Vec<char>) -> (r: Vec<Vec<char>>)
    ensures
        texts(r@) == unindented(string@),
{
    let body = trim_end(string);
    let all = lines(&body);
    assert(texts(all@) =~= lines_of(trimmed_end(string@)));
    let mut best: Option<usize> = None;
    let mut i: usize = 0;
    while i < all.len()
        invariant
            i <= all.len(),
            least_indent_from(texts(all@), 0, None) == least_indent_from(
                texts(all@),
                i as int,
                match best {
                    Some(b) => Some(b as int),
                    None => None,
                },
            ),
        decreases all.len() - i,
    {
        if counts_as_indented(i, &all[i]) && !blank(&all[i]) {
            let indent = skip_whitespace(&all[i], 0);
            match best {
                Some(b) => {
                    if indent < b {
                        best = Some(indent);
                    }
                },
                None => {
                    best = Some(indent);
                },
            }
        }
        i = i + 1;
    }
    let indent: usize = match best {
        Some(b) => b,
        None => 0,
    };
    let mut out: Vec<Vec<char>> = Vec::new();
    let mut started = false;
    let mut k: usize = 0;
    assert(texts(out@) =~= Seq::<Seq<char>>::empty());
    while k < all.len()
        invariant
            k <= all.len(),
            indent == indent_of(texts(all@)),
            unindented(string@) == cut_from(
                texts(all@),
                indent as int,
                k as int,
                started,
                texts(out@),
            ),
        decreases all.len() - k,
    {
        let line = &all[k];
        let from: usize = if counts_as_indented(k, line) {
            if indent < line.len() {
                indent
            } else {
                line.len()
            }
        } else {
            0
        };
        let end = back_whitespace(line, from, line.len());
        let cut = copy_range(line, from, end);
        proof {
            let rest = line@.subrange(from as int, line@.len() as int);
            lemma_back_space_shift(line@, from as int, line@.len() as int);
            assert(cut@ =~= trimmed_end(rest));
            if !indented(k as int, line@) {
                assert(rest =~= line@);
            }
            assert(cut@ == cut_line(k as int, texts(all@)[k as int], indent as int));
        }
        if started || cut.len() > 0 {
            let ghost before = texts(out@);
            out.push(cut);
            assert(texts(out@) =~= before.push(cut@));
            started = true;
        }
        k = k + 1;
    }
    out
}

/// Cutting the white space off the end of a part of a text is the same as
/// cutting it off the end of the text, as far as the part goes.
pub proof fn lemma_back_space_shift(s: Seq<char>, from: int, to: int)
    requires
        0 <= from <= to <= s.len(),
    ensures
        crate::text::back_space(s.subrange(from, s.len() as int), 0, to - from) + from
            == crate::text::back_space(s, from, to),
    decreases to - from,
{
    let rest = s.subrange(from, s.len() as int);
    if from < to {
        assert(rest[to - from - 1] == s[to - 1]);
        if is_space(s[to - 1]) {
            lemma_back_space_shift(s, from, to - 1);
        }
    }
}

/// The lines of a text without the indentation that they share.
pub fn unindent(string: &str) -> (r: Vec<String>)
    ensures
        strings_view(r@) == unindented(string@),
{
    let chars = chars_of(string);
    let cut = unindent_chars(&chars);
    let out = crate::methods::hashmap::strings_of(&cut);
    assert(strings_view(out@) =~= texts(cut@));
    out
}

/// `string.script()`: the text without the indentation that its lines
/// share, its lines joined by line feeds.
pub open spec fn script_spec(s: Seq<char>, args: Seq<ValueView>) -> Outcome {
    if args.len() != 0 {
        Err(misuse("'script' does not take any arguments"@))
    } else {
        Ok(ValueView::String(joined(unindented(s), seq!['\n'])))
    }
}

pub fn script(string: &str, args: &Vec<Value>) -> (r: Result<Value, Error>)
    ensures
        outcome(r) == script_spec(string@, values_view(args@)),
{
    if args.len() != 0 {
        return Err(misuse_error("'script' does not take any arguments"));
    }
    let chars = chars_of(string);
    let cut = unindent_chars(&chars);
    let mut feed: Vec<char> = Vec::new();
    feed.push('\n');
    assert(feed@ == seq!['\n']);
    Ok(Value::String(text_of(&join(&cut, &feed))))
}

/// The lines from `from` on that are not blank, each without the white
/// space at its two ends, behind `acc`.
pub open spec fn words_from(lines: Seq<Seq<char>>, from: int, acc: Seq<Seq<char>>) -> Seq<
    Seq<char>,
>
    decreases lines.len() - from,
{
    if from < 0 || from >= lines.len() {
        acc
    } else if trimmed(lines[from]).len() > 0 {
        words_from(lines, from + 1, acc.push(trimmed(lines[from])))
    } else {
        words_from(lines, from + 1, acc)
    }
}

/// `string.oneline()`: the lines of the text that are not blank, each
/// without the white space at its two ends, joined by single spaces.
pub open spec fn oneline_spec(s: Seq<char>, args: Seq<ValueView>) -> Outcome {
    if args.len() != 0 {
        Err(misuse("'oneline' does not take any arguments"@))
    } else {
        Ok(ValueView::String(joined(words_from(lines_of(s), 0, Seq::empty()), seq![' '])))
    }
}

#[verifier::loop_isolation(false)]
pub fn oneline(string: &str, args: &Vec<Value>) -> (r: Result<Value, Error>)
    ensures
        outcome(r) == oneline_spec(string@, values_view(args@)),
{
    if args.len() != 0 {
        return Err(misuse_error("'oneline' does not take any arguments"));
    }
    let chars = chars_of(string);
    let all = lines(&chars);
    assert(texts(all@) =~= lines_of(string@));
    let mut out: Vec<Vec<char>> = Vec::new();
    let mut i: usize = 0;
    assert(texts(out@) =~= Seq::<Seq<char>>::empty());
    while i < all.len()
        invariant
            i <= all.len(),
            words_from(lines_of(string@), 0, Seq::empty()) == words_from(
                texts(all@),
                i as int,
                texts(out@),
            ),
        decreases all.len() - i,
    {
        let word = trim(&all[i]);
        if word.len() > 0 {
            let ghost before = texts(out@);
            out.push(word);
            assert(texts(out@) =~= before.push(word@));
        }
        i = i + 1;
    }
    let mut space: Vec<char> = Vec::new();
    space.push(' ');
    assert(space@ == seq![' ']);
    Ok(Value::String(text_of(&join(&out, &space))))
}

/// The name of a format in messages.
pub open spec fn format_name(format: Format) -> Seq<char> {
    match format {
        Format::Json => "JSON"@,
        Format::Yaml => "YAML"@,
        Format::Toml => "TOML"@,
    }
}

/// The name of the method that reads a format.
pub open spec fn format_method(format: Format) -> Seq<char> {
    match format {
        Format::Json => "parse_json"@,
        Format::Yaml => "parse_yaml"@,
        Format::Toml => "parse_toml"@,
    }
}

/// `string.parse_json()`, `string.parse_yaml()`, `string.parse_toml()`:
/// the map that the text stands for in the format. The host reads the
/// text; the library takes nothing but a map for an answer.
pub open spec fn parse_spec(format: Format, s: Seq<char>, args: Seq<ValueView>, host: HostView) -> (
    Outcome,
    HostView,
) {
    if args.len() != 0 {
        (
            Err(misuse("'"@ + format_method(format) + "' does not take any arguments"@)),
            host,
        )
    } else {
        let (answer, after) = ask_spec(host, RequestView::Parse(format, s));
        match answer {
            None => (Err(suspended()), after),
            Some(i) => match host.answers[i] {
                Answer::Value(v) => if v@ is HashMap {
                    (Ok(v@), after)
                } else {
                    (
                        Err(
                            misuse(
                                "cannot parse "@ + format_name(format) + ": "@
                                    + "the text does not hold a map"@,
                            ),
                        ),
                        after,
                    )
                },
                Answer::Failure(reason) => (
                    Err(misuse("cannot parse "@ + format_name(format) + ": "@ + reason@)),
                    after,
                ),
                _ => (Err(unexpected_answer()), after),
            },
        }
    }
}

fn name_of(format: Format) -> (r: &'static str)
    ensures
        r@ == format_name(format),
{
    match format {
        Format::Json => "JSON",
        Format::Yaml => "YAML",
        Format::Toml => "TOML",
    }
}

fn method_of(format: Format) -> (r: &'static str)
    ensures
        r@ == format_method(format),
{
    match format {
        Format::Json => "parse_json",
        Format::Yaml => "parse_yaml",
        Format::Toml => "parse_toml",
    }
}

/// Reads the text as a map in the given format.
pub fn parse_text(format: Format, string: &str, args: &Vec<Value>, host: &mut Host) -> (r: Result<
    Value,
    Error,
>)
    ensures
        (outcome(r), final(host)@) == parse_spec(
            format,
            string@,
            values_view(args@),
            old(host)@,
        ),
        final(host).answers == old(host).answers,
{
    if args.len() != 0 {
        let message = String::from_str("'").concat(method_of(format)).concat(
            "' does not take any arguments",
        );
        return Err(
            crate::error::ErrorWithLocation::from_message(
                crate::error::ErrorKind::ArityOrArgument,
                message,
            ),
        );
    }
    match host.ask(Request::Parse(format, String::from_str(string))) {
        None => Err(suspended_error()),
        Some(i) => match &host.answers[i] {
            Answer::Value(v) => {
                match v {
                    Value::HashMap(_) => Ok(v.clone()),
                    _ => {
                        let message = String::from_str("cannot parse ").concat(
                            name_of(format),
                        ).concat(": ").concat("the text does not hold a map");
                        Err(
                            crate::error::ErrorWithLocation::from_message(
                                crate::error::ErrorKind::ArityOrArgument,
                                message,
                            ),
                        )
                    },
                }
            },
            Answer::Failure(reason) => {
                let message = String::from_str("cannot parse ").concat(name_of(format)).concat(
                    ": ",
                ).concat(reason.as_str());
                Err(
                    crate::error::ErrorWithLocation::from_message(
                        crate::error::ErrorKind::ArityOrArgument,
                        message,
                    ),
                )
            },
            _ => Err(unexpected_answer_error()),
        },
    }
}

} // verus!
