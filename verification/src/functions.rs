//! The functions that a program calls by name, and the one that string
//! interpolation compiles to.
use crate::error::{plain_error, Error, ErrorKind, ErrorView, ErrorWithLocation};
use crate::host::{ask_spec, suspended, suspended_error, unexpected_answer,
    unexpected_answer_error, Answer, Host, HostView, Request, RequestView};
use crate::number::Number;
use crate::operators::{mismatch, mismatch_error, misuse, misuse_error, outcome, Outcome};
use crate::text::{decimal, decimal_of, text_of};
use crate::value::{values_view, Builtin, Value, ValueView};
use std::sync::Arc;
use vstd::prelude::*;
use vstd::string::StringExecFns;

verus! {

/// The builtin of a name, for the names that programs can call.
pub open spec fn lookup_spec(name: Seq<char>) -> Option<Builtin> {
    if name == "read_file"@ {
        Some(Builtin::ReadFile)
    } else if name == "getenv"@ {
        Some(Builtin::GetEnv)
    } else if name == "concat"@ {
        Some(Builtin::Concat)
    } else if name == "shell"@ {
        Some(Builtin::Shell)
    } else if name == "handlebars"@ {
        Some(Builtin::Handlebars)
    } else {
        None
    }
}

/// Whether a string slice is this text.
pub fn is_text(name: &str, text: &str) -> (r: bool)
    ensures
        r == (name@ == text@),
{
    String::from_str(name) == String::from_str(text)
}

pub fn lookup(function_name: &str) -> (r: Option<Builtin>)
    ensures
        r == lookup_spec(function_name@),
{
    if is_text(function_name, "read_file") {
        Some(Builtin::ReadFile)
    } else if is_text(function_name, "getenv") {
        Some(Builtin::GetEnv)
    } else if is_text(function_name, "concat") {
        Some(Builtin::Concat)
    } else if is_text(function_name, "shell") {
        Some(Builtin::Shell)
    } else if is_text(function_name, "handlebars") {
        Some(Builtin::Handlebars)
    } else {
        None
    }
}

pub proof fn lemma_values_view_push(values: Seq<Value>, v: Value)
    ensures
        values_view(values.push(v)) == values_view(values).push(v@),
{
    assert(values_view(values.push(v)) =~= values_view(values).push(v@));
}

pub proof fn lemma_values_view_add(a: Seq<Value>, b: Seq<Value>)
    ensures
        values_view(a + b) == values_view(a) + values_view(b),
{
    assert(values_view(a + b) =~= values_view(a) + values_view(b));
}

/// Appends copies of the values of `more` to `out`.
pub fn extend_values(out: &mut Vec<Value>, more: &Vec<Value>)
    ensures
        final(out)@ == old(out)@ + more@,
        values_view(final(out)@) == values_view(old(out)@) + values_view(more@),
{
    let mut i: usize = 0;
    while i < more.len()
        invariant
            i <= more.len(),
            out@ == old(out)@ + more@.subrange(0, i as int),
        decreases more.len() - i,
    {
        out.push(more[i].clone());
        i = i + 1;
        assert(more@.subrange(0, i as int) == more@.subrange(0, i - 1).push(more@[i - 1]));
    }
    proof {
        assert(more@.subrange(0, more.len() as int) == more@);
        lemma_values_view_add(old(out)@, more@);
    }
}

/// The text of a boolean.
pub open spec fn bool_text(b: bool) -> Seq<char> {
    if b {
        "true"@
    } else {
        "false"@
    }
}

/// The texts of the arguments from `from` on, appended to `acc`: a string
/// as it is, an integer in decimal, a boolean as `true` or `false`, and a
/// floating-point number as the host writes it. Nothing else has a text.
pub open spec fn concat_strings_from(
    args: Seq<ValueView>,
    host: HostView,
    from: int,
    acc: Seq<char>,
) -> (Outcome, HostView)
    decreases args.len() - from,
{
    if from < 0 || from >= args.len() {
        (Ok(ValueView::String(acc)), host)
    } else {
        match args[from] {
            ValueView::String(s) => concat_strings_from(args, host, from + 1, acc + s),
            ValueView::Number(Number::Int(x)) => concat_strings_from(
                args,
                host,
                from + 1,
                acc + decimal(x as int),
            ),
            ValueView::Bool(b) => concat_strings_from(args, host, from + 1, acc + bool_text(b)),
            ValueView::Number(Number::Float(bits)) => {
                let (answer, after) = ask_spec(host, RequestView::Display(bits));
                match answer {
                    None => (Err(suspended()), after),
                    Some(i) => match host.answers[i] {
                        Answer::Text(t) => concat_strings_from(args, after, from + 1, acc + t@),
                        _ => (Err(unexpected_answer()), after),
                    },
                }
            },
            _ => (
                Err(plain_error(ErrorKind::TypeMismatch, "Cannot format a non-primitive type"@)),
                host,
            ),
        }
    }
}

/// The texts of all arguments, one after the other, as one string.
pub open spec fn concat_strings_spec(args: Seq<ValueView>, host: HostView) -> (
    Outcome,
    HostView,
) {
    concat_strings_from(args, host, 0, Seq::empty())
}

pub fn concat_strings(args: &Vec<Value>, host: &mut Host) -> (r: Result<Value, Error>)
    ensures
        (outcome(r), final(host)@) == concat_strings_spec(values_view(args@), old(host)@),
        final(host).answers == old(host).answers,
{
    let mut out = String::new();
    let mut i: usize = 0;
    while i < args.len()
        invariant
            i <= args.len(),
            host.answers == old(host).answers,
            concat_strings_spec(values_view(args@), old(host)@) == concat_strings_from(
                values_view(args@),
                host@,
                i as int,
                out@,
            ),
        decreases args.len() - i,
    {
        match &args[i] {
            Value::String(s) => {
                out.append(s.as_str());
            },
            Value::Number(Number::Int(x)) => {
                let digits = text_of(&decimal_of(*x));
                out.append(digits.as_str());
            },
            Value::Bool(b) => {
                if *b {
                    out.append("true");
                } else {
                    out.append("false");
                }
            },
            Value::Number(Number::Float(bits)) => {
                match host.ask(Request::Display(*bits)) {
                    None => {
                        return Err(suspended_error());
                    },
                    Some(k) => match &host.answers[k] {
                        Answer::Text(t) => {
                            out.append(t.as_str());
                        },
                        _ => {
                            return Err(unexpected_answer_error());
                        },
                    },
                }
            },
            _ => {
                return Err(
                    ErrorWithLocation::new(
                        ErrorKind::TypeMismatch,
                        "Cannot format a non-primitive type",
                    ),
                );
            },
        }
        i = i + 1;
    }
    Ok(Value::String(out))
}

/// The items of the lists from `from` on, appended to `acc`.
pub open spec fn concat_from(args: Seq<ValueView>, from: int, acc: Seq<ValueView>) -> Outcome
    decreases args.len() - from,
{
    if from < 0 || from >= args.len() {
        Ok(ValueView::List(acc))
    } else {
        match args[from] {
            ValueView::List(items) => concat_from(args, from + 1, acc + items),
            other => Err(mismatch("list"@, other)),
        }
    }
}

/// The list of the items of all the lists given, in order.
pub open spec fn concat_spec(args: Seq<ValueView>) -> Outcome {
    if args.len() == 0 {
        Err(misuse("Concat requires at least one argument as a list"@))
    } else {
        concat_from(args, 0, Seq::empty())
    }
}

pub fn concat(args: &Vec<Value>) -> (r: Result<Value, Error>)
    ensures
        outcome(r) == concat_spec(values_view(args@)),
{
    if args.len() == 0 {
        return Err(misuse_error("Concat requires at least one argument as a list"));
    }
    let mut out: Vec<Value> = Vec::new();
    let mut i: usize = 0;
    assert(values_view(out@) == Seq::<ValueView>::empty());
    while i < args.len()
        invariant
            i <= args.len(),
            concat_spec(values_view(args@)) == concat_from(
                values_view(args@),
                i as int,
                values_view(out@),
            ),
        decreases args.len() - i,
    {
        match &args[i] {
            Value::List(items) => {
                extend_values(&mut out, items);
            },
            other => {
                return Err(mismatch_error("list", other));
            },
        }
        i = i + 1;
    }
    Ok(Value::List(Arc::new(out)))
}

/// What a request for a text comes to: the text as a string, or an error
/// of kind `kind` with the host's reason behind `prefix`.
pub open spec fn text_answer(
    host: HostView,
    request: RequestView,
    kind: ErrorKind,
    prefix: Seq<char>,
) -> (Outcome, HostView) {
    let (answer, after) = ask_spec(host, request);
    match answer {
        None => (Err(suspended()), after),
        Some(i) => match host.answers[i] {
            Answer::Text(t) => (Ok(ValueView::String(t@)), after),
            Answer::Failure(reason) => (Err(plain_error(kind, prefix + reason@)), after),
            _ => (Err(unexpected_answer()), after),
        },
    }
}

/// Asks the host for a text.
pub fn ask_text(host: &mut Host, request: Request, kind: ErrorKind, prefix: &str) -> (r: Result<
    Value,
    Error,
>)
    ensures
        (outcome(r), final(host)@) == text_answer(old(host)@, request@, kind, prefix@),
        final(host).answers == old(host).answers,
{
    match host.ask(request) {
        None => Err(suspended_error()),
        Some(i) => match &host.answers[i] {
            Answer::Text(t) => Ok(Value::String(t.clone())),
            Answer::Failure(reason) => Err(
                ErrorWithLocation::from_message(
                    kind,
                    String::from_str(prefix).concat(reason.as_str()),
                ),
            ),
            _ => Err(unexpected_answer_error()),
        },
    }
}

/// `read_file(name)`: the content of a file, which the host reads.
pub open spec fn read_file_spec(args: Seq<ValueView>, host: HostView) -> (Outcome, HostView) {
    if args.len() != 1 {
        (Err(misuse("'read_file' expects a single string argument"@)), host)
    } else {
        match args[0] {
            ValueView::String(name) => text_answer(
                host,
                RequestView::ReadFile(name),
                ErrorKind::ImportIo,
                ""@,
            ),
            other => (Err(mismatch("string"@, other)), host),
        }
    }
}

pub fn read_file(args: &Vec<Value>, host: &mut Host) -> (r: Result<Value, Error>)
    ensures
        (outcome(r), final(host)@) == read_file_spec(values_view(args@), old(host)@),
        final(host).answers == old(host).answers,
{
    if args.len() != 1 {
        return Err(misuse_error("'read_file' expects a single string argument"));
    }
    match &args[0] {
        Value::String(name) => ask_text(
            host,
            Request::ReadFile(name.clone()),
            ErrorKind::ImportIo,
            "",
        ),
        other => Err(mismatch_error("string", other)),
    }
}

/// `getenv(name)` and `getenv(name, default)`: the value of an environment
/// variable, which the host reads. Where the variable has no value the
/// default takes its place, and without a default that is an error.
pub open spec fn getenv_spec(args: Seq<ValueView>, host: HostView) -> (Outcome, HostView) {
    if args.len() == 0 || args.len() > 2 {
        (Err(misuse("'getenv' expects a string argument with an optional default value"@)), host)
    } else {
        match args[0] {
            ValueView::String(name) => {
                let (answer, after) = ask_spec(host, RequestView::GetEnv(name));
                match answer {
                    None => (Err(suspended()), after),
                    Some(i) => match host.answers[i] {
                        Answer::Text(t) => (Ok(ValueView::String(t@)), after),
                        _ => if args.len() == 2 {
                            (Ok(args[1]), after)
                        } else {
                            (
                                Err(
                                    misuse(
                                        "Environment variable '"@ + name + "' is not set"@,
                                    ),
                                ),
                                after,
                            )
                        },
                    },
                }
            },
            other => (Err(mismatch("string"@, other)), host),
        }
    }
}

pub fn getenv(args: &Vec<Value>, host: &mut Host) -> (r: Result<Value, Error>)
    ensures
        (outcome(r), final(host)@) == getenv_spec(values_view(args@), old(host)@),
        final(host).answers == old(host).answers,
{
    if args.len() == 0 || args.len() > 2 {
        return Err(
            misuse_error("'getenv' expects a string argument with an optional default value"),
        );
    }
    match &args[0] {
        Value::String(name) => {
            match host.ask(Request::GetEnv(name.clone())) {
                None => Err(suspended_error()),
                Some(i) => match &host.answers[i] {
                    Answer::Text(t) => Ok(Value::String(t.clone())),
                    _ => {
                        if args.len() == 2 {
                            Ok(args[1].clone())
                        } else {
                            let message = String::from_str("Environment variable '").concat(
                                name.as_str(),
                            ).concat("' is not set");
                            Err(ErrorWithLocation::from_message(ErrorKind::ArityOrArgument, message))
                        }
                    },
                },
            }
        },
        other => Err(mismatch_error("string", other)),
    }
}

/// `shell(command)`: what a shell command prints, which the host runs.
pub open spec fn shell_spec(args: Seq<ValueView>, host: HostView) -> (Outcome, HostView) {
    if args.len() != 1 {
        (Err(misuse("SHELL requires a single string argument"@)), host)
    } else {
        match args[0] {
            ValueView::String(command) => text_answer(
                host,
                RequestView::Shell(command),
                ErrorKind::ExternalProcess,
                ""@,
            ),
            other => (Err(mismatch("string"@, other)), host),
        }
    }
}

pub fn shell(args: &Vec<Value>, host: &mut Host) -> (r: Result<Value, Error>)
    ensures
        (outcome(r), final(host)@) == shell_spec(values_view(args@), old(host)@),
        final(host).answers == old(host).answers,
{
    if args.len() != 1 {
        return Err(misuse_error("SHELL requires a single string argument"));
    }
    match &args[0] {
        Value::String(command) => ask_text(
            host,
            Request::Shell(command.clone()),
            ErrorKind::ExternalProcess,
            "",
        ),
        other => Err(mismatch_error("string", other)),
    }
}

/// `handlebars(template, data)`: the template rendered with the data, which
/// the host does.
pub open spec fn handlebars_spec(args: Seq<ValueView>, host: HostView) -> (Outcome, HostView) {
    if args.len() != 2 {
        (Err(misuse("handlebars function expects two arguments"@)), host)
    } else {
        match args[0] {
            ValueView::String(template) => text_answer(
                host,
                RequestView::Render(template, args[1]),
                ErrorKind::TemplateRender,
                "cannot render template: "@,
            ),
            other => (Err(mismatch("string"@, other)), host),
        }
    }
}

pub fn handlebars_template(args: &Vec<Value>, host: &mut Host) -> (r: Result<Value, Error>)
    ensures
        (outcome(r), final(host)@) == handlebars_spec(values_view(args@), old(host)@),
        final(host).answers == old(host).answers,
{
    if args.len() != 2 {
        return Err(misuse_error("handlebars function expects two arguments"));
    }
    match &args[0] {
        Value::String(template) => ask_text(
            host,
            Request::Render(template.clone(), args[1].clone()),
            ErrorKind::TemplateRender,
            "cannot render template: ",
        ),
        other => Err(mismatch_error("string", other)),
    }
}

} // verus!
