//! Methods of maps, lists and strings, and the one builtin that finds them.
use crate::error::{plain_error, Error, ErrorKind, ErrorView, ErrorWithLocation};
use crate::methods::hashmap::{entry_of, get_entry};
use crate::number::Number;
use crate::operators::{mismatch, mismatch_error, misuse, misuse_error, outcome, Outcome};
use crate::value::{values_view, Func, FuncView, Method, MethodView, Value, ValueView};
use vstd::prelude::*;
use vstd::string::StringExecFns;

pub mod hashmap;
pub mod list;
pub mod string;

verus! {

/// The error for a name that is neither a field nor a method.
pub open spec fn no_such(name: Seq<char>) -> ErrorView {
    misuse("no such field or method: "@ + name)
}

/// The error for a receiver and a key that the tree builder never puts
/// together.
pub open spec fn no_access() -> ErrorView {
    plain_error(ErrorKind::Internal, "this value cannot be looked into with this key"@)
}

/// The one function behind `value.name` and `value[key]`. What it does
/// goes by the kind of the value. On a map, a key that the map holds gives
/// the value under it, and any other key the map's method of that name. On
/// a list, an integer gives the item at that index, and a string the
/// list's method of that name. On a string, a string gives the string's
/// method of that name. A method comes as a function that holds the value
/// it was looked up on. Everything else is an error.
pub open spec fn index_spec(args: Seq<ValueView>) -> Outcome {
    if args.len() < 2 {
        Err(misuse("expects 2 arguments"@))
    } else {
        match args[0] {
            ValueView::HashMap(e) => match args[1] {
                ValueView::String(key) => match entry_of(e, key) {
                    Some(v) => Ok(v),
                    None => match hashmap::method_spec(key) {
                        Some(m) => Ok(
                            ValueView::Func(FuncView::BuiltInMethod(MethodView::HashMap(e, m))),
                        ),
                        None => Err(no_such(key)),
                    },
                },
                other => Err(mismatch("string"@, other)),
            },
            ValueView::List(items) => match args[1] {
                ValueView::Number(Number::Int(i)) => if 0 <= i < items.len() {
                    Ok(items[i as int])
                } else {
                    Err(misuse("No such element"@))
                },
                ValueView::Number(Number::Float(_)) => Err(misuse("expects int"@)),
                ValueView::String(key) => match list::method_spec(key) {
                    Some(m) => Ok(
                        ValueView::Func(FuncView::BuiltInMethod(MethodView::List(items, m))),
                    ),
                    None => Err(no_such(key)),
                },
                _ => Err(no_access()),
            },
            ValueView::String(s) => match args[1] {
                ValueView::String(key) => match string::method_spec(key) {
                    Some(m) => Ok(
                        ValueView::Func(FuncView::BuiltInMethod(MethodView::String(s, m))),
                    ),
                    None => Err(no_such(key)),
                },
                _ => Err(no_access()),
            },
            _ => Err(no_access()),
        }
    }
}

fn no_such_error(name: &String) -> (r: ErrorWithLocation)
    ensures
        r@ == no_such(name@),
{
    ErrorWithLocation::from_message(
        ErrorKind::ArityOrArgument,
        String::from_str("no such field or method: ").concat(name.as_str()),
    )
}

fn no_access_error() -> (r: ErrorWithLocation)
    ensures
        r@ == no_access(),
{
    ErrorWithLocation::new(ErrorKind::Internal, "this value cannot be looked into with this key")
}

pub fn index(args: &Vec<Value>) -> (r: Result<Value, Error>)
    ensures
        outcome(r) == index_spec(values_view(args@)),
{
    if args.len() < 2 {
        return Err(misuse_error("expects 2 arguments"));
    }
    assert(values_view(args@)[0] == args@[0]@);
    assert(values_view(args@)[1] == args@[1]@);
    match &args[0] {
        Value::HashMap(hm) => match &args[1] {
            Value::String(key) => match get_entry(hm.entries(), key) {
                Some(v) => Ok(v.clone()),
                None => match hashmap::method(key.as_str()) {
                    Some(m) => Ok(Func::new_method(Method::on_map(hm, m)).into_value()),
                    None => Err(no_such_error(key)),
                },
            },
            other => Err(mismatch_error("string", other)),
        },
        Value::List(list) => match &args[1] {
            Value::Number(Number::Int(i)) => {
                let count: usize = list.len();
                match Number::Int(*i).as_usize() {
                    Some(at) => {
                        if at < count {
                            assert(values_view(list@)[at as int] == list@[at as int]@);
                            Ok(list[at].clone())
                        } else {
                            Err(misuse_error("No such element"))
                        }
                    },
                    None => Err(misuse_error("No such element")),
                }
            },
            Value::Number(Number::Float(_)) => Err(misuse_error("expects int")),
            Value::String(key) => match list::method(key.as_str()) {
                Some(m) => Ok(Func::new_method(Method::on_list(list, m)).into_value()),
                None => Err(no_such_error(key)),
            },
            _ => Err(no_access_error()),
        },
        Value::String(string) => match &args[1] {
            Value::String(key) => match string::method(key.as_str()) {
                Some(m) => Ok(Func::new_method(Method::on_string(string, m)).into_value()),
                None => Err(no_such_error(key)),
            },
            _ => Err(no_access_error()),
        },
        _ => Err(no_access_error()),
    }
}

} // verus!
