//! The methods of lists.
use crate::error::{Error, ErrorView};
use crate::functions::{extend_values, is_text};
use crate::methods::hashmap::{put, put_entry};
use crate::number::Number;
use crate::operators::{mismatch, mismatch_error, misuse, misuse_error, outcome, Outcome};
use crate::text::{chars_of, join as join_texts, joined, text_of, texts};
use crate::value::{entries_view, values_view, EntriesView, Value, ValueString, ValueView};
use std::sync::Arc;
use vstd::prelude::*;

verus! {

/// The methods that a list has.
#[derive(Clone, Copy, Debug, PartialEq, Eq, Structural)]
pub enum ListMethod {
    MapEach,
    Filter,
    Len,
    Append,
    Join,
    Fold,
    ToHashmap,
}

/// The method of a name.
pub open spec fn method_spec(name: Seq<char>) -> Option<ListMethod> {
    if name == "map"@ {
        Some(ListMethod::MapEach)
    } else if name == "filter"@ {
        Some(ListMethod::Filter)
    } else if name == "len"@ {
        Some(ListMethod::Len)
    } else if name == "append"@ {
        Some(ListMethod::Append)
    } else if name == "join"@ {
        Some(ListMethod::Join)
    } else if name == "fold"@ {
        Some(ListMethod::Fold)
    } else if name == "to_hashmap"@ {
        Some(ListMethod::ToHashmap)
    } else {
        None
    }
}

pub fn method(name: &str) -> (r: Option<ListMethod>)
    ensures
        r == method_spec(name@),
{
    if is_text(name, "map") {
        Some(ListMethod::MapEach)
    } else if is_text(name, "filter") {
        Some(ListMethod::Filter)
    } else if is_text(name, "len") {
        Some(ListMethod::Len)
    } else if is_text(name, "append") {
        Some(ListMethod::Append)
    } else if is_text(name, "join") {
        Some(ListMethod::Join)
    } else if is_text(name, "fold") {
        Some(ListMethod::Fold)
    } else if is_text(name, "to_hashmap") {
        Some(ListMethod::ToHashmap)
    } else {
        None
    }
}

/// `list.len()`: the number of items.
pub open spec fn len_spec(items: Seq<ValueView>, args: Seq<ValueView>) -> Outcome {
    if args.len() != 0 {
        Err(misuse("expects no arguments"@))
    } else {
        Ok(
            ValueView::Number(
                Number::Int(
                    if items.len() <= i64::MAX {
                        items.len() as i64
                    } else {
                        i64::MAX
                    },
                ),
            ),
        )
    }
}

pub fn len(list: &Vec<Value>, args: &Vec<Value>) -> (r: Result<Value, Error>)
    ensures
        outcome(r) == len_spec(values_view(list@), values_view(args@)),
{
    if args.len() != 0 {
        return Err(misuse_error("expects no arguments"));
    }
    Ok(Value::Number(Number::from_len(list.len())))
}

/// `list.append(a, b, ...)`: the list with the arguments behind its items.
pub open spec fn append_spec(items: Seq<ValueView>, args: Seq<ValueView>) -> Outcome {
    Ok(ValueView::List(items + args))
}

pub fn append(list: &Vec<Value>, args: &Vec<Value>) -> (r: Result<Value, Error>)
    ensures
        outcome(r) == append_spec(values_view(list@), values_view(args@)),
{
    let mut out: Vec<Value> = Vec::new();
    extend_values(&mut out, list);
    extend_values(&mut out, args);
    assert(values_view(out@) =~= values_view(list@) + values_view(args@));
    Ok(Value::List(Arc::new(out)))
}

/// The texts of the items from `from` on, behind `acc`; an error at the
/// first item that is no string.
pub open spec fn texts_from(items: Seq<ValueView>, from: int, acc: Seq<Seq<char>>) -> Result<
    Seq<Seq<char>>,
    ErrorView,
>
    decreases items.len() - from,
{
    if from < 0 || from >= items.len() {
        Ok(acc)
    } else {
        match items[from] {
            ValueView::String(s) => texts_from(items, from + 1, acc.push(s)),
            other => Err(mismatch("string"@, other)),
        }
    }
}

/// `list.join(separator)`: the strings of the list as one string, with the
/// separator between each two.
pub open spec fn join_spec(items: Seq<ValueView>, args: Seq<ValueView>) -> Outcome {
    if args.len() != 1 {
        Err(misuse("'join' takes exactly one argument"@))
    } else {
        match texts_from(items, 0, Seq::empty()) {
            Err(e) => Err(e),
            Ok(parts) => match args[0] {
                ValueView::String(sep) => Ok(ValueView::String(joined(parts, sep))),
                other => Err(mismatch("string"@, other)),
            },
        }
    }
}

#[verifier::loop_isolation(false)]
pub fn join(list: &Vec<Value>, args: &Vec<Value>) -> (r: Result<Value, Error>)
    ensures
        outcome(r) == join_spec(values_view(list@), values_view(args@)),
{
    if args.len() != 1 {
        return Err(misuse_error("'join' takes exactly one argument"));
    }
    let mut parts: Vec<Vec<char>> = Vec::new();
    let mut i: usize = 0;
    assert(texts(parts@) =~= Seq::<Seq<char>>::empty());
    while i < list.len()
        invariant
            i <= list.len(),
            texts_from(values_view(list@), 0, Seq::empty()) == texts_from(
                values_view(list@),
                i as int,
                texts(parts@),
            ),
        decreases list.len() - i,
    {
        match &list[i] {
            Value::String(s) => {
                let ghost before = texts(parts@);
                parts.push(chars_of(s.as_str()));
                assert(texts(parts@) =~= before.push(s@));
            },
            other => {
                return Err(mismatch_error("string", other));
            },
        }
        i = i + 1;
    }
    match &args[0] {
        Value::String(sep) => {
            let sep_chars = chars_of(sep.as_str());
            Ok(Value::String(text_of(&join_texts(&parts, &sep_chars))))
        },
        other => Err(mismatch_error("string", other)),
    }
}

/// The items from `from` on, each a list of a key and a value, put into
/// `acc` one after the other.
pub open spec fn to_hashmap_from(items: Seq<ValueView>, from: int, acc: EntriesView) -> Outcome
    decreases items.len() - from,
{
    if from < 0 || from >= items.len() {
        Ok(ValueView::HashMap(acc))
    } else {
        match items[from] {
            ValueView::List(pair) => if pair.len() != 2 {
                Err(misuse("the inner list must be a list of two elements"@))
            } else {
                match pair[0] {
                    ValueView::String(key) => to_hashmap_from(
                        items,
                        from + 1,
                        put(acc, key, pair[1]),
                    ),
                    other => Err(mismatch("string"@, other)),
                }
            },
            other => Err(mismatch("list"@, other)),
        }
    }
}

/// `list.to_hashmap()`: the map of a list of pairs of key and value. Of
/// two pairs with one key the later one stays.
pub open spec fn to_hashmap_spec(items: Seq<ValueView>, args: Seq<ValueView>) -> Outcome {
    if args.len() != 0 {
        Err(misuse("to_hashmap does not take any arguments"@))
    } else {
        to_hashmap_from(items, 0, Seq::empty())
    }
}

#[verifier::loop_isolation(false)]
pub fn to_hashmap(list: &Vec<Value>, args: &Vec<Value>) -> (r: Result<Value, Error>)
    ensures
        outcome(r) == to_hashmap_spec(values_view(list@), values_view(args@)),
{
    if args.len() != 0 {
        return Err(misuse_error("to_hashmap does not take any arguments"));
    }
    let mut out: Vec<(ValueString, Value)> = Vec::new();
    let mut i: usize = 0;
    assert(entries_view(out@) =~= Seq::<(Seq<char>, ValueView)>::empty());
    while i < list.len()
        invariant
            i <= list.len(),
            crate::value::keys_ascend(out@),
            to_hashmap_from(values_view(list@), 0, Seq::empty()) == to_hashmap_from(
                values_view(list@),
                i as int,
                entries_view(out@),
            ),
        decreases list.len() - i,
    {
        match &list[i] {
            Value::List(pair) => {
                if pair.len() != 2 {
                    return Err(misuse_error("the inner list must be a list of two elements"));
                }
                match &pair[0] {
                    Value::String(key) => {
                        proof {
                            let pv = values_view(pair@);
                            assert(values_view(list@)[i as int] == ValueView::List(pv));
                            assert(pv.len() == 2);
                            assert(pv[0] == ValueView::String(key@));
                            assert(pv[1] == pair@[1]@);
                        }
                        put_entry(&mut out, key.clone(), pair[1].clone());
                    },
                    other => {
                        return Err(mismatch_error("string", other));
                    },
                }
            },
            other => {
                return Err(mismatch_error("list", other));
            },
        }
        i = i + 1;
    }
    Ok(Value::HashMap(crate::value::Dict::of_ascending(out)))
}

} // verus!
