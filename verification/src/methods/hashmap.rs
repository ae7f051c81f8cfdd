//! Maps, and their methods.
//!
//! A map is held as its entries in ascending order of their keys, each key
//! once. The order of texts is that of `text_order`.
use crate::error::{plain_error, Error, ErrorKind, ErrorView, ErrorWithLocation};
use crate::functions::is_text;
use crate::number::Number;
use crate::operators::{mismatch, mismatch_error, misuse, misuse_error, outcome, Outcome};
use crate::text::{chars_of, lemma_text_order_equal, order_texts, split, split_by, text_of,
    text_order};
use crate::value::{entries_view, keys_ascend, Dict, EntriesView, Value, ValueString, ValueView};
use std::sync::Arc;
use vstd::prelude::*;

verus! {

/// The methods that a map has.
#[derive(Clone, Copy, Debug, PartialEq, Eq, Structural)]
pub enum HashmapMethod {
    MapEach,
    Filter,
    Len,
    Insert,
    Merge,
    Drop,
    ToList,
}

/// The method of a name.
pub open spec fn method_spec(name: Seq<char>) -> Option<HashmapMethod> {
    if name == "map"@ {
        Some(HashmapMethod::MapEach)
    } else if name == "filter"@ {
        Some(HashmapMethod::Filter)
    } else if name == "len"@ {
        Some(HashmapMethod::Len)
    } else if name == "insert"@ {
        Some(HashmapMethod::Insert)
    } else if name == "merge"@ {
        Some(HashmapMethod::Merge)
    } else if name == "drop"@ {
        Some(HashmapMethod::Drop)
    } else if name == "to_list"@ {
        Some(HashmapMethod::ToList)
    } else {
        None
    }
}

pub fn method(name: &str) -> (r: Option<HashmapMethod>)
    ensures
        r == method_spec(name@),
{
    if is_text(name, "map") {
        Some(HashmapMethod::MapEach)
    } else if is_text(name, "filter") {
        Some(HashmapMethod::Filter)
    } else if is_text(name, "len") {
        Some(HashmapMethod::Len)
    } else if is_text(name, "insert") {
        Some(HashmapMethod::Insert)
    } else if is_text(name, "merge") {
        Some(HashmapMethod::Merge)
    } else if is_text(name, "drop") {
        Some(HashmapMethod::Drop)
    } else if is_text(name, "to_list") {
        Some(HashmapMethod::ToList)
    } else {
        None
    }
}

/// The first index at or after `from` whose entry has the key `key`.
pub open spec fn key_index_from(e: EntriesView, key: Seq<char>, from: int) -> Option<int>
    decreases e.len() - from,
{
    if from < 0 || from >= e.len() {
        None
    } else if e[from].0 == key {
        Some(from)
    } else {
        key_index_from(e, key, from + 1)
    }
}

/// The value under `key`, if the map has the key.
pub open spec fn entry_of(e: EntriesView, key: Seq<char>) -> Option<ValueView> {
    match key_index_from(e, key, 0) {
        Some(i) => Some(e[i].1),
        None => None,
    }
}

/// The first index at or after `from` whose key does not come before `key`.
pub open spec fn lower_bound_from(e: EntriesView, key: Seq<char>, from: int) -> int
    decreases e.len() - from,
{
    if 0 <= from < e.len() && text_order(e[from].0, key) < 0 {
        lower_bound_from(e, key, from + 1)
    } else {
        from
    }
}

/// The map with `value` under `key`: in place of the value that was there,
/// or as a new entry where the order of keys puts it.
pub open spec fn put(e: EntriesView, key: Seq<char>, value: ValueView) -> EntriesView {
    let p = lower_bound_from(e, key, 0);
    if 0 <= p < e.len() && e[p].0 == key {
        e.update(p, (key, value))
    } else if 0 <= p <= e.len() {
        e.insert(p, (key, value))
    } else {
        e
    }
}

/// The map without the entry under `key`.
pub open spec fn removed(e: EntriesView, key: Seq<char>) -> EntriesView {
    match key_index_from(e, key, 0) {
        Some(i) => e.remove(i),
        None => e,
    }
}

/// Whether the keys ascend strictly: the form in which a map is held.
pub open spec fn ascending(e: EntriesView) -> bool {
    forall|i: int, j: int| 0 <= i < j < e.len() ==> text_order(#[trigger] e[i].0, #[trigger] e[j].0) < 0
}

/// `key_index_from` gives the first index at or after `from` whose entry
/// has the key, and nothing where no entry has it.
pub proof fn lemma_key_index(e: EntriesView, key: Seq<char>, from: int)
    requires
        0 <= from,
    ensures
        match key_index_from(e, key, from) {
            Some(i) => from <= i < e.len() && e[i].0 == key && forall|j: int|
                from <= j < i ==> e[j].0 != key,
            None => forall|j: int| from <= j < e.len() ==> e[j].0 != key,
        },
    decreases e.len() - from,
{
    if from < e.len() && e[from].0 != key {
        lemma_key_index(e, key, from + 1);
    }
}

/// Every key before the lower bound comes before `key`, and the key at the
/// lower bound does not.
pub proof fn lemma_lower_bound(e: EntriesView, key: Seq<char>, from: int)
    requires
        0 <= from <= e.len(),
    ensures
        from <= lower_bound_from(e, key, from) <= e.len(),
        forall|j: int| from <= j < lower_bound_from(e, key, from) ==> text_order(e[j].0, key) < 0,
        lower_bound_from(e, key, from) < e.len() ==> text_order(
            e[lower_bound_from(e, key, from)].0,
            key,
        ) >= 0,
    decreases e.len() - from,
{
    if from < e.len() && text_order(e[from].0, key) < 0 {
        lemma_lower_bound(e, key, from + 1);
    }
}

/// The index of the entry under `key`.
pub fn key_position(entries: &Vec<(ValueString, Value)>, key: &String) -> (r: Option<usize>)
    ensures
        match r {
            Some(i) => key_index_from(entries_view(entries@), key@, 0) == Some(i as int) && i
                < entries.len(),
            None => key_index_from(entries_view(entries@), key@, 0) is None,
        },
{
    let mut i: usize = 0;
    while i < entries.len()
        invariant
            i <= entries.len(),
            key_index_from(entries_view(entries@), key@, 0) == key_index_from(
                entries_view(entries@),
                key@,
                i as int,
            ),
        decreases entries.len() - i,
    {
        if entries[i].0 == *key {
            return Some(i);
        }
        i = i + 1;
    }
    None
}

/// The value under `key`.
pub fn get_entry<'a>(entries: &'a Vec<(ValueString, Value)>, key: &String) -> (r: Option<
    &'a Value,
>)
    ensures
        match r {
            Some(v) => entry_of(entries_view(entries@), key@) == Some(v@),
            None => entry_of(entries_view(entries@), key@) is None,
        },
{
    match key_position(entries, key) {
        Some(i) => Some(&entries[i].1),
        None => None,
    }
}

fn comes_before(a: &String, b: &Vec<char>) -> (r: bool)
    ensures
        r == (text_order(a@, b@) < 0),
{
    let left = chars_of(a.as_str());
    order_texts(&left, b) < 0
}

/// Puts `value` under `key`.
pub fn put_entry(entries: &mut Vec<(ValueString, Value)>, key: String, value: Value)
    ensures
        entries_view(final(entries)@) == put(entries_view(old(entries)@), key@, value@),
        keys_ascend(old(entries)@) ==> keys_ascend(final(entries)@),
{
    proof {
        if keys_ascend(entries@) {
            lemma_keys_ascend(entries@);
            lemma_put_ascending(entries_view(entries@), key@, value@);
        }
    }
    let key_chars = chars_of(key.as_str());
    let mut p: usize = 0;
    while p < entries.len() && comes_before(&entries[p].0, &key_chars)
        invariant
            p <= entries.len(),
            key_chars@ == key@,
            entries@ == old(entries)@,
            lower_bound_from(entries_view(entries@), key@, 0) == lower_bound_from(
                entries_view(entries@),
                key@,
                p as int,
            ),
        decreases entries.len() - p,
    {
        p = p + 1;
    }
    let ghost before = entries_view(entries@);
    if p < entries.len() && entries[p].0 == key {
        entries.set(p, (key, value));
        assert(entries_view(entries@) =~= before.update(p as int, (key@, value@)));
    } else {
        entries.insert(p, (key, value));
        assert(entries_view(entries@) =~= before.insert(p as int, (key@, value@)));
    }
    proof {
        if keys_ascend(old(entries)@) {
            lemma_keys_ascend(entries@);
        }
    }
}

/// The keys of entries ascend exactly when those of their views do.
pub proof fn lemma_keys_ascend(entries: Seq<(ValueString, Value)>)
    ensures
        keys_ascend(entries) <==> ascending(entries_view(entries)),
{
    let e = entries_view(entries);
    if keys_ascend(entries) {
        assert forall|i: int, j: int| 0 <= i < j < e.len() implies text_order(
            #[trigger] e[i].0,
            #[trigger] e[j].0,
        ) < 0 by {
            assert(e[i].0 == entries[i].0@);
            assert(e[j].0 == entries[j].0@);
        }
    }
    if ascending(e) {
        assert forall|i: int, j: int| 0 <= i < j < entries.len() implies text_order(
            #[trigger] entries[i].0@,
            #[trigger] entries[j].0@,
        ) < 0 by {
            assert(e[i].0 == entries[i].0@);
            assert(e[j].0 == entries[j].0@);
        }
    }
}

/// Takes the entry under `key` out.
pub fn remove_entry(entries: &mut Vec<(ValueString, Value)>, key: &String)
    ensures
        entries_view(final(entries)@) == removed(entries_view(old(entries)@), key@),
        keys_ascend(old(entries)@) ==> keys_ascend(final(entries)@),
{
    let ghost before = entries_view(entries@);
    match key_position(entries, key) {
        Some(i) => {
            entries.remove(i);
            assert(entries_view(entries@) =~= before.remove(i as int));
            assert(keys_ascend(old(entries)@) ==> keys_ascend(entries@)) by {
                if keys_ascend(old(entries)@) {
                    assert forall|a: int, b: int| 0 <= a < b < entries@.len() implies text_order(
                        #[trigger] entries@[a].0@,
                        #[trigger] entries@[b].0@,
                    ) < 0 by {
                        let a0 = if a < i {
                            a
                        } else {
                            a + 1
                        };
                        let b0 = if b < i {
                            b
                        } else {
                            b + 1
                        };
                        assert(entries@[a] == old(entries)@[a0]);
                        assert(entries@[b] == old(entries)@[b0]);
                    }
                }
            }
        },
        None => {},
    }
}

/// A copy of the entries.
pub fn clone_entries(entries: &Vec<(ValueString, Value)>) -> (r: Vec<(ValueString, Value)>)
    ensures
        r@ == entries@,
{
    let mut out: Vec<(ValueString, Value)> = Vec::new();
    let mut i: usize = 0;
    while i < entries.len()
        invariant
            i <= entries.len(),
            out@ == entries@.subrange(0, i as int),
        decreases entries.len() - i,
    {
        out.push((entries[i].0.clone(), entries[i].1.clone()));
        i = i + 1;
        assert(entries@.subrange(0, i as int) == entries@.subrange(0, i - 1).push(
            entries@[i - 1],
        ));
    }
    assert(entries@.subrange(0, entries.len() as int) == entries@);
    out
}

/// The number of entries.
pub open spec fn len_spec(e: EntriesView, args: Seq<ValueView>) -> Outcome {
    if args.len() != 0 {
        Err(misuse("expects no arguments"@))
    } else {
        Ok(
            ValueView::Number(
                Number::Int(
                    if e.len() <= i64::MAX {
                        e.len() as i64
                    } else {
                        i64::MAX
                    },
                ),
            ),
        )
    }
}

pub fn len(map: &Dict, args: &Vec<Value>) -> (r: Result<Value, Error>)
    ensures
        outcome(r) == len_spec(entries_view(map.items()), crate::value::values_view(args@)),
{
    let hm = map.entries();
    if args.len() != 0 {
        return Err(misuse_error("expects no arguments"));
    }
    Ok(Value::Number(Number::from_len(hm.len())))
}

/// `map.insert(key, value)`: the map with the value under the key.
pub open spec fn insert_spec(e: EntriesView, args: Seq<ValueView>) -> Outcome {
    if args.len() != 2 {
        Err(misuse("expects 2 arguments"@))
    } else {
        match args[0] {
            ValueView::String(key) => Ok(ValueView::HashMap(put(e, key, args[1]))),
            other => Err(mismatch("string"@, other)),
        }
    }
}

pub fn insert(map: &Dict, args: &Vec<Value>) -> (r: Result<Value, Error>)
    ensures
        outcome(r) == insert_spec(entries_view(map.items()), crate::value::values_view(args@)),
{
    let hm = map.entries();
    if args.len() != 2 {
        return Err(misuse_error("expects 2 arguments"));
    }
    match &args[0] {
        Value::String(key) => {
            let mut out = clone_entries(hm);
            put_entry(&mut out, key.clone(), args[1].clone());
            Ok(Value::HashMap(Dict::of_ascending(out)))
        },
        other => Err(mismatch_error("string", other)),
    }
}

/// The entries of `src` from `from` on, put into `dest` one after the
/// other. Where both maps hold a map under a key, the two are merged in
/// the same way; in every other case the value of `src` takes the place.
pub open spec fn merge_from(dest: EntriesView, src: EntriesView, from: int) -> EntriesView
    decreases src, src.len() - from,
{
    if from < 0 || from >= src.len() {
        dest
    } else {
        let merged = match (entry_of(dest, src[from].0), src[from].1) {
            (Some(ValueView::HashMap(a)), ValueView::HashMap(b)) => ValueView::HashMap(
                merge_from(a, b, 0),
            ),
            (_, v) => v,
        };
        merge_from(put(dest, src[from].0, merged), src, from + 1)
    }
}

/// `map.merge(other)`: the deep merge of the two maps.
pub open spec fn merge_spec(e: EntriesView, args: Seq<ValueView>) -> Outcome {
    if args.len() != 1 {
        Err(misuse("expects one hashmap as argument"@))
    } else {
        match args[0] {
            ValueView::HashMap(other) => Ok(ValueView::HashMap(merge_from(e, other, 0))),
            other => Err(mismatch("hashmap"@, other)),
        }
    }
}

#[verifier::loop_isolation(false)]
pub fn merge_raw(dest: &Dict, src: &Dict) -> (r: Dict)
    ensures
        entries_view(r.items()) == merge_from(
            entries_view(dest.items()),
            entries_view(src.items()),
            0,
        ),
    decreases src,
{
    let mut out = clone_entries(dest.entries());
    let from: &Vec<(ValueString, Value)> = &src.entries;
    proof {
        src.lemma_items();
    }
    let mut i: usize = 0;
    while i < from.len()
        invariant
            i <= from.len(),
            keys_ascend(out@),
            merge_from(entries_view(dest.items()), entries_view(from@), 0) == merge_from(
                entries_view(out@),
                entries_view(from@),
                i as int,
            ),
        decreases from.len() - i,
    {
        let merged = match (get_entry(&out, &from[i].0), &from[i].1) {
            (Some(Value::HashMap(a)), Value::HashMap(b)) => Value::HashMap(merge_raw(a, b)),
            (_, v) => v.clone(),
        };
        put_entry(&mut out, from[i].0.clone(), merged);
        i = i + 1;
    }
    Dict::of_ascending(out)
}

pub fn merge(map: &Dict, args: &Vec<Value>) -> (r: Result<Value, Error>)
    ensures
        outcome(r) == merge_spec(entries_view(map.items()), crate::value::values_view(args@)),
{
    let hm = map.entries();
    if args.len() != 1 {
        return Err(misuse_error("expects one hashmap as argument"));
    }
    match &args[0] {
        Value::HashMap(other) => Ok(Value::HashMap(merge_raw(map, other))),
        other => Err(mismatch_error("hashmap", other)),
    }
}

/// The error for a path that leads through something that is no map.
pub open spec fn not_a_map() -> ErrorView {
    misuse("Cannot drop hashmap key, because the object is not a hashmap"@)
}

/// The map without what the path from `from` on leads to. The last key of
/// the path is removed from the map that the keys before it lead to. Where
/// a key on the way is missing nothing changes, and where it holds
/// something that is no map that is an error.
pub open spec fn drop_path(e: EntriesView, path: Seq<Seq<char>>, from: int) -> Result<
    EntriesView,
    ErrorView,
>
    decreases path.len() - from,
{
    if from < 0 || from >= path.len() {
        Ok(e)
    } else if from == path.len() - 1 {
        Ok(removed(e, path[from]))
    } else {
        match entry_of(e, path[from]) {
            Some(ValueView::HashMap(inner)) => match drop_path(inner, path, from + 1) {
                Ok(x) => Ok(put(e, path[from], ValueView::HashMap(x))),
                Err(err) => Err(err),
            },
            Some(_) => Err(not_a_map()),
            None => Ok(e),
        }
    }
}

/// The views of the texts of a sequence of strings.
pub open spec fn strings_view(strings: Seq<String>) -> Seq<Seq<char>> {
    Seq::new(strings.len(), |i: int| strings[i]@)
}

pub fn drop_raw(map: &Dict, path: &Vec<String>, from: usize) -> (r: Result<Dict, Error>)
    ensures
        match r {
            Ok(x) => drop_path(entries_view(map.items()), strings_view(path@), from as int)
                == Ok::<EntriesView, ErrorView>(entries_view(x.items())),
            Err(e) => drop_path(entries_view(map.items()), strings_view(path@), from as int)
                == Err::<EntriesView, ErrorView>(e@),
        },
    decreases path.len() - from,
{
    let mut hm = clone_entries(map.entries());
    if from >= path.len() {
        Ok(Dict::of_ascending(hm))
    } else if from == path.len() - 1 {
        remove_entry(&mut hm, &path[from]);
        Ok(Dict::of_ascending(hm))
    } else {
        let dropped = match get_entry(&hm, &path[from]) {
            Some(Value::HashMap(inner)) => drop_raw(inner, path, from + 1),
            Some(_) => {
                return Err(
                    misuse_error("Cannot drop hashmap key, because the object is not a hashmap"),
                );
            },
            None => {
                return Ok(Dict::of_ascending(hm));
            },
        };
        match dropped {
            Ok(x) => {
                put_entry(&mut hm, path[from].clone(), Value::HashMap(x));
                Ok(Dict::of_ascending(hm))
            },
            Err(e) => Err(e),
        }
    }
}

/// `map.drop(path)`: the map without what the path leads to. The keys of
/// the path stand in one string, with a full stop between each two.
pub open spec fn drop_spec(e: EntriesView, args: Seq<ValueView>) -> Outcome {
    if args.len() != 1 {
        Err(misuse("expects one string argument"@))
    } else {
        match args[0] {
            ValueView::String(path) => match drop_path(e, split_by(path, seq!['.']), 0) {
                Ok(x) => Ok(ValueView::HashMap(x)),
                Err(err) => Err(err),
            },
            other => Err(mismatch("string"@, other)),
        }
    }
}

/// The strings of the given texts.
pub fn strings_of(parts: &Vec<Vec<char>>) -> (r: Vec<String>)
    ensures
        r@.len() == parts@.len(),
        forall|i: int| 0 <= i < r@.len() ==> (#[trigger] r@[i])@ == parts@[i]@,
{
    let mut out: Vec<String> = Vec::new();
    let mut i: usize = 0;
    while i < parts.len()
        invariant
            i <= parts.len(),
            out@.len() == i,
            forall|k: int| 0 <= k < i ==> (#[trigger] out@[k])@ == parts@[k]@,
        decreases parts.len() - i,
    {
        out.push(text_of(&parts[i]));
        i = i + 1;
    }
    out
}

pub fn drop(map: &Dict, args: &Vec<Value>) -> (r: Result<Value, Error>)
    ensures
        outcome(r) == drop_spec(entries_view(map.items()), crate::value::values_view(args@)),
{
    let hm = map.entries();
    if args.len() != 1 {
        return Err(misuse_error("expects one string argument"));
    }
    match &args[0] {
        Value::String(path) => {
            let chars = chars_of(path.as_str());
            let mut dot: Vec<char> = Vec::new();
            dot.push('.');
            assert(dot@ == seq!['.']);
            let pieces = split(&chars, &dot);
            let keys = strings_of(&pieces);
            assert(strings_view(keys@) =~= split_by(path@, seq!['.']));
            match drop_raw(map, &keys, 0) {
                Ok(x) => Ok(Value::HashMap(x)),
                Err(e) => Err(e),
            }
        },
        other => Err(mismatch_error("string", other)),
    }
}

/// The entries from `from` on, put into `acc` one after the other.
pub open spec fn ordered_from(e: EntriesView, from: int, acc: EntriesView) -> EntriesView
    decreases e.len() - from,
{
    if from < 0 || from >= e.len() {
        acc
    } else {
        ordered_from(e, from + 1, put(acc, e[from].0, e[from].1))
    }
}

/// The entries in ascending order of their keys.
pub open spec fn ordered(e: EntriesView) -> EntriesView {
    ordered_from(e, 0, Seq::empty())
}

/// Each entry as a list of its key and its value.
pub open spec fn as_pairs(e: EntriesView) -> Seq<ValueView> {
    Seq::new(e.len(), |i: int| ValueView::List(seq![ValueView::String(e[i].0), e[i].1]))
}

/// `map.to_list()`: the entries as lists of key and value, in ascending
/// order of the keys.
pub open spec fn to_list_spec(e: EntriesView, args: Seq<ValueView>) -> Outcome {
    if args.len() != 0 {
        Err(misuse("to_list does not take any arguments"@))
    } else {
        Ok(ValueView::List(as_pairs(ordered(e))))
    }
}

pub fn to_list(map: &Dict, args: &Vec<Value>) -> (r: Result<Value, Error>)
    ensures
        outcome(r) == to_list_spec(entries_view(map.items()), crate::value::values_view(args@)),
        ascending(entries_view(map.items())),
        ordered(entries_view(map.items())) == entries_view(map.items()),
{
    let hm = map.entries();
    proof {
        lemma_keys_ascend(hm@);
        lemma_ordered_from(entries_view(hm@), 0);
        assert(entries_view(hm@).take(0) =~= Seq::<(Seq<char>, ValueView)>::empty());
    }
    if args.len() != 0 {
        return Err(misuse_error("to_list does not take any arguments"));
    }
    let mut sorted: Vec<(ValueString, Value)> = Vec::new();
    let mut i: usize = 0;
    assert(entries_view(sorted@) =~= Seq::<(Seq<char>, ValueView)>::empty());
    while i < hm.len()
        invariant
            i <= hm.len(),
            ascending(entries_view(sorted@)),
            ordered(entries_view(hm@)) == ordered_from(
                entries_view(hm@),
                i as int,
                entries_view(sorted@),
            ),
        decreases hm.len() - i,
    {
        proof {
            lemma_put_ascending(entries_view(sorted@), hm@[i as int].0@, hm@[i as int].1@);
        }
        put_entry(&mut sorted, hm[i].0.clone(), hm[i].1.clone());
        i = i + 1;
    }
    let mut out: Vec<Value> = Vec::new();
    let mut k: usize = 0;
    while k < sorted.len()
        invariant
            k <= sorted.len(),
            out@.len() == k,
            forall|j: int|
                0 <= j < k ==> (#[trigger] out@[j])@ == as_pairs(entries_view(sorted@))[j],
        decreases sorted.len() - k,
    {
        let mut pair: Vec<Value> = Vec::new();
        pair.push(Value::String(sorted[k].0.clone()));
        pair.push(sorted[k].1.clone());
        let item = Value::List(Arc::new(pair));
        assert(item@ == as_pairs(entries_view(sorted@))[k as int]) by {
            assert(crate::value::values_view(pair@) =~= seq![
                ValueView::String(sorted@[k as int].0@),
                sorted@[k as int].1@,
            ]);
        }
        out.push(item);
        k = k + 1;
    }
    assert(crate::value::values_view(out@) =~= as_pairs(entries_view(sorted@)));
    Ok(Value::List(Arc::new(out)))
}

/// Where every key from `from` on comes before `key`, the lower bound is
/// the end.
pub proof fn lemma_lower_bound_end(e: EntriesView, key: Seq<char>, from: int)
    requires
        0 <= from <= e.len(),
        forall|j: int| from <= j < e.len() ==> text_order(e[j].0, key) < 0,
    ensures
        lower_bound_from(e, key, from) == e.len(),
    decreases e.len() - from,
{
    if from < e.len() {
        lemma_lower_bound_end(e, key, from + 1);
    }
}

/// Putting the entries of a map whose keys ascend into an empty map, one
/// after the other, gives the map itself.
pub proof fn lemma_ordered_from(e: EntriesView, i: int)
    requires
        ascending(e),
        0 <= i <= e.len(),
    ensures
        ordered_from(e, i, e.take(i)) == e,
    decreases e.len() - i,
{
    let acc = e.take(i);
    if i < e.len() {
        assert forall|j: int| 0 <= j < acc.len() implies text_order(acc[j].0, e[i].0) < 0 by {
            assert(acc[j] == e[j]);
        }
        lemma_lower_bound_end(acc, e[i].0, 0);
        assert(put(acc, e[i].0, e[i].1) =~= e.take(i + 1));
        lemma_ordered_from(e, i + 1);
    } else {
        assert(acc =~= e);
    }
}

/// The order of texts is transitive, from equal beginnings on.
pub proof fn lemma_order_prefix(a: Seq<char>, b: Seq<char>, c: Seq<char>, i: int)
    requires
        0 <= i,
        crate::text::order_from(a, b, i) < 0,
        crate::text::order_from(b, c, i) < 0,
        i <= a.len() && i <= b.len() && i <= c.len() ==> a.subrange(0, i) == b.subrange(0, i)
            && b.subrange(0, i) == c.subrange(0, i),
    ensures
        crate::text::order_from(a, c, i) < 0,
    decreases a.len() - i,
{
    if i < a.len() && i < b.len() && i < c.len() {
        if a[i] == b[i] && b[i] == c[i] {
            assert(a.subrange(0, i + 1) == a.subrange(0, i).push(a[i]));
            assert(b.subrange(0, i + 1) == b.subrange(0, i).push(b[i]));
            assert(c.subrange(0, i + 1) == c.subrange(0, i).push(c[i]));
            lemma_order_prefix(a, b, c, i + 1);
        }
    }
}

/// The order of texts is transitive.
pub proof fn lemma_order_transitive(a: Seq<char>, b: Seq<char>, c: Seq<char>)
    requires
        text_order(a, b) < 0,
        text_order(b, c) < 0,
    ensures
        text_order(a, c) < 0,
{
    assert(a.subrange(0, 0) == b.subrange(0, 0));
    assert(b.subrange(0, 0) == c.subrange(0, 0));
    lemma_order_prefix(a, b, c, 0);
}

/// Putting a value into a map whose keys ascend leaves a map whose keys
/// ascend.
pub proof fn lemma_put_ascending(e: EntriesView, key: Seq<char>, value: ValueView)
    requires
        ascending(e),
    ensures
        ascending(put(e, key, value)),
{
    let p = lower_bound_from(e, key, 0);
    lemma_lower_bound(e, key, 0);
    let r = put(e, key, value);
    if p < e.len() && e[p].0 == key {
        assert forall|i: int, j: int| 0 <= i < j < r.len() implies text_order(
            #[trigger] r[i].0,
            #[trigger] r[j].0,
        ) < 0 by {
            assert(r[i].0 == e[i].0);
            assert(r[j].0 == e[j].0);
        }
    } else {
        if p < e.len() {
            lemma_text_order_equal(e[p].0, key);
            crate::text::lemma_order_flip(e[p].0, key, 0);
        }
        assert forall|i: int, j: int| 0 <= i < j < r.len() implies text_order(
            #[trigger] r[i].0,
            #[trigger] r[j].0,
        ) < 0 by {
            if j < p {
                assert(r[i] == e[i] && r[j] == e[j]);
            } else if j == p {
                assert(r[i] == e[i]);
                assert(r[j].0 == key);
            } else if i < p {
                assert(r[i] == e[i]);
                assert(r[j] == e[j - 1]);
                if j - 1 > p {
                    assert(text_order(e[p].0, e[j - 1].0) < 0);
                }
                assert(text_order(e[i].0, key) < 0);
                assert(text_order(key, e[p].0) < 0);
                lemma_order_transitive(e[i].0, key, e[p].0);
                if j - 1 > p {
                    lemma_order_transitive(e[i].0, e[p].0, e[j - 1].0);
                }
            } else if i == p {
                assert(r[i].0 == key);
                assert(r[j] == e[j - 1]);
                if j - 1 > p {
                    assert(text_order(e[p].0, e[j - 1].0) < 0);
                    lemma_order_transitive(key, e[p].0, e[j - 1].0);
                }
            } else {
                assert(r[i] == e[i - 1]);
                assert(r[j] == e[j - 1]);
            }
        }
    }
}

impl Value {
    /// The map of the given entries. Of two entries with one key the
    /// later one stays.
    pub fn map_of(entries: Vec<(ValueString, Value)>) -> (r: Value)
        ensures
            r@ == ValueView::HashMap(ordered(entries_view(entries@))),
            ascending(ordered(entries_view(entries@))),
    {
        let mut sorted: Vec<(ValueString, Value)> = Vec::new();
        let mut i: usize = 0;
        assert(entries_view(sorted@) =~= Seq::<(Seq<char>, ValueView)>::empty());
        while i < entries.len()
            invariant
                i <= entries.len(),
                ascending(entries_view(sorted@)),
                ordered(entries_view(entries@)) == ordered_from(
                    entries_view(entries@),
                    i as int,
                    entries_view(sorted@),
                ),
            decreases entries.len() - i,
        {
            proof {
                lemma_put_ascending(
                    entries_view(sorted@),
                    entries@[i as int].0@,
                    entries@[i as int].1@,
                );
            }
            put_entry(&mut sorted, entries[i].0.clone(), entries[i].1.clone());
            i = i + 1;
        }
        proof {
            lemma_keys_ascend(sorted@);
        }
        Value::HashMap(Dict::of_ascending(sorted))
    }

    /// The list of the given values.
    pub fn list_of(items: Vec<Value>) -> (r: Value)
        ensures
            r@ == ValueView::List(crate::value::values_view(items@)),
    {
        Value::List(Arc::new(items))
    }
}

} // verus!
