//! Values as data: what is left of a value when it is written out.
use crate::number::Number;
use crate::value::{entries_view, values_view, EntriesView, Value, ValueView};
use vstd::prelude::*;
use vstd::string::StringExecFns;

verus! {

/// A value that holds no function.
#[derive(Debug, PartialEq)]
pub enum SerializableValue {
    Bool(bool),
    Number(Number),
    String(String),
    /// The entries of a map, in ascending order of their keys.
    HashMap(Vec<(String, SerializableValue)>),
    List(Vec<SerializableValue>),
}

pub enum SerializableView {
    Bool(bool),
    Number(Number),
    String(Seq<char>),
    HashMap(Seq<(Seq<char>, SerializableView)>),
    List(Seq<SerializableView>),
}

/// The views of the values of a sequence.
pub open spec fn data_view(values: Seq<SerializableValue>) -> Seq<SerializableView>
    decreases values,
{
    Seq::new(
        values.len(),
        |i: int|
            if 0 <= i < values.len() {
                values[i].model()
            } else {
                arbitrary()
            },
    )
}

/// The views of the entries of a sequence.
pub open spec fn data_entries_view(entries: Seq<(String, SerializableValue)>) -> Seq<
    (Seq<char>, SerializableView),
>
    decreases entries,
{
    Seq::new(
        entries.len(),
        |i: int|
            if 0 <= i < entries.len() {
                (entries[i].0@, entries[i].1.model())
            } else {
                arbitrary()
            },
    )
}

impl SerializableValue {
    /// The value as a mathematical object.
    pub open spec fn model(&self) -> SerializableView
        decreases self,
    {
        match self {
            SerializableValue::Bool(b) => SerializableView::Bool(*b),
            SerializableValue::Number(n) => SerializableView::Number(*n),
            SerializableValue::String(s) => SerializableView::String(s@),
            SerializableValue::HashMap(entries) => SerializableView::HashMap(
                data_entries_view(entries@),
            ),
            SerializableValue::List(items) => SerializableView::List(data_view(items@)),
        }
    }
}

impl View for SerializableValue {
    type V = SerializableView;

    open spec fn view(&self) -> SerializableView {
        self.model()
    }
}

/// The data of the values of a sequence.
pub open spec fn data_of_all(values: Seq<ValueView>) -> Seq<SerializableView>
    decreases values,
{
    Seq::new(
        values.len(),
        |i: int|
            if 0 <= i < values.len() {
                data_of(values[i])
            } else {
                arbitrary()
            },
    )
}

/// The data of the entries of a map.
pub open spec fn data_of_entries(entries: EntriesView) -> Seq<(Seq<char>, SerializableView)>
    decreases entries,
{
    Seq::new(
        entries.len(),
        |i: int|
            if 0 <= i < entries.len() {
                (entries[i].0, data_of(entries[i].1))
            } else {
                arbitrary()
            },
    )
}

/// The data of a value: the value itself, with the string `<function>`
/// in the place of every function.
pub open spec fn data_of(v: ValueView) -> SerializableView
    decreases v,
{
    match v {
        ValueView::Bool(b) => SerializableView::Bool(b),
        ValueView::Number(n) => SerializableView::Number(n),
        ValueView::String(s) => SerializableView::String(s),
        ValueView::HashMap(entries) => SerializableView::HashMap(data_of_entries(entries)),
        ValueView::List(items) => SerializableView::List(data_of_all(items)),
        ValueView::Func(_) => SerializableView::String("<function>"@),
    }
}

impl Value {
    /// The value as data.
    #[verifier::loop_isolation(false)]
    pub fn to_serializable(&self) -> (r: SerializableValue)
        ensures
            r@ == data_of(self@),
        decreases self,
    {
        match self {
            Value::Bool(x) => SerializableValue::Bool(*x),
            Value::Number(x) => SerializableValue::Number(*x),
            Value::String(x) => SerializableValue::String(x.clone()),
            Value::HashMap(d) => {
                let x = &d.entries;
                proof {
                    d.lemma_items();
                }
                let mut out: Vec<(String, SerializableValue)> = Vec::new();
                let mut i: usize = 0;
                while i < x.len()
                    invariant
                        i <= x.len(),
                        out@.len() == i,
                        forall|k: int|
                            0 <= k < i ==> (#[trigger] out@[k]).0@ == x@[k].0@ && out@[k].1@
                                == data_of(x@[k].1@),
                    decreases x.len() - i,
                {
                    out.push((x[i].0.clone(), x[i].1.to_serializable()));
                    i = i + 1;
                }
                assert(data_entries_view(out@) =~= data_of_entries(entries_view(x@)));
                SerializableValue::HashMap(out)
            },
            Value::List(x) => {
                let mut out: Vec<SerializableValue> = Vec::new();
                let mut i: usize = 0;
                while i < x.len()
                    invariant
                        i <= x.len(),
                        out@.len() == i,
                        forall|k: int| 0 <= k < i ==> (#[trigger] out@[k])@ == data_of(x@[k]@),
                    decreases x.len() - i,
                {
                    out.push(x[i].to_serializable());
                    i = i + 1;
                }
                assert(data_view(out@) =~= data_of_all(values_view(x@)));
                SerializableValue::List(out)
            },
            Value::Func(_) => SerializableValue::String(String::from_str("<function>")),
        }
    }
}

} // verus!
