//! Values: what an expression resolves to.
use crate::context::{Context, ContextView};
use crate::methods::hashmap::HashmapMethod;
use crate::methods::list::ListMethod;
use crate::methods::string::StringMethod;
use crate::node::{DefinitionView, FunctionDefinition};
use crate::error::TypeMismatch;
use crate::number::{number_equal, Number};
use std::sync::Arc;
use vstd::prelude::*;

verus! {

pub type ValueString = String;

/// A value of the language.
#[derive(Debug)]
pub enum Value {
    Bool(bool),
    Number(Number),
    String(ValueString),
    /// A map from strings to values.
    HashMap(Dict),
    List(Arc<Vec<Value>>),
    Func(Func),
}

/// A map from strings to values. It holds its entries in ascending order
/// of their keys, each key once: that is the form of every map, and the
/// only way to make one is to put entries into one.
#[derive(Debug)]
pub struct Dict {
    pub(crate) entries: Arc<Vec<(ValueString, Value)>>,
}

/// Whether the keys of the entries ascend strictly.
pub open spec fn keys_ascend(entries: Seq<(ValueString, Value)>) -> bool {
    forall|i: int, j: int|
        0 <= i < j < entries.len() ==> crate::text::text_order(
            #[trigger] entries[i].0@,
            #[trigger] entries[j].0@,
        ) < 0
}

impl Dict {
    /// The form of a map: its keys ascend strictly.
    #[verifier::type_invariant]
    pub closed spec fn wf(self) -> bool {
        keys_ascend(self.entries@)
    }

    /// The entries of the map.
    pub closed spec fn items(self) -> Seq<(ValueString, Value)> {
        self.entries@
    }

    /// The entries of the map, in ascending order of their keys.
    pub fn entries(&self) -> (r: &Vec<(ValueString, Value)>)
        ensures
            r@ == self.items(),
            keys_ascend(r@),
    {
        proof {
            use_type_invariant(self);
        }
        &self.entries
    }

    /// The entries are what the map holds.
    pub(crate) proof fn lemma_items(self)
        ensures
            self.items() == self.entries@,
    {
    }

    /// The map of entries whose keys ascend.
    pub(crate) fn of_ascending(entries: Vec<(ValueString, Value)>) -> (r: Dict)
        requires
            keys_ascend(entries@),
        ensures
            r.items() == entries@,
    {
        Dict { entries: Arc::new(entries) }
    }
}

impl Clone for Dict {
    fn clone(&self) -> (r: Dict)
        ensures
            r == *self,
    {
        proof {
            use_type_invariant(self);
        }
        Dict { entries: share(&self.entries) }
    }
}

/// The entries of a map, as mathematical sequences.
pub type EntriesView = Seq<(Seq<char>, ValueView)>;

/// A value as a mathematical object.
pub enum ValueView {
    Bool(bool),
    Number(Number),
    String(Seq<char>),
    HashMap(EntriesView),
    List(Seq<ValueView>),
    Func(FuncView),
}

/// The functions that the language has built in: those that a program
/// calls by name, those that operators stand for, and the two that string
/// interpolation and suffixes compile to.
#[derive(Clone, Copy, Debug, PartialEq, Eq, Structural)]
pub enum Builtin {
    ReadFile,
    GetEnv,
    Concat,
    Shell,
    Handlebars,
    ConcatStrings,
    Index,
    And,
    Or,
    Not,
    Add,
    Sub,
    Mul,
    Div,
    Equal,
    NotEqual,
    Greater,
    GreaterOrEqual,
    Less,
    LessOrEqual,
    Conditional,
}

/// Something that can be called.
#[derive(Debug)]
pub enum Func {
    BuiltInFunction(Builtin),
    BuiltInMethod(Method),
    UserDefined(UserDefinedFunction),
}

pub enum FuncView {
    BuiltInFunction(Builtin),
    BuiltInMethod(MethodView),
    UserDefined(ClosureView),
}

/// A method together with the value that it was looked up on.
#[derive(Debug)]
pub enum Method {
    HashMap(Dict, HashmapMethod),
    List(Arc<Vec<Value>>, ListMethod),
    String(ValueString, StringMethod),
}

pub enum MethodView {
    HashMap(EntriesView, HashmapMethod),
    List(Seq<ValueView>, ListMethod),
    String(Seq<char>, StringMethod),
}

/// A function that a program defined, with the scope in which it did.
#[derive(Debug)]
pub struct UserDefinedFunction {
    pub context: Context,
    pub definition: Arc<FunctionDefinition>,
}

pub struct ClosureView {
    pub context: ContextView,
    pub definition: DefinitionView,
}

/// The views of the values of a sequence.
pub open spec fn values_view(values: Seq<Value>) -> Seq<ValueView>
    decreases values,
{
    Seq::new(
        values.len(),
        |i: int|
            if 0 <= i < values.len() {
                values[i].model()
            } else {
                arbitrary()
            },
    )
}

/// The views of the entries of a sequence.
pub open spec fn entries_view(entries: Seq<(ValueString, Value)>) -> EntriesView
    decreases entries,
{
    Seq::new(
        entries.len(),
        |i: int|
            if 0 <= i < entries.len() {
                (entries[i].0@, entries[i].1.model())
            } else {
                arbitrary()
            },
    )
}

impl View for Value {
    type V = ValueView;

    open spec fn view(&self) -> ValueView {
        self.model()
    }
}

impl Value {
    /// The value as a mathematical object.
    pub open spec fn model(&self) -> ValueView
        decreases self,
    {
        match self {
            Value::Bool(b) => ValueView::Bool(*b),
            Value::Number(n) => ValueView::Number(*n),
            Value::String(s) => ValueView::String(s@),
            Value::HashMap(d) => ValueView::HashMap(entries_view(d.items())),
            Value::List(items) => ValueView::List(
                values_view(items@),
            ),
            Value::Func(f) => ValueView::Func(f.model()),
        }
    }
}

impl View for Func {
    type V = FuncView;

    open spec fn view(&self) -> FuncView {
        self.model()
    }
}

impl Func {
    /// The value as a mathematical object.
    pub open spec fn model(&self) -> FuncView
        decreases self,
    {
        match self {
            Func::BuiltInFunction(b) => FuncView::BuiltInFunction(*b),
            Func::BuiltInMethod(m) => FuncView::BuiltInMethod(m.model()),
            Func::UserDefined(u) => FuncView::UserDefined(u.model()),
        }
    }
}

impl View for Method {
    type V = MethodView;

    open spec fn view(&self) -> MethodView {
        self.model()
    }
}

impl Method {
    /// The value as a mathematical object.
    pub open spec fn model(&self) -> MethodView
        decreases self,
    {
        match self {
            Method::HashMap(d, m) => MethodView::HashMap(entries_view(d.items()), *m),
            Method::List(items, m) => MethodView::List(
                values_view(items@),
                *m,
            ),
            Method::String(s, m) => MethodView::String(s@, *m),
        }
    }
}

impl View for UserDefinedFunction {
    type V = ClosureView;

    open spec fn view(&self) -> ClosureView {
        self.model()
    }
}

impl UserDefinedFunction {
    /// The value as a mathematical object.
    pub open spec fn model(&self) -> ClosureView
        decreases self,
    {
        ClosureView { context: self.context, definition: self.definition.model() }
    }
}

/// `Arc::clone` of the standard library: another handle to the same value.
#[verifier::external_body]
pub(crate) fn share<T>(a: &Arc<T>) -> (r: Arc<T>)
    ensures
        r == *a,
{
    Arc::clone(a)
}

impl Clone for Value {
    fn clone(&self) -> (r: Value)
        ensures
            r == *self,
    {
        match self {
            Value::Bool(b) => Value::Bool(*b),
            Value::Number(n) => Value::Number(*n),
            Value::String(s) => Value::String(s.clone()),
            Value::HashMap(d) => Value::HashMap(d.clone()),
            Value::List(items) => Value::List(share(items)),
            Value::Func(f) => Value::Func(f.clone()),
        }
    }
}

impl Clone for Func {
    fn clone(&self) -> (r: Func)
        ensures
            r == *self,
    {
        match self {
            Func::BuiltInFunction(b) => Func::BuiltInFunction(*b),
            Func::BuiltInMethod(m) => Func::BuiltInMethod(m.clone()),
            Func::UserDefined(u) => Func::UserDefined(u.clone()),
        }
    }
}

impl Clone for Method {
    fn clone(&self) -> (r: Method)
        ensures
            r == *self,
    {
        match self {
            Method::HashMap(d, m) => Method::HashMap(d.clone(), *m),
            Method::List(items, m) => Method::List(share(items), *m),
            Method::String(s, m) => Method::String(s.clone(), *m),
        }
    }
}

impl Clone for UserDefinedFunction {
    fn clone(&self) -> (r: UserDefinedFunction)
        ensures
            r == *self,
    {
        UserDefinedFunction { context: self.context, definition: share(&self.definition) }
    }
}

impl Method {
    /// A method of a map.
    pub fn on_map(entries: &Dict, method: HashmapMethod) -> (r: Method)
        ensures
            r@ == MethodView::HashMap(entries_view(entries.items()), method),
    {
        Method::HashMap(entries.clone(), method)
    }

    /// A method of a list.
    pub fn on_list(items: &Arc<Vec<Value>>, method: ListMethod) -> (r: Method)
        ensures
            r@ == MethodView::List(values_view(items@), method),
    {
        Method::List(share(items), method)
    }

    /// A method of a string.
    pub fn on_string(s: &ValueString, method: StringMethod) -> (r: Method)
        ensures
            r@ == MethodView::String(s@, method),
    {
        Method::String(s.clone(), method)
    }
}

impl Func {
    pub fn new_builtin(func: Builtin) -> (r: Func)
        ensures
            r@ == FuncView::BuiltInFunction(func),
    {
        Func::BuiltInFunction(func)
    }

    pub fn new_method(method: Method) -> (r: Func)
        ensures
            r@ == FuncView::BuiltInMethod(method@),
    {
        Func::BuiltInMethod(method)
    }

    pub fn new_user_defined(context: Context, definition: Arc<FunctionDefinition>) -> (r: Func)
        ensures
            r@ == FuncView::UserDefined(
                ClosureView { context: context@, definition: definition@ },
            ),
    {
        let closure = UserDefinedFunction { context, definition };
        assert(closure@ == ClosureView { context: context@, definition: definition@ });
        Func::UserDefined(closure)
    }

    /// The function as a value.
    pub fn into_value(self) -> (r: Value)
        ensures
            r@ == ValueView::Func(self@),
    {
        Value::Func(self)
    }
}

/// The name of the kind of a value, as error messages give it.
pub open spec fn kind_name(v: ValueView) -> Seq<char> {
    match v {
        ValueView::Bool(_) => "bool"@,
        ValueView::Number(Number::Int(_)) => "int"@,
        ValueView::Number(Number::Float(_)) => "float"@,
        ValueView::String(_) => "string"@,
        ValueView::HashMap(_) => "hashmap"@,
        ValueView::List(_) => "list"@,
        ValueView::Func(_) => "function"@,
    }
}

/// Whether two values are equal. Equality goes by structure: values of
/// different kinds are unequal, lists are equal where they are as long and
/// equal item by item, maps where they hold equal values under the same
/// keys. A function equals nothing, not even itself.
pub open spec fn value_equal(a: ValueView, b: ValueView) -> bool
    decreases a,
{
    match (a, b) {
        (ValueView::Bool(x), ValueView::Bool(y)) => x == y,
        (ValueView::Number(x), ValueView::Number(y)) => number_equal(x, y),
        (ValueView::String(x), ValueView::String(y)) => x == y,
        (ValueView::List(x), ValueView::List(y)) => x.len() == y.len() && forall|i: int|
            0 <= i < x.len() ==> value_equal(#[trigger] x[i], y[i]),
        (ValueView::HashMap(x), ValueView::HashMap(y)) => x.len() == y.len() && forall|i: int|
            0 <= i < x.len() ==> (#[trigger] x[i]).0 == y[i].0 && value_equal(x[i].1, y[i].1),
        _ => false,
    }
}

impl Value {
    /// The name of the kind of the value.
    pub fn kind(&self) -> (r: &'static str)
        ensures
            r@ == kind_name(self@),
    {
        match self {
            Value::Bool(_) => "bool",
            Value::Number(Number::Int(_)) => "int",
            Value::Number(Number::Float(_)) => "float",
            Value::String(_) => "string",
            Value::HashMap(_) => "hashmap",
            Value::List(_) => "list",
            Value::Func(_) => "function",
        }
    }

    fn fail(&self, expected: &str) -> (r: TypeMismatch)
        ensures
            r.expects@ == expected@,
            r.was@ == kind_name(self@),
    {
        TypeMismatch::new(expected, self.kind())
    }

    pub fn as_int(&self) -> (r: Result<i64, TypeMismatch>)
        ensures
            match r {
                Ok(x) => self@ == ValueView::Number(Number::Int(x)),
                Err(e) => !(self@ matches ValueView::Number(Number::Int(_))) && e.expects@
                    == "int"@ && e.was@ == kind_name(self@),
            },
    {
        if let Value::Number(Number::Int(x)) = self {
            Ok(*x)
        } else {
            Err(self.fail("int"))
        }
    }

    /// The bits of a floating-point number.
    pub fn as_float(&self) -> (r: Result<u64, TypeMismatch>)
        ensures
            match r {
                Ok(x) => self@ == ValueView::Number(Number::Float(x)),
                Err(e) => !(self@ matches ValueView::Number(Number::Float(_))) && e.expects@
                    == "float"@ && e.was@ == kind_name(self@),
            },
    {
        if let Value::Number(Number::Float(x)) = self {
            Ok(*x)
        } else {
            Err(self.fail("float"))
        }
    }

    pub fn as_value_string(&self) -> (r: Result<&ValueString, TypeMismatch>)
        ensures
            match r {
                Ok(x) => *self == Value::String(*x),
                Err(e) => !(self@ is String) && e.expects@ == "string"@ && e.was@ == kind_name(
                    self@,
                ),
            },
    {
        if let Value::String(x) = self {
            Ok(x)
        } else {
            Err(self.fail("string"))
        }
    }

    pub fn as_bool(&self) -> (r: Result<bool, TypeMismatch>)
        ensures
            match r {
                Ok(x) => self@ == ValueView::Bool(x),
                Err(e) => !(self@ is Bool) && e.expects@ == "bool"@ && e.was@ == kind_name(self@),
            },
    {
        if let Value::Bool(x) = self {
            Ok(*x)
        } else {
            Err(self.fail("bool"))
        }
    }

    pub fn as_list(&self) -> (r: Result<&Vec<Value>, TypeMismatch>)
        ensures
            match r {
                Ok(x) => self@ == ValueView::List(values_view(x@)) && (*self matches Value::List(
                    items,
                ) && *items == *x),
                Err(e) => !(self@ is List) && e.expects@ == "list"@ && e.was@ == kind_name(self@),
            },
    {
        if let Value::List(x) = self {
            let items: &Vec<Value> = x;
            Ok(items)
        } else {
            Err(self.fail("list"))
        }
    }

    pub fn as_hashmap(&self) -> (r: Result<&Vec<(ValueString, Value)>, TypeMismatch>)
        ensures
            match r {
                Ok(x) => self@ == ValueView::HashMap(entries_view(x@)) && keys_ascend(x@),
                Err(e) => !(self@ is HashMap) && e.expects@ == "hashmap"@ && e.was@ == kind_name(
                    self@,
                ),
            },
    {
        if let Value::HashMap(x) = self {
            Ok(x.entries())
        } else {
            Err(self.fail("hashmap"))
        }
    }

    pub fn as_func(&self) -> (r: Result<Func, TypeMismatch>)
        ensures
            match r {
                Ok(x) => *self == Value::Func(x),
                Err(e) => !(self@ is Func) && e.expects@ == "function"@ && e.was@ == kind_name(
                    self@,
                ),
            },
    {
        if let Value::Func(func) = self {
            Ok(func.clone())
        } else {
            Err(self.fail("function"))
        }
    }

    /// Whether the two values are equal.
    #[verifier::loop_isolation(false)]
    pub fn equals(&self, other: &Value) -> (r: bool)
        ensures
            r == value_equal(self@, other@),
        decreases self,
    {
        match (self, other) {
            (Value::Bool(x), Value::Bool(y)) => *x == *y,
            (Value::Number(x), Value::Number(y)) => x.same(y),
            (Value::String(x), Value::String(y)) => *x == *y,
            (Value::List(x), Value::List(y)) => {
                if x.len() != y.len() {
                    return false;
                }
                let mut i: usize = 0;
                while i < x.len()
                    invariant
                        i <= x.len(),
                        x.len() == y.len(),
                        forall|j: int|
                            0 <= j < i ==> value_equal(
                                #[trigger] values_view(x@)[j],
                                values_view(y@)[j],
                            ),
                    decreases x.len() - i,
                {
                    if !x[i].equals(&y[i]) {
                        assert(!value_equal(values_view(x@)[i as int], values_view(y@)[i as int]));
                        return false;
                    }
                    i = i + 1;
                }
                true
            },
            (Value::HashMap(dx), Value::HashMap(dy)) => {
                let x = &dx.entries;
                let y = &dy.entries;
                if x.len() != y.len() {
                    return false;
                }
                let mut i: usize = 0;
                while i < x.len()
                    invariant
                        i <= x.len(),
                        x.len() == y.len(),
                        forall|j: int|
                            0 <= j < i ==> (#[trigger] entries_view(x@)[j]).0 == entries_view(
                                y@,
                            )[j].0 && value_equal(entries_view(x@)[j].1, entries_view(y@)[j].1),
                    decreases x.len() - i,
                {
                    if x[i].0 != y[i].0 || !x[i].1.equals(&y[i].1) {
                        assert(!(entries_view(x@)[i as int].0 == entries_view(y@)[i as int].0
                            && value_equal(
                            entries_view(x@)[i as int].1,
                            entries_view(y@)[i as int].1,
                        )));
                        return false;
                    }
                    i = i + 1;
                }
                true
            },
            _ => false,
        }
    }
}

impl PartialEq for Value {
    fn eq(&self, other: &Value) -> (r: bool) {
        self.equals(other)
    }
}

impl vstd::std_specs::cmp::PartialEqSpecImpl for Value {
    open spec fn obeys_eq_spec() -> bool {
        true
    }

    open spec fn eq_spec(&self, other: &Value) -> bool {
        value_equal(self@, other@)
    }
}

} // verus!
