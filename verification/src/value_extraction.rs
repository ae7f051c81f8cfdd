//! Taking the arguments of a builtin apart.
use crate::error::{Error, ErrorKind, ErrorView, ErrorWithLocation};
use crate::operators::{misuse, misuse_error};
use crate::text::{decimal, natural_of, text_of};
use crate::value::{values_view, Func, Value, ValueString, ValueView};
use vstd::prelude::*;
use vstd::string::StringExecFns;

verus! {

/// The arguments of a call, known to be as many as the function takes.
pub struct ValueExtractor<'a> {
    pub args: &'a Vec<Value>,
}

/// The error for a wrong number of arguments.
pub open spec fn arity_error(expected: int) -> ErrorView {
    misuse("expects "@ + decimal(expected) + " arguments"@)
}

/// The arguments, if there are `expected` of them.
pub open spec fn extractor_spec(args: Seq<ValueView>, expected: int) -> Result<
    Seq<ValueView>,
    ErrorView,
> {
    if args.len() == expected {
        Ok(args)
    } else {
        Err(arity_error(expected))
    }
}

/// The string at index `ix`.
pub open spec fn string_at(args: Seq<ValueView>, ix: int) -> Result<Seq<char>, ErrorView> {
    match args[ix] {
        ValueView::String(s) => Ok(s),
        _ => Err(misuse("expects a string"@)),
    }
}

/// The function at index `ix`.
pub open spec fn func_at(args: Seq<ValueView>, ix: int) -> Result<crate::value::FuncView, ErrorView> {
    match args[ix] {
        ValueView::Func(f) => Ok(f),
        _ => Err(misuse("expects a function"@)),
    }
}

impl<'a> ValueExtractor<'a> {
    pub fn new(args: &'a Vec<Value>, required_arg_count: usize) -> (r: Result<Self, Error>)
        ensures
            match r {
                Ok(x) => x.args == args && extractor_spec(
                    values_view(args@),
                    required_arg_count as int,
                ) == Ok::<Seq<ValueView>, ErrorView>(values_view(args@)),
                Err(e) => extractor_spec(values_view(args@), required_arg_count as int) == Err::<
                    Seq<ValueView>,
                    ErrorView,
                >(e@),
            },
    {
        if args.len() != required_arg_count {
            let count = text_of(&natural_of(required_arg_count));
            let message = String::from_str("expects ").concat(count.as_str()).concat(
                " arguments",
            );
            return Err(ErrorWithLocation::from_message(ErrorKind::ArityOrArgument, message));
        }
        Ok(ValueExtractor { args })
    }

    pub fn extract_string(&self, ix: usize) -> (r: Result<&'a ValueString, Error>)
        requires
            ix < self.args@.len(),
        ensures
            match r {
                Ok(s) => string_at(values_view(self.args@), ix as int) == Ok::<
                    Seq<char>,
                    ErrorView,
                >(s@),
                Err(e) => string_at(values_view(self.args@), ix as int) == Err::<
                    Seq<char>,
                    ErrorView,
                >(e@),
            },
    {
        let args: &'a Vec<Value> = self.args;
        if let Value::String(s) = &args[ix] {
            Ok(s)
        } else {
            Err(misuse_error("expects a string"))
        }
    }

    pub fn extract_func(&self, ix: usize) -> (r: Result<Func, Error>)
        requires
            ix < self.args@.len(),
        ensures
            match r {
                Ok(f) => func_at(values_view(self.args@), ix as int) == Ok::<
                    crate::value::FuncView,
                    ErrorView,
                >(f@),
                Err(e) => func_at(values_view(self.args@), ix as int) == Err::<
                    crate::value::FuncView,
                    ErrorView,
                >(e@),
            },
    {
        if let Value::Func(x) = &self.args[ix] {
            Ok(x.clone())
        } else {
            Err(misuse_error("expects a function"))
        }
    }
}

} // verus!
