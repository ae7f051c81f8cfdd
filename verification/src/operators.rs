//! The functions that operators stand for: arithmetic, comparison, logic,
//! and selection.
//!
//! The tree builder picks the function for an operator when it compiles
//! the expression; no name is looked up when the expression is resolved.
use crate::ast::{BinaryOperator, ComparisonOperator};
use crate::error::{mismatch_text, plain_error, Error, ErrorKind, ErrorView, ErrorWithLocation};
use crate::host::{ask_spec, suspended, suspended_error, unexpected_answer,
    unexpected_answer_error, Answer, Host, HostView, Request, RequestView};
use crate::number::{number_order, Number};
use crate::text::{chars_of, order_texts, text_order};
use crate::value::{kind_name, value_equal, values_view, Builtin, Value, ValueView};
use vstd::prelude::*;
use vstd::string::StringExecFns;

verus! {

/// What the library returns: a value, or an error.
pub type Outcome = Result<ValueView, ErrorView>;

/// The view of a result.
pub open spec fn outcome(r: Result<Value, ErrorWithLocation>) -> Outcome {
    match r {
        Ok(v) => Ok(v@),
        Err(e) => Err(e@),
    }
}

/// The error for a value of the wrong kind.
pub open spec fn mismatch(expects: Seq<char>, was: ValueView) -> ErrorView {
    plain_error(ErrorKind::TypeMismatch, mismatch_text(expects, kind_name(was)))
}

/// The error for a wrong number of arguments, or for an argument that the
/// function cannot work with.
pub open spec fn misuse(message: Seq<char>) -> ErrorView {
    plain_error(ErrorKind::ArityOrArgument, message)
}

pub fn mismatch_error(expects: &str, was: &Value) -> (r: ErrorWithLocation)
    ensures
        r@ == mismatch(expects@, was@),
{
    crate::error::TypeMismatch::new(expects, was.kind()).into_error()
}

pub fn misuse_error(message: &str) -> (r: ErrorWithLocation)
    ensures
        r@ == misuse(message@),
{
    ErrorWithLocation::new(ErrorKind::ArityOrArgument, message)
}

/// The function that an arithmetic operator stands for.
pub fn math(op: &BinaryOperator) -> (r: Builtin)
    ensures
        r == match *op {
            BinaryOperator::Add => Builtin::Add,
            BinaryOperator::Sub => Builtin::Sub,
            BinaryOperator::Mul => Builtin::Mul,
            BinaryOperator::Div => Builtin::Div,
        },
{
    match op {
        BinaryOperator::Add => Builtin::Add,
        BinaryOperator::Sub => Builtin::Sub,
        BinaryOperator::Mul => Builtin::Mul,
        BinaryOperator::Div => Builtin::Div,
    }
}

/// The function that a comparison operator stands for.
pub fn comparison(op: &ComparisonOperator) -> (r: Builtin)
    ensures
        r == match *op {
            ComparisonOperator::Equal => Builtin::Equal,
            ComparisonOperator::NotEqual => Builtin::NotEqual,
            ComparisonOperator::Greater => Builtin::Greater,
            ComparisonOperator::GreaterOrEqual => Builtin::GreaterOrEqual,
            ComparisonOperator::Less => Builtin::Less,
            ComparisonOperator::LessOrEqual => Builtin::LessOrEqual,
        },
{
    match op {
        ComparisonOperator::Equal => Builtin::Equal,
        ComparisonOperator::NotEqual => Builtin::NotEqual,
        ComparisonOperator::Greater => Builtin::Greater,
        ComparisonOperator::GreaterOrEqual => Builtin::GreaterOrEqual,
        ComparisonOperator::Less => Builtin::Less,
        ComparisonOperator::LessOrEqual => Builtin::LessOrEqual,
    }
}

/// `a and b`. Both operands have been resolved when the function is
/// called; the second is looked at only where the first is `true`.
pub open spec fn and_spec(args: Seq<ValueView>) -> Outcome {
    if args.len() < 2 {
        Err(misuse("expects 2 arguments"@))
    } else {
        match args[0] {
            ValueView::Bool(a) => if !a {
                Ok(ValueView::Bool(false))
            } else {
                match args[1] {
                    ValueView::Bool(b) => Ok(ValueView::Bool(b)),
                    other => Err(mismatch("bool"@, other)),
                }
            },
            other => Err(mismatch("bool"@, other)),
        }
    }
}

/// `a or b`. The second operand is looked at only where the first is
/// `false`.
pub open spec fn or_spec(args: Seq<ValueView>) -> Outcome {
    if args.len() < 2 {
        Err(misuse("expects 2 arguments"@))
    } else {
        match args[0] {
            ValueView::Bool(a) => if a {
                Ok(ValueView::Bool(true))
            } else {
                match args[1] {
                    ValueView::Bool(b) => Ok(ValueView::Bool(b)),
                    other => Err(mismatch("bool"@, other)),
                }
            },
            other => Err(mismatch("bool"@, other)),
        }
    }
}

/// `not a`.
pub open spec fn not_spec(args: Seq<ValueView>) -> Outcome {
    if args.len() < 1 {
        Err(misuse("expects 1 argument"@))
    } else {
        match args[0] {
            ValueView::Bool(a) => Ok(ValueView::Bool(!a)),
            other => Err(mismatch("bool"@, other)),
        }
    }
}

/// The second argument where the first is `true`, the third where it is
/// `false`.
pub open spec fn conditional_spec(args: Seq<ValueView>) -> Outcome {
    if args.len() < 3 {
        Err(misuse("expects 3 arguments"@))
    } else {
        match args[0] {
            ValueView::Bool(a) => Ok(
                if a {
                    args[1]
                } else {
                    args[2]
                },
            ),
            other => Err(mismatch("bool"@, other)),
        }
    }
}

pub fn and(args: &Vec<Value>) -> (r: Result<Value, Error>)
    ensures
        outcome(r) == and_spec(values_view(args@)),
{
    if args.len() < 2 {
        return Err(misuse_error("expects 2 arguments"));
    }
    match &args[0] {
        Value::Bool(a) => {
            if !*a {
                Ok(Value::Bool(false))
            } else {
                match &args[1] {
                    Value::Bool(b) => Ok(Value::Bool(*b)),
                    other => Err(mismatch_error("bool", other)),
                }
            }
        },
        other => Err(mismatch_error("bool", other)),
    }
}

pub fn or(args: &Vec<Value>) -> (r: Result<Value, Error>)
    ensures
        outcome(r) == or_spec(values_view(args@)),
{
    if args.len() < 2 {
        return Err(misuse_error("expects 2 arguments"));
    }
    match &args[0] {
        Value::Bool(a) => {
            if *a {
                Ok(Value::Bool(true))
            } else {
                match &args[1] {
                    Value::Bool(b) => Ok(Value::Bool(*b)),
                    other => Err(mismatch_error("bool", other)),
                }
            }
        },
        other => Err(mismatch_error("bool", other)),
    }
}

pub fn not(args: &Vec<Value>) -> (r: Result<Value, Error>)
    ensures
        outcome(r) == not_spec(values_view(args@)),
{
    if args.len() < 1 {
        return Err(misuse_error("expects 1 argument"));
    }
    match &args[0] {
        Value::Bool(a) => Ok(Value::Bool(!*a)),
        other => Err(mismatch_error("bool", other)),
    }
}

pub fn conditional(args: &Vec<Value>) -> (r: Result<Value, Error>)
    ensures
        outcome(r) == conditional_spec(values_view(args@)),
{
    if args.len() < 3 {
        return Err(misuse_error("expects 3 arguments"));
    }
    match &args[0] {
        Value::Bool(a) => {
            if *a {
                Ok(args[1].clone())
            } else {
                Ok(args[2].clone())
            }
        },
        other => Err(mismatch_error("bool", other)),
    }
}

/// The quotient of two integers, rounded towards zero.
pub open spec fn quotient(x: int, y: int) -> int {
    let q = (if x < 0 {
        -x
    } else {
        x
    }) / (if y < 0 {
        -y
    } else {
        y
    });
    if (x < 0) == (y < 0) {
        q
    } else {
        -q
    }
}

/// The exact result of an operation on two integers.
pub open spec fn exact(op: BinaryOperator, x: int, y: int) -> int {
    match op {
        BinaryOperator::Add => x + y,
        BinaryOperator::Sub => x - y,
        BinaryOperator::Mul => x * y,
        BinaryOperator::Div => quotient(x, y),
    }
}

/// An operation on two integers: the exact result where it is a 64-bit
/// integer, an error where it is not, and for a division by zero.
pub open spec fn int_math(op: BinaryOperator, x: i64, y: i64) -> Outcome {
    if op == BinaryOperator::Div && y == 0 {
        Err(misuse("division by zero"@))
    } else if i64::MIN <= exact(op, x as int, y as int) <= i64::MAX {
        Ok(ValueView::Number(Number::Int(exact(op, x as int, y as int) as i64)))
    } else {
        Err(misuse("integer overflow"@))
    }
}

/// An operation on two floating-point numbers: the host computes it.
pub open spec fn float_math(op: BinaryOperator, x: u64, y: u64, host: HostView) -> (
    Outcome,
    HostView,
) {
    let (answer, after) = ask_spec(host, RequestView::Arithmetic(op, x, y));
    match answer {
        None => (Err(suspended()), after),
        Some(i) => match host.answers[i] {
            Answer::Number(Number::Float(bits)) => (
                Ok(ValueView::Number(Number::Float(bits))),
                after,
            ),
            _ => (Err(unexpected_answer()), after),
        },
    }
}

/// An arithmetic operator on two arguments: two integers, or two
/// floating-point numbers. Nothing is converted.
pub open spec fn math_spec(op: BinaryOperator, args: Seq<ValueView>, host: HostView) -> (
    Outcome,
    HostView,
) {
    if args.len() != 2 {
        (Err(misuse("expects 2 arguments"@)), host)
    } else {
        match (args[0], args[1]) {
            (ValueView::Number(Number::Int(x)), ValueView::Number(Number::Int(y))) => (
                int_math(op, x, y),
                host,
            ),
            (ValueView::Number(Number::Float(x)), ValueView::Number(Number::Float(y))) => {
                float_math(op, x, y, host)
            },
            _ => (
                Err(
                    plain_error(
                        ErrorKind::TypeMismatch,
                        "expects either INT and INT or FLOAT and FLOAT"@,
                    ),
                ),
                host,
            ),
        }
    }
}

fn magnitude_of(x: i64) -> (r: u64)
    ensures
        r == if x < 0 {
            -(x as int)
        } else {
            x as int
        },
{
    if x == i64::MIN {
        9223372036854775808u64
    } else if x < 0 {
        (-x) as u64
    } else {
        x as u64
    }
}

fn int_operation(op: BinaryOperator, x: i64, y: i64) -> (r: Result<Value, Error>)
    ensures
        outcome(r) == int_math(op, x, y),
{
    let wide: i128 = match op {
        BinaryOperator::Add => (x as i128) + (y as i128),
        BinaryOperator::Sub => (x as i128) - (y as i128),
        BinaryOperator::Mul => {
            assert(-0x8000_0000_0000_0000 * 0x8000_0000_0000_0000 <= (x as int) * (y as int)
                <= 0x8000_0000_0000_0000 * 0x8000_0000_0000_0000) by (nonlinear_arith)
                requires
                    -0x8000_0000_0000_0000 <= x < 0x8000_0000_0000_0000,
                    -0x8000_0000_0000_0000 <= y < 0x8000_0000_0000_0000,
            ;
            (x as i128) * (y as i128)
        },
        BinaryOperator::Div => {
            if y == 0 {
                return Err(misuse_error("division by zero"));
            }
            let q: u64 = magnitude_of(x) / magnitude_of(y);
            if (x < 0) == (y < 0) {
                q as i128
            } else {
                -(q as i128)
            }
        },
    };
    if wide < i64::MIN as i128 || wide > i64::MAX as i128 {
        Err(misuse_error("integer overflow"))
    } else {
        Ok(Value::Number(Number::Int(wide as i64)))
    }
}

fn float_operation(op: BinaryOperator, x: u64, y: u64, host: &mut Host) -> (r: Result<
    Value,
    Error,
>)
    ensures
        (outcome(r), final(host)@) == float_math(op, x, y, old(host)@),
        final(host).answers == old(host).answers,
{
    match host.ask(Request::Arithmetic(op, x, y)) {
        None => Err(suspended_error()),
        Some(i) => match &host.answers[i] {
            Answer::Number(Number::Float(bits)) => Ok(Value::Number(Number::Float(*bits))),
            _ => Err(unexpected_answer_error()),
        },
    }
}

/// Applies an arithmetic operator to the arguments.
pub fn apply_math(op: BinaryOperator, args: &Vec<Value>, host: &mut Host) -> (r: Result<
    Value,
    Error,
>)
    ensures
        (outcome(r), final(host)@) == math_spec(op, values_view(args@), old(host)@),
        final(host).answers == old(host).answers,
{
    if args.len() != 2 {
        return Err(misuse_error("expects 2 arguments"));
    }
    match (&args[0], &args[1]) {
        (Value::Number(Number::Int(x)), Value::Number(Number::Int(y))) => int_operation(
            op,
            *x,
            *y,
        ),
        (Value::Number(Number::Float(x)), Value::Number(Number::Float(y))) => float_operation(
            op,
            *x,
            *y,
            host,
        ),
        _ => Err(
            ErrorWithLocation::new(
                ErrorKind::TypeMismatch,
                "expects either INT and INT or FLOAT and FLOAT",
            ),
        ),
    }
}

/// How two values stand to each other: -1, 0 or 1, or nothing where one of
/// them is a floating-point number that is none. Only two booleans, two
/// strings, two integers or two floating-point numbers have an order; for
/// every other pair the comparison is an error.
pub open spec fn value_order(a: ValueView, b: ValueView) -> Result<Option<int>, ErrorView> {
    match (a, b) {
        (ValueView::Bool(x), ValueView::Bool(y)) => Ok(
            Some(
                if x == y {
                    0
                } else if y {
                    -1
                } else {
                    1
                },
            ),
        ),
        (ValueView::String(x), ValueView::String(y)) => Ok(Some(text_order(x, y))),
        (ValueView::Number(Number::Int(x)), ValueView::Number(Number::Int(y))) => Ok(
            number_order(Number::Int(x), Number::Int(y)),
        ),
        (ValueView::Number(Number::Float(x)), ValueView::Number(Number::Float(y))) => Ok(
            number_order(Number::Float(x), Number::Float(y)),
        ),
        _ => Err(
            plain_error(
                ErrorKind::TypeMismatch,
                "cannot compare "@ + kind_name(a) + " with "@ + kind_name(b),
            ),
        ),
    }
}

/// Whether an order meets an ordering operator.
pub open spec fn meets(op: ComparisonOperator, order: Option<int>) -> bool {
    match op {
        ComparisonOperator::Greater => order == Some(1int),
        ComparisonOperator::GreaterOrEqual => order == Some(1int) || order == Some(0int),
        ComparisonOperator::Less => order == Some(-1int),
        ComparisonOperator::LessOrEqual => order == Some(-1int) || order == Some(0int),
        ComparisonOperator::Equal => order == Some(0int),
        ComparisonOperator::NotEqual => order != Some(0int),
    }
}

/// A comparison of two arguments. Equality is defined for every pair of
/// values; the order only for two of one kind that has an order.
pub open spec fn comparison_spec(op: ComparisonOperator, args: Seq<ValueView>) -> Outcome {
    if args.len() < 2 {
        Err(misuse("expects 2 arguments"@))
    } else {
        match op {
            ComparisonOperator::Equal => Ok(ValueView::Bool(value_equal(args[0], args[1]))),
            ComparisonOperator::NotEqual => Ok(ValueView::Bool(!value_equal(args[0], args[1]))),
            _ => match value_order(args[0], args[1]) {
                Ok(order) => Ok(ValueView::Bool(meets(op, order))),
                Err(e) => Err(e),
            },
        }
    }
}

fn order_values(a: &Value, b: &Value) -> (r: Result<Option<i8>, Error>)
    ensures
        match r {
            Ok(Some(o)) => value_order(a@, b@) == Ok::<Option<int>, ErrorView>(Some(o as int)),
            Ok(None) => value_order(a@, b@) == Ok::<Option<int>, ErrorView>(None),
            Err(e) => value_order(a@, b@) == Err::<Option<int>, ErrorView>(e@),
        },
{
    match (a, b) {
        (Value::Bool(x), Value::Bool(y)) => {
            if *x == *y {
                Ok(Some(0))
            } else if *y {
                Ok(Some(-1))
            } else {
                Ok(Some(1))
            }
        },
        (Value::String(x), Value::String(y)) => {
            let left = chars_of(x.as_str());
            let right = chars_of(y.as_str());
            Ok(Some(order_texts(&left, &right)))
        },
        (Value::Number(Number::Int(x)), Value::Number(Number::Int(y))) => Ok(
            Number::Int(*x).order(&Number::Int(*y)),
        ),
        (Value::Number(Number::Float(x)), Value::Number(Number::Float(y))) => Ok(
            Number::Float(*x).order(&Number::Float(*y)),
        ),
        _ => {
            let message = String::from_str("cannot compare ").concat(a.kind()).concat(
                " with ",
            ).concat(b.kind());
            Err(ErrorWithLocation::from_message(ErrorKind::TypeMismatch, message))
        },
    }
}

/// Compares the first two arguments.
pub fn compare(op: ComparisonOperator, args: &Vec<Value>) -> (r: Result<Value, Error>)
    ensures
        outcome(r) == comparison_spec(op, values_view(args@)),
{
    if args.len() < 2 {
        return Err(misuse_error("expects 2 arguments"));
    }
    match op {
        ComparisonOperator::Equal => Ok(Value::Bool(args[0].equals(&args[1]))),
        ComparisonOperator::NotEqual => Ok(Value::Bool(!args[0].equals(&args[1]))),
        _ => {
            match order_values(&args[0], &args[1]) {
                Err(e) => Err(e),
                Ok(order) => {
                    let holds = match op {
                        ComparisonOperator::Greater => order == Some(1i8),
                        ComparisonOperator::GreaterOrEqual => order == Some(1i8) || order == Some(
                            0i8,
                        ),
                        ComparisonOperator::Less => order == Some(-1i8),
                        _ => order == Some(-1i8) || order == Some(0i8),
                    };
                    Ok(Value::Bool(holds))
                },
            }
        },
    }
}

/// Values of different kinds are unequal. The two kinds of numbers count as
/// different kinds.
pub proof fn lemma_kinds_differ(a: ValueView, b: ValueView)
    requires
        kind_name(a) != kind_name(b),
    ensures
        !value_equal(a, b),
{
    if value_equal(a, b) {
        match (a, b) {
            (ValueView::Number(x), ValueView::Number(y)) => {
                assert(kind_name(a) == kind_name(b));
            },
            _ => {
                assert(kind_name(a) == kind_name(b));
            },
        }
    }
}

} // verus!
