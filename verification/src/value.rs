//! Runtime values and the operations of the language on them.

use vstd::prelude::*;
use vstd::string::*;
use crate::ast::{Operator, UnaryOperator};
use crate::error::RuntimeError;
use crate::text::{decimal, render_int};

verus! {

/// What a [`Value`] is, mathematically.
pub enum ValueView {
    Str(Seq<char>),
    Int(i64),
    Bool(bool),
}

/// A runtime value. Every variable holds exactly one.
#[derive(Debug, PartialEq, Eq)]
pub enum Value {
    Str(String),
    Int(i64),
    Bool(bool),
}

impl View for Value {
    type V = ValueView;

    open spec fn view(&self) -> ValueView {
        match self {
            Value::Str(s) => ValueView::Str(s@),
            Value::Int(i) => ValueView::Int(*i),
            Value::Bool(b) => ValueView::Bool(*b),
        }
    }
}

impl Clone for Value {
    fn clone(&self) -> (r: Value)
        ensures
            r@ == self@,
    {
        match self {
            Value::Str(s) => Value::Str(s.clone()),
            Value::Int(i) => Value::Int(*i),
            Value::Bool(b) => Value::Bool(*b),
        }
    }
}

/// Truthiness: the empty string, zero and `false` are false; all else is true.
pub open spec fn truthy(v: ValueView) -> bool {
    match v {
        ValueView::Str(s) => s.len() != 0,
        ValueView::Int(i) => i != 0,
        ValueView::Bool(b) => b,
    }
}

/// The display form of a value: a string as it is, an integer in decimal,
/// a boolean as `true` or `false`.
pub open spec fn display(v: ValueView) -> Seq<char> {
    match v {
        ValueView::Str(s) => s,
        ValueView::Int(i) => decimal(i as int),
        ValueView::Bool(b) => if b {
            "true"@
        } else {
            "false"@
        },
    }
}

/// Whether `x` is a 64-bit signed integer.
pub open spec fn in_range(x: int) -> bool {
    i64::MIN <= x <= i64::MAX
}

/// The integer `x` as a value, or an overflow where it does not fit.
pub open spec fn int_result(x: int) -> Result<ValueView, RuntimeError> {
    if in_range(x) {
        Ok(ValueView::Int(x as i64))
    } else {
        Err(RuntimeError::Overflow)
    }
}

/// The absolute value of `x`.
pub open spec fn magnitude(x: int) -> int {
    if x < 0 {
        -x
    } else {
        x
    }
}

/// The quotient of `a` by `b`, rounded toward zero.
pub open spec fn quotient(a: int, b: int) -> int
    recommends
        b != 0,
{
    if (a < 0) == (b < 0) {
        magnitude(a) / magnitude(b)
    } else {
        -(magnitude(a) / magnitude(b))
    }
}

/// The remainder that goes with [`quotient`]: it has the sign of `a`.
pub open spec fn remainder(a: int, b: int) -> int
    recommends
        b != 0,
{
    if a < 0 {
        -(magnitude(a) % magnitude(b))
    } else {
        magnitude(a) % magnitude(b)
    }
}

/// Addition is driven by the left operand: a string takes the display form
/// of anything appended, an integer adds an integer, all else is a type error.
pub open spec fn add_values(l: ValueView, r: ValueView) -> Result<ValueView, RuntimeError> {
    match l {
        ValueView::Str(s) => Ok(ValueView::Str(s + display(r))),
        ValueView::Int(a) => match r {
            ValueView::Int(b) => int_result(a + b),
            _ => Err(RuntimeError::Type),
        },
        ValueView::Bool(_) => Err(RuntimeError::Type),
    }
}

/// Subtraction, multiplication, division and remainder of two integers.
pub open spec fn arithmetic(op: Operator, a: i64, b: i64) -> Result<ValueView, RuntimeError> {
    match op {
        Operator::Subtract => int_result(a - b),
        Operator::Multiply => int_result(a * b),
        Operator::Divide => if b == 0 {
            Err(RuntimeError::DivisionByZero)
        } else {
            int_result(quotient(a as int, b as int))
        },
        _ => if b == 0 {
            Err(RuntimeError::DivisionByZero)
        } else {
            int_result(remainder(a as int, b as int))
        },
    }
}

/// What a binary operator makes of two values.
pub open spec fn binary(op: Operator, l: ValueView, r: ValueView) -> Result<
    ValueView,
    RuntimeError,
> {
    match op {
        Operator::Add => add_values(l, r),
        Operator::And => Ok(ValueView::Bool(truthy(l) && truthy(r))),
        Operator::Or => Ok(ValueView::Bool(truthy(l) || truthy(r))),
        Operator::Equals => Ok(ValueView::Bool(l == r)),
        _ => match (l, r) {
            (ValueView::Int(a), ValueView::Int(b)) => arithmetic(op, a, b),
            _ => Err(RuntimeError::Type),
        },
    }
}

/// What a unary operator makes of a value.
pub open spec fn unary(op: UnaryOperator, v: ValueView) -> Result<ValueView, RuntimeError> {
    match op {
        UnaryOperator::Not => Ok(ValueView::Bool(!truthy(v))),
        UnaryOperator::Negative => match v {
            ValueView::Int(a) => int_result(-a),
            _ => Err(RuntimeError::Type),
        },
    }
}

fn magnitude_of(x: i64) -> (m: u64)
    ensures
        m == magnitude(x as int),
{
    if x < 0 {
        (-(x as i128)) as u64
    } else {
        x as u64
    }
}

fn int_value(x: i128) -> (r: Result<Value, RuntimeError>)
    ensures
        value_result_view(r) == int_result(x as int),
{
    if x < i64::MIN as i128 || x > i64::MAX as i128 {
        Err(RuntimeError::Overflow)
    } else {
        Ok(Value::Int(x as i64))
    }
}

/// The view of a result that holds a value.
pub open spec fn value_result_view(r: Result<Value, RuntimeError>) -> Result<
    ValueView,
    RuntimeError,
> {
    match r {
        Ok(v) => Ok(v@),
        Err(e) => Err(e),
    }
}

impl Value {
    /// Adds `other` to the value.
    pub fn add(&self, other: Value) -> (r: Result<Value, RuntimeError>)
        ensures
            value_result_view(r) == add_values(self@, other@),
    {
        match self {
            Value::Str(s) => {
                let mut out = s.clone();
                let tail = other.to_text();
                out.append(tail.as_str());
                Ok(Value::Str(out))
            },
            Value::Int(a) => match other {
                Value::Int(b) => int_value(*a as i128 + b as i128),
                _ => Err(RuntimeError::Type),
            },
            Value::Bool(_) => Err(RuntimeError::Type),
        }
    }

    /// Whether two values are of one variant and equal in it.
    pub fn equals(&self, other: &Value) -> (b: bool)
        ensures
            b == (self@ == other@),
    {
        match (self, other) {
            (Value::Str(a), Value::Str(b)) => *a == *b,
            (Value::Int(a), Value::Int(b)) => *a == *b,
            (Value::Bool(a), Value::Bool(b)) => *a == *b,
            _ => false,
        }
    }

    /// Applies a binary operator to two values.
    pub fn binary(op: Operator, lhs: &Value, rhs: Value) -> (r: Result<Value, RuntimeError>)
        ensures
            value_result_view(r) == binary(op, lhs@, rhs@),
    {
        match op {
            Operator::Add => lhs.add(rhs),
            Operator::And => {
                let l = lhs.as_bool();
                let r = rhs.as_bool();
                Ok(Value::Bool(l && r))
            },
            Operator::Or => {
                let l = lhs.as_bool();
                let r = rhs.as_bool();
                Ok(Value::Bool(l || r))
            },
            Operator::Equals => Ok(Value::Bool(lhs.equals(&rhs))),
            _ => match (lhs, rhs) {
                (Value::Int(a), Value::Int(b)) => Value::arithmetic(op, *a, b),
                _ => Err(RuntimeError::Type),
            },
        }
    }

    fn arithmetic(op: Operator, a: i64, b: i64) -> (r: Result<Value, RuntimeError>)
        ensures
            value_result_view(r) == arithmetic(op, a, b),
    {
        match op {
            Operator::Subtract => int_value(a as i128 - b as i128),
            Operator::Multiply => match a.checked_mul(b) {
                Some(p) => Ok(Value::Int(p)),
                None => Err(RuntimeError::Overflow),
            },
            Operator::Divide => {
                if b == 0 {
                    Err(RuntimeError::DivisionByZero)
                } else {
                    let q: u64 = magnitude_of(a) / magnitude_of(b);
                    if (a < 0) == (b < 0) {
                        int_value(q as i128)
                    } else {
                        int_value(-(q as i128))
                    }
                }
            },
            _ => {
                if b == 0 {
                    Err(RuntimeError::DivisionByZero)
                } else {
                    let m: u64 = magnitude_of(a) % magnitude_of(b);
                    if a < 0 {
                        int_value(-(m as i128))
                    } else {
                        int_value(m as i128)
                    }
                }
            },
        }
    }

    /// Applies a unary operator to a value.
    pub fn unary(op: UnaryOperator, v: &Value) -> (r: Result<Value, RuntimeError>)
        ensures
            value_result_view(r) == unary(op, v@),
    {
        match op {
            UnaryOperator::Not => Ok(Value::Bool(!v.as_bool())),
            UnaryOperator::Negative => match v {
                Value::Int(a) => int_value(-(*a as i128)),
                _ => Err(RuntimeError::Type),
            },
        }
    }

    /// Coerces the value to a boolean.
    pub fn as_bool(&self) -> (b: bool)
        ensures
            b == truthy(self@),
    {
        match self {
            Value::Str(s) => !s.as_str().is_empty(),
            Value::Int(i) => *i != 0,
            Value::Bool(b) => *b,
        }
    }

    /// The display form of the value.
    pub fn to_text(&self) -> (r: String)
        ensures
            r@ == display(self@),
    {
        match self {
            Value::Str(s) => s.clone(),
            Value::Int(i) => render_int(*i),
            Value::Bool(b) => if *b {
                String::from_str("true")
            } else {
                String::from_str("false")
            },
        }
    }
}

} // verus!
