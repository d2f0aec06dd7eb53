//! The values of expressions.
//!
//! An environment gives a value to every variable. An expression has a value
//! in an environment where its variables hold values of the kinds and sizes
//! that it uses them at, and where no partial operation fails: no division
//! by zero, no index beyond the end of an array. Structs, tuples and the
//! equality of aggregates are outside this model: an expression that needs
//! them has no value here.

use crate::field::{difference_mod, power_mod, product_mod, quotient_mod, sum_mod, Field};
use crate::list::List;
use crate::typed::{
    ArrayExpression, ArrayExpressionInner, BooleanExpression, FieldElementExpression,
    SelectExpression, TypedExpression, TypedExpressionOrSpread, UExpression, UExpressionInner,
};
use crate::types::{ArraySize, UBitwidth};
use crate::uint_rules::{
    complement, difference, floor_difference, negation, product, quotient, remainder, shift_left,
    shift_right, sum,
};
use vstd::prelude::*;

verus! {

/// What an expression evaluates to.
pub ghost enum Value {
    /// The representative of a field element.
    Field(nat),
    Boolean(bool),
    Uint(nat),
    Array(Seq<Value>),
}

/// The values of the variables, by the number of the variable.
pub type Environment = Map<u64, Value>;

/// `x`, where it fits in a type of `bw` bits.
pub open spec fn ranged(bw: UBitwidth, x: int) -> Option<nat> {
    if 0 <= x < bw.range() {
        Some(x as nat)
    } else {
        None
    }
}

pub open spec fn value_of<T: Field>(env: Environment, e: TypedExpression<T>) -> Option<Value>
    decreases e,
{
    match e {
        TypedExpression::Boolean(b) => match boolean_value(env, b) {
            Some(x) => Some(Value::Boolean(x)),
            None => None,
        },
        TypedExpression::FieldElement(f) => match field_value(env, f) {
            Some(x) => Some(Value::Field(x)),
            None => None,
        },
        TypedExpression::Uint(u) => match uint_value(env, u) {
            Some(x) => Some(Value::Uint(x)),
            None => None,
        },
        TypedExpression::Array(a) => match array_value(env, a) {
            Some(x) => Some(Value::Array(x)),
            None => None,
        },
        _ => None,
    }
}

/// The element that a selection picks.
pub open spec fn selected<T: Field>(env: Environment, s: SelectExpression<T>) -> Option<Value>
    decreases s,
{
    match (array_value(env, *s.array), uint_value(env, *s.index)) {
        (Some(a), Some(i)) => if i < a.len() {
            Some(a[i as int])
        } else {
            None
        },
        _ => None,
    }
}

pub open spec fn field_value<T: Field>(env: Environment, e: FieldElementExpression<T>) -> Option<nat>
    decreases e,
{
    let p = T::modulus();
    match e {
        FieldElementExpression::Number(n) => if n.value.value() < p {
            Some(n.value.value())
        } else {
            None
        },
        FieldElementExpression::Identifier(id) => if env.contains_key(id.id.id) {
            match env[id.id.id] {
                Value::Field(x) => if x < p {
                    Some(x)
                } else {
                    None
                },
                _ => None,
            }
        } else {
            None
        },
        FieldElementExpression::Add(b) => match (field_value(env, *b.left), field_value(env, *b.right)) {
            (Some(x), Some(y)) => Some(sum_mod(x, y, p)),
            _ => None,
        },
        FieldElementExpression::Sub(b) => match (field_value(env, *b.left), field_value(env, *b.right)) {
            (Some(x), Some(y)) => Some(difference_mod(x, y, p)),
            _ => None,
        },
        FieldElementExpression::Mult(b) => match (
            field_value(env, *b.left),
            field_value(env, *b.right),
        ) {
            (Some(x), Some(y)) => Some(product_mod(x, y, p)),
            _ => None,
        },
        FieldElementExpression::Div(b) => match (field_value(env, *b.left), field_value(env, *b.right)) {
            (Some(x), Some(y)) => if y == 0 {
                None
            } else {
                Some(quotient_mod(x, y, p))
            },
            _ => None,
        },
        FieldElementExpression::Pow(b) => match (field_value(env, *b.left), uint_value(env, *b.right)) {
            (Some(x), Some(y)) => Some(power_mod(x, y, p)),
            _ => None,
        },
        FieldElementExpression::Neg(u) => match field_value(env, *u.inner) {
            Some(x) => Some(difference_mod(0, x, p)),
            None => None,
        },
        FieldElementExpression::Pos(u) => field_value(env, *u.inner),
        FieldElementExpression::Conditional(x) => match boolean_value(env, *x.condition) {
            Some(true) => field_value(env, *x.consequence),
            Some(false) => field_value(env, *x.alternative),
            None => None,
        },
        FieldElementExpression::Select(s) => match selected(env, s) {
            Some(Value::Field(x)) => if x < p {
                Some(x)
            } else {
                None
            },
            _ => None,
        },
        _ => None,
    }
}

pub open spec fn boolean_value<T: Field>(env: Environment, e: BooleanExpression<T>) -> Option<bool>
    decreases e,
{
    match e {
        BooleanExpression::Value(v) => Some(v.value),
        BooleanExpression::Identifier(id) => if env.contains_key(id.id.id) {
            match env[id.id.id] {
                Value::Boolean(x) => Some(x),
                _ => None,
            }
        } else {
            None
        },
        BooleanExpression::FieldLt(b) => match (field_value(env, *b.left), field_value(env, *b.right)) {
            (Some(x), Some(y)) => Some(x < y),
            _ => None,
        },
        BooleanExpression::FieldLe(b) => match (field_value(env, *b.left), field_value(env, *b.right)) {
            (Some(x), Some(y)) => Some(x <= y),
            _ => None,
        },
        BooleanExpression::UintLt(b) => match (uint_value(env, *b.left), uint_value(env, *b.right)) {
            (Some(x), Some(y)) => Some(x < y),
            _ => None,
        },
        BooleanExpression::UintLe(b) => match (uint_value(env, *b.left), uint_value(env, *b.right)) {
            (Some(x), Some(y)) => Some(x <= y),
            _ => None,
        },
        BooleanExpression::FieldEq(b) => match (field_value(env, *b.left), field_value(env, *b.right)) {
            (Some(x), Some(y)) => Some(x == y),
            _ => None,
        },
        BooleanExpression::BoolEq(b) => match (
            boolean_value(env, *b.left),
            boolean_value(env, *b.right),
        ) {
            (Some(x), Some(y)) => Some(x == y),
            _ => None,
        },
        BooleanExpression::UintEq(b) => match (uint_value(env, *b.left), uint_value(env, *b.right)) {
            (Some(x), Some(y)) => if b.left.bitwidth == b.right.bitwidth {
                Some(x == y)
            } else {
                None
            },
            _ => None,
        },
        BooleanExpression::Or(b) => match (boolean_value(env, *b.left), boolean_value(env, *b.right)) {
            (Some(x), Some(y)) => Some(x || y),
            _ => None,
        },
        BooleanExpression::And(b) => match (boolean_value(env, *b.left), boolean_value(env, *b.right)) {
            (Some(x), Some(y)) => Some(x && y),
            _ => None,
        },
        BooleanExpression::Not(u) => match boolean_value(env, *u.inner) {
            Some(x) => Some(!x),
            None => None,
        },
        BooleanExpression::Conditional(x) => match boolean_value(env, *x.condition) {
            Some(true) => boolean_value(env, *x.consequence),
            Some(false) => boolean_value(env, *x.alternative),
            None => None,
        },
        BooleanExpression::Select(s) => match selected(env, s) {
            Some(Value::Boolean(x)) => Some(x),
            _ => None,
        },
        _ => None,
    }
}

pub open spec fn uint_value<T: Field>(env: Environment, e: UExpression<T>) -> Option<nat>
    decreases e,
{
    uint_inner_value(env, e.bitwidth, e.inner)
}

/// The values of both operands of an operator on unsigned integers.
pub open spec fn operand_values<T: Field, Op>(
    env: Environment,
    b: crate::expressions::BinaryExpression<Op, UExpression<T>, UExpression<T>, UExpression<T>>,
) -> Option<(u128, u128)>
    decreases b,
{
    match (uint_value(env, *b.left), uint_value(env, *b.right)) {
        (Some(x), Some(y)) => Some((x as u128, y as u128)),
        _ => None,
    }
}

pub open spec fn uint_inner_value<T: Field>(
    env: Environment,
    bw: UBitwidth,
    e: UExpressionInner<T>,
) -> Option<nat>
    decreases e,
{
    match e {
        UExpressionInner::Value(v) => ranged(bw, v.value as int),
        UExpressionInner::Identifier(id) => if env.contains_key(id.id.id) {
            match env[id.id.id] {
                Value::Uint(x) => ranged(bw, x as int),
                _ => None,
            }
        } else {
            None
        },
        UExpressionInner::Add(b) => match operand_values(env, b) {
            Some((x, y)) => ranged(bw, sum(bw, x, y) as int),
            None => None,
        },
        UExpressionInner::Sub(b) => match operand_values(env, b) {
            Some((x, y)) => ranged(bw, difference(bw, x, y) as int),
            None => None,
        },
        UExpressionInner::FloorSub(b) => match operand_values(env, b) {
            Some((x, y)) => ranged(bw, floor_difference(bw, x, y) as int),
            None => None,
        },
        UExpressionInner::Mult(b) => match operand_values(env, b) {
            Some((x, y)) => ranged(bw, product(bw, x, y) as int),
            None => None,
        },
        UExpressionInner::Div(b) => match operand_values(env, b) {
            Some((x, y)) => if y == 0 {
                None
            } else {
                ranged(bw, quotient(bw, x, y) as int)
            },
            None => None,
        },
        UExpressionInner::Rem(b) => match operand_values(env, b) {
            Some((x, y)) => if y == 0 {
                None
            } else {
                ranged(bw, remainder(bw, x, y) as int)
            },
            None => None,
        },
        UExpressionInner::Xor(b) => match operand_values(env, b) {
            Some((x, y)) => ranged(bw, (x ^ y) as int),
            None => None,
        },
        UExpressionInner::And(b) => match operand_values(env, b) {
            Some((x, y)) => ranged(bw, (x & y) as int),
            None => None,
        },
        UExpressionInner::Or(b) => match operand_values(env, b) {
            Some((x, y)) => ranged(bw, (x | y) as int),
            None => None,
        },
        UExpressionInner::LeftShift(b) => match operand_values(env, b) {
            Some((x, y)) => ranged(bw, shift_left(bw, x, y) as int),
            None => None,
        },
        UExpressionInner::RightShift(b) => match operand_values(env, b) {
            Some((x, y)) => ranged(bw, shift_right(x, y) as int),
            None => None,
        },
        UExpressionInner::Not(u) => match uint_value(env, *u.inner) {
            Some(x) => ranged(bw, complement(bw, x as u128) as int),
            None => None,
        },
        UExpressionInner::Neg(u) => match uint_value(env, *u.inner) {
            Some(x) => ranged(bw, negation(bw, x as u128) as int),
            None => None,
        },
        UExpressionInner::Pos(u) => match uint_value(env, *u.inner) {
            Some(x) => ranged(bw, x as int),
            None => None,
        },
        UExpressionInner::Conditional(x) => match boolean_value(env, *x.condition) {
            Some(true) => match uint_value(env, *x.consequence) {
                Some(v) => ranged(bw, v as int),
                None => None,
            },
            Some(false) => match uint_value(env, *x.alternative) {
                Some(v) => ranged(bw, v as int),
                None => None,
            },
            None => None,
        },
        UExpressionInner::Select(s) => match selected(env, s) {
            Some(Value::Uint(x)) => ranged(bw, x as int),
            _ => None,
        },
        _ => None,
    }
}

/// `values`, where their number is the length that the type of the array
/// gives, if it gives one.
pub open spec fn sized(size: ArraySize, values: Seq<Value>) -> Option<Seq<Value>> {
    match size {
        ArraySize::Constant(k) => if values.len() == k {
            Some(values)
        } else {
            None
        },
        ArraySize::Generic(_) => Some(values),
    }
}

pub open spec fn array_value<T: Field>(env: Environment, e: ArrayExpression<T>) -> Option<Seq<Value>>
    decreases e,
{
    match array_inner_value(env, e.inner) {
        Some(values) => sized(e.ty.size, values),
        None => None,
    }
}

pub open spec fn array_inner_value<T: Field>(env: Environment, e: ArrayExpressionInner<T>) -> Option<
    Seq<Value>,
>
    decreases e,
{
    match e {
        ArrayExpressionInner::Value(v) => element_values(env, v.value),
        ArrayExpressionInner::Identifier(id) => if env.contains_key(id.id.id) {
            match env[id.id.id] {
                Value::Array(x) => Some(x),
                _ => None,
            }
        } else {
            None
        },
        ArrayExpressionInner::Conditional(x) => match boolean_value(env, *x.condition) {
            Some(true) => array_value(env, *x.consequence),
            Some(false) => array_value(env, *x.alternative),
            None => None,
        },
        ArrayExpressionInner::Select(s) => match selected(env, s) {
            Some(Value::Array(x)) => Some(x),
            _ => None,
        },
        _ => None,
    }
}

/// The values of the elements of an array literal: the value of each
/// expression, and all the values of each array that is spread.
pub open spec fn element_values<T: Field>(env: Environment, l: List<TypedExpressionOrSpread<T>>) -> Option<
    Seq<Value>,
>
    decreases l,
{
    match l {
        List::Nil => Some(Seq::empty()),
        List::Cons(n) => {
            let head = match n.head {
                TypedExpressionOrSpread::Expression(e) => match value_of(env, e) {
                    Some(x) => Some(seq![x]),
                    None => None,
                },
                TypedExpressionOrSpread::Spread(s) => array_value(env, s.array),
            };
            match (head, element_values(env, n.tail)) {
                (Some(a), Some(b)) => Some(a + b),
                _ => None,
            }
        },
    }
}

} // verus!
