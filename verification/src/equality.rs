//! Structural equality of typed trees.

use crate::common::same_span;
use crate::expressions::{BinaryExpression, UnaryExpression};
use crate::field::Field;
use crate::list::List;
use crate::typed::{
    ArrayExpression, ArrayExpressionInner, BooleanExpression, ElementExpression,
    FieldElementExpression, MemberExpression, SelectExpression, StructExpression,
    StructExpressionInner, TupleExpression, TupleExpressionInner, TypedExpression,
    TypedExpressionOrSpread, UExpression, UExpressionInner,
};
use crate::types::same_types;
use vstd::prelude::*;

verus! {

impl<T: Field> FieldElementExpression<T> {
    /// Whether the two trees are the same tree.
    pub fn same(&self, other: &FieldElementExpression<T>) -> (r: bool)
        ensures
            r == (*self == *other),
        decreases *self,
    {
        match self {
            FieldElementExpression::Number(a) => match other {
                FieldElementExpression::Number(b) => same_span(&a.span, &b.span) && a.value.same(&b.value),
                _ => false,
            },
            FieldElementExpression::Identifier(a) => match other {
                FieldElementExpression::Identifier(b) => same_span(&a.span, &b.span) && a.id == b.id,
                _ => false,
            },
            FieldElementExpression::Add(a) => match other {
                FieldElementExpression::Add(b) => same_span(&a.span, &b.span) && a.left.same(&b.left) && a.right.same(&b.right),
                _ => false,
            },
            FieldElementExpression::Sub(a) => match other {
                FieldElementExpression::Sub(b) => same_span(&a.span, &b.span) && a.left.same(&b.left) && a.right.same(&b.right),
                _ => false,
            },
            FieldElementExpression::Mult(a) => match other {
                FieldElementExpression::Mult(b) => same_span(&a.span, &b.span) && a.left.same(&b.left) && a.right.same(&b.right),
                _ => false,
            },
            FieldElementExpression::Div(a) => match other {
                FieldElementExpression::Div(b) => same_span(&a.span, &b.span) && a.left.same(&b.left) && a.right.same(&b.right),
                _ => false,
            },
            FieldElementExpression::Pow(a) => match other {
                FieldElementExpression::Pow(b) => same_span(&a.span, &b.span) && a.left.same(&b.left) && a.right.same(&b.right),
                _ => false,
            },
            FieldElementExpression::Neg(a) => match other {
                FieldElementExpression::Neg(b) => same_span(&a.span, &b.span) && a.inner.same(&b.inner),
                _ => false,
            },
            FieldElementExpression::Pos(a) => match other {
                FieldElementExpression::Pos(b) => same_span(&a.span, &b.span) && a.inner.same(&b.inner),
                _ => false,
            },
            FieldElementExpression::Conditional(a) => match other {
                FieldElementExpression::Conditional(b) => same_span(&a.span, &b.span) && a.kind == b.kind && a.condition.same(&b.condition)
                    && a.consequence.same(&b.consequence) && a.alternative.same(&b.alternative),
                _ => false,
            },
            FieldElementExpression::Select(a) => match other {
                FieldElementExpression::Select(b) => a.same(b),
                _ => false,
            },
            FieldElementExpression::Member(a) => match other {
                FieldElementExpression::Member(b) => a.same(b),
                _ => false,
            },
            FieldElementExpression::Element(a) => match other {
                FieldElementExpression::Element(b) => a.same(b),
                _ => false,
            },
        }
    }
}

impl<T: Field> BooleanExpression<T> {
    /// Whether the two trees are the same tree.
    pub fn same(&self, other: &BooleanExpression<T>) -> (r: bool)
        ensures
            r == (*self == *other),
        decreases *self,
    {
        match self {
            BooleanExpression::Value(a) => match other {
                BooleanExpression::Value(b) => same_span(&a.span, &b.span) && a.value == b.value,
                _ => false,
            },
            BooleanExpression::Identifier(a) => match other {
                BooleanExpression::Identifier(b) => same_span(&a.span, &b.span) && a.id == b.id,
                _ => false,
            },
            BooleanExpression::FieldLt(a) => match other {
                BooleanExpression::FieldLt(b) => same_span(&a.span, &b.span) && a.left.same(&b.left) && a.right.same(&b.right),
                _ => false,
            },
            BooleanExpression::FieldLe(a) => match other {
                BooleanExpression::FieldLe(b) => same_span(&a.span, &b.span) && a.left.same(&b.left) && a.right.same(&b.right),
                _ => false,
            },
            BooleanExpression::UintLt(a) => match other {
                BooleanExpression::UintLt(b) => same_span(&a.span, &b.span) && a.left.same(&b.left) && a.right.same(&b.right),
                _ => false,
            },
            BooleanExpression::UintLe(a) => match other {
                BooleanExpression::UintLe(b) => same_span(&a.span, &b.span) && a.left.same(&b.left) && a.right.same(&b.right),
                _ => false,
            },
            BooleanExpression::FieldEq(a) => match other {
                BooleanExpression::FieldEq(b) => same_span(&a.span, &b.span) && a.left.same(&b.left) && a.right.same(&b.right),
                _ => false,
            },
            BooleanExpression::BoolEq(a) => match other {
                BooleanExpression::BoolEq(b) => same_span(&a.span, &b.span) && a.left.same(&b.left) && a.right.same(&b.right),
                _ => false,
            },
            BooleanExpression::ArrayEq(a) => match other {
                BooleanExpression::ArrayEq(b) => same_span(&a.span, &b.span) && a.left.same(&b.left) && a.right.same(&b.right),
                _ => false,
            },
            BooleanExpression::StructEq(a) => match other {
                BooleanExpression::StructEq(b) => same_span(&a.span, &b.span) && a.left.same(&b.left) && a.right.same(&b.right),
                _ => false,
            },
            BooleanExpression::TupleEq(a) => match other {
                BooleanExpression::TupleEq(b) => same_span(&a.span, &b.span) && a.left.same(&b.left) && a.right.same(&b.right),
                _ => false,
            },
            BooleanExpression::UintEq(a) => match other {
                BooleanExpression::UintEq(b) => same_span(&a.span, &b.span) && a.left.same(&b.left) && a.right.same(&b.right),
                _ => false,
            },
            BooleanExpression::Or(a) => match other {
                BooleanExpression::Or(b) => same_span(&a.span, &b.span) && a.left.same(&b.left) && a.right.same(&b.right),
                _ => false,
            },
            BooleanExpression::And(a) => match other {
                BooleanExpression::And(b) => same_span(&a.span, &b.span) && a.left.same(&b.left) && a.right.same(&b.right),
                _ => false,
            },
            BooleanExpression::Not(a) => match other {
                BooleanExpression::Not(b) => same_span(&a.span, &b.span) && a.inner.same(&b.inner),
                _ => false,
            },
            BooleanExpression::Conditional(a) => match other {
                BooleanExpression::Conditional(b) => same_span(&a.span, &b.span) && a.kind == b.kind && a.condition.same(&b.condition)
                    && a.consequence.same(&b.consequence) && a.alternative.same(&b.alternative),
                _ => false,
            },
            BooleanExpression::Select(a) => match other {
                BooleanExpression::Select(b) => a.same(b),
                _ => false,
            },
            BooleanExpression::Member(a) => match other {
                BooleanExpression::Member(b) => a.same(b),
                _ => false,
            },
            BooleanExpression::Element(a) => match other {
                BooleanExpression::Element(b) => a.same(b),
                _ => false,
            },
        }
    }
}

impl<T: Field> UExpressionInner<T> {
    /// Whether the two trees are the same tree.
    pub fn same(&self, other: &UExpressionInner<T>) -> (r: bool)
        ensures
            r == (*self == *other),
        decreases *self,
    {
        match self {
            UExpressionInner::Value(a) => match other {
                UExpressionInner::Value(b) => same_span(&a.span, &b.span) && a.value == b.value,
                _ => false,
            },
            UExpressionInner::Identifier(a) => match other {
                UExpressionInner::Identifier(b) => same_span(&a.span, &b.span) && a.id == b.id,
                _ => false,
            },
            UExpressionInner::Add(a) => match other {
                UExpressionInner::Add(b) => same_uint_pair(a, b),
                _ => false,
            },
            UExpressionInner::Sub(a) => match other {
                UExpressionInner::Sub(b) => same_uint_pair(a, b),
                _ => false,
            },
            UExpressionInner::FloorSub(a) => match other {
                UExpressionInner::FloorSub(b) => same_uint_pair(a, b),
                _ => false,
            },
            UExpressionInner::Mult(a) => match other {
                UExpressionInner::Mult(b) => same_uint_pair(a, b),
                _ => false,
            },
            UExpressionInner::Div(a) => match other {
                UExpressionInner::Div(b) => same_uint_pair(a, b),
                _ => false,
            },
            UExpressionInner::Rem(a) => match other {
                UExpressionInner::Rem(b) => same_uint_pair(a, b),
                _ => false,
            },
            UExpressionInner::Xor(a) => match other {
                UExpressionInner::Xor(b) => same_uint_pair(a, b),
                _ => false,
            },
            UExpressionInner::And(a) => match other {
                UExpressionInner::And(b) => same_uint_pair(a, b),
                _ => false,
            },
            UExpressionInner::Or(a) => match other {
                UExpressionInner::Or(b) => same_uint_pair(a, b),
                _ => false,
            },
            UExpressionInner::LeftShift(a) => match other {
                UExpressionInner::LeftShift(b) => same_uint_pair(a, b),
                _ => false,
            },
            UExpressionInner::RightShift(a) => match other {
                UExpressionInner::RightShift(b) => same_uint_pair(a, b),
                _ => false,
            },
            UExpressionInner::Not(a) => match other {
                UExpressionInner::Not(b) => same_uint_unary(a, b),
                _ => false,
            },
            UExpressionInner::Neg(a) => match other {
                UExpressionInner::Neg(b) => same_uint_unary(a, b),
                _ => false,
            },
            UExpressionInner::Pos(a) => match other {
                UExpressionInner::Pos(b) => same_uint_unary(a, b),
                _ => false,
            },
            UExpressionInner::Conditional(a) => match other {
                UExpressionInner::Conditional(b) => same_span(&a.span, &b.span) && a.kind == b.kind && a.condition.same(&b.condition)
                    && a.consequence.same(&b.consequence) && a.alternative.same(&b.alternative),
                _ => false,
            },
            UExpressionInner::Select(a) => match other {
                UExpressionInner::Select(b) => a.same(b),
                _ => false,
            },
            UExpressionInner::Member(a) => match other {
                UExpressionInner::Member(b) => a.same(b),
                _ => false,
            },
            UExpressionInner::Element(a) => match other {
                UExpressionInner::Element(b) => a.same(b),
                _ => false,
            },
        }
    }
}

impl<T: Field> ArrayExpressionInner<T> {
    /// Whether the two trees are the same tree.
    pub fn same(&self, other: &ArrayExpressionInner<T>) -> (r: bool)
        ensures
            r == (*self == *other),
        decreases *self,
    {
        match self {
            ArrayExpressionInner::Value(a) => match other {
                ArrayExpressionInner::Value(b) => same_span(&a.span, &b.span) && same_elements(&a.value, &b.value),
                _ => false,
            },
            ArrayExpressionInner::Identifier(a) => match other {
                ArrayExpressionInner::Identifier(b) => same_span(&a.span, &b.span) && a.id == b.id,
                _ => false,
            },
            ArrayExpressionInner::Conditional(a) => match other {
                ArrayExpressionInner::Conditional(b) => same_span(&a.span, &b.span) && a.kind == b.kind && a.condition.same(&b.condition)
                    && a.consequence.same(&b.consequence) && a.alternative.same(&b.alternative),
                _ => false,
            },
            ArrayExpressionInner::Select(a) => match other {
                ArrayExpressionInner::Select(b) => a.same(b),
                _ => false,
            },
            ArrayExpressionInner::Member(a) => match other {
                ArrayExpressionInner::Member(b) => a.same(b),
                _ => false,
            },
            ArrayExpressionInner::Element(a) => match other {
                ArrayExpressionInner::Element(b) => a.same(b),
                _ => false,
            },
        }
    }
}

impl<T: Field> StructExpressionInner<T> {
    /// Whether the two trees are the same tree.
    pub fn same(&self, other: &StructExpressionInner<T>) -> (r: bool)
        ensures
            r == (*self == *other),
        decreases *self,
    {
        match self {
            StructExpressionInner::Value(a) => match other {
                StructExpressionInner::Value(b) => same_span(&a.span, &b.span) && same_expressions(&a.value, &b.value),
                _ => false,
            },
            StructExpressionInner::Identifier(a) => match other {
                StructExpressionInner::Identifier(b) => same_span(&a.span, &b.span) && a.id == b.id,
                _ => false,
            },
            StructExpressionInner::Conditional(a) => match other {
                StructExpressionInner::Conditional(b) => same_span(&a.span, &b.span) && a.kind == b.kind && a.condition.same(&b.condition)
                    && a.consequence.same(&b.consequence) && a.alternative.same(&b.alternative),
                _ => false,
            },
            StructExpressionInner::Select(a) => match other {
                StructExpressionInner::Select(b) => a.same(b),
                _ => false,
            },
            StructExpressionInner::Member(a) => match other {
                StructExpressionInner::Member(b) => a.same(b),
                _ => false,
            },
            StructExpressionInner::Element(a) => match other {
                StructExpressionInner::Element(b) => a.same(b),
                _ => false,
            },
        }
    }
}

impl<T: Field> TupleExpressionInner<T> {
    /// Whether the two trees are the same tree.
    pub fn same(&self, other: &TupleExpressionInner<T>) -> (r: bool)
        ensures
            r == (*self == *other),
        decreases *self,
    {
        match self {
            TupleExpressionInner::Value(a) => match other {
                TupleExpressionInner::Value(b) => same_span(&a.span, &b.span) && same_expressions(&a.value, &b.value),
                _ => false,
            },
            TupleExpressionInner::Identifier(a) => match other {
                TupleExpressionInner::Identifier(b) => same_span(&a.span, &b.span) && a.id == b.id,
                _ => false,
            },
            TupleExpressionInner::Conditional(a) => match other {
                TupleExpressionInner::Conditional(b) => same_span(&a.span, &b.span) && a.kind == b.kind && a.condition.same(&b.condition)
                    && a.consequence.same(&b.consequence) && a.alternative.same(&b.alternative),
                _ => false,
            },
            TupleExpressionInner::Select(a) => match other {
                TupleExpressionInner::Select(b) => a.same(b),
                _ => false,
            },
            TupleExpressionInner::Member(a) => match other {
                TupleExpressionInner::Member(b) => a.same(b),
                _ => false,
            },
            TupleExpressionInner::Element(a) => match other {
                TupleExpressionInner::Element(b) => a.same(b),
                _ => false,
            },
        }
    }
}

impl<T: Field> UExpression<T> {
    /// Whether the two trees are the same tree.
    pub fn same(&self, other: &UExpression<T>) -> (r: bool)
        ensures
            r == (*self == *other),
        decreases *self,
    {
        self.bitwidth == other.bitwidth && self.inner.same(&other.inner)
    }
}

impl<T: Field> ArrayExpression<T> {
    /// Whether the two trees are the same tree.
    pub fn same(&self, other: &ArrayExpression<T>) -> (r: bool)
        ensures
            r == (*self == *other),
        decreases *self,
    {
        self.ty.same(&other.ty) && self.inner.same(&other.inner)
    }
}

impl<T: Field> StructExpression<T> {
    /// Whether the two trees are the same tree.
    pub fn same(&self, other: &StructExpression<T>) -> (r: bool)
        ensures
            r == (*self == *other),
        decreases *self,
    {
        self.ty.same(&other.ty) && self.inner.same(&other.inner)
    }
}

impl<T: Field> TupleExpression<T> {
    /// Whether the two trees are the same tree.
    pub fn same(&self, other: &TupleExpression<T>) -> (r: bool)
        ensures
            r == (*self == *other),
        decreases *self,
    {
        same_types(&self.ty.elements, &other.ty.elements) && self.inner.same(&other.inner)
    }
}

impl<T: Field> SelectExpression<T> {
    pub fn same(&self, other: &SelectExpression<T>) -> (r: bool)
        ensures
            r == (*self == *other),
        decreases *self,
    {
        same_span(&self.span, &other.span) && self.array.same(&other.array) && self.index.same(
            &other.index,
        )
    }
}

impl<T: Field> MemberExpression<T> {
    pub fn same(&self, other: &MemberExpression<T>) -> (r: bool)
        ensures
            r == (*self == *other),
        decreases *self,
    {
        same_span(&self.span, &other.span) && self.id == other.id && self.struc.same(&other.struc)
    }
}

impl<T: Field> ElementExpression<T> {
    pub fn same(&self, other: &ElementExpression<T>) -> (r: bool)
        ensures
            r == (*self == *other),
        decreases *self,
    {
        same_span(&self.span, &other.span) && self.index == other.index && self.tuple.same(
            &other.tuple,
        )
    }
}

impl<T: Field> TypedExpression<T> {
    /// Whether the two trees are the same tree.
    pub fn same(&self, other: &TypedExpression<T>) -> (r: bool)
        ensures
            r == (*self == *other),
        decreases *self,
    {
        match (self, other) {
            (TypedExpression::Boolean(a), TypedExpression::Boolean(b)) => a.same(b),
            (TypedExpression::FieldElement(a), TypedExpression::FieldElement(b)) => a.same(b),
            (TypedExpression::Uint(a), TypedExpression::Uint(b)) => a.same(b),
            (TypedExpression::Array(a), TypedExpression::Array(b)) => a.same(b),
            (TypedExpression::Struct(a), TypedExpression::Struct(b)) => a.same(b),
            (TypedExpression::Tuple(a), TypedExpression::Tuple(b)) => a.same(b),
            _ => false,
        }
    }
}

impl<T: Field> TypedExpressionOrSpread<T> {
    /// Whether the two trees are the same tree.
    pub fn same(&self, other: &TypedExpressionOrSpread<T>) -> (r: bool)
        ensures
            r == (*self == *other),
        decreases *self,
    {
        match (self, other) {
            (TypedExpressionOrSpread::Expression(a), TypedExpressionOrSpread::Expression(b)) => a.same(b),
            (TypedExpressionOrSpread::Spread(a), TypedExpressionOrSpread::Spread(b)) => a.array.same(&b.array),
            _ => false,
        }
    }
}

pub fn same_uint_pair<T: Field, Op>(
    a: &BinaryExpression<Op, UExpression<T>, UExpression<T>, UExpression<T>>,
    b: &BinaryExpression<Op, UExpression<T>, UExpression<T>, UExpression<T>>,
) -> (r: bool)
    ensures
        r == (*a == *b),
    decreases *a,
{
    same_span(&a.span, &b.span) && a.left.same(&b.left) && a.right.same(&b.right)
}

pub fn same_uint_unary<T: Field, Op>(
    a: &UnaryExpression<Op, UExpression<T>, UExpression<T>>,
    b: &UnaryExpression<Op, UExpression<T>, UExpression<T>>,
) -> (r: bool)
    ensures
        r == (*a == *b),
    decreases *a,
{
    same_span(&a.span, &b.span) && a.inner.same(&b.inner)
}

pub fn same_expressions<T: Field>(a: &List<TypedExpression<T>>, b: &List<TypedExpression<T>>) -> (r: bool)
    ensures
        r == (*a == *b),
    decreases *a,
{
    match (a, b) {
        (List::Nil, List::Nil) => true,
        (List::Cons(x), List::Cons(y)) => x.head.same(&y.head) && same_expressions(&x.tail, &y.tail),
        _ => false,
    }
}

pub fn same_elements<T: Field>(
    a: &List<TypedExpressionOrSpread<T>>,
    b: &List<TypedExpressionOrSpread<T>>,
) -> (r: bool)
    ensures
        r == (*a == *b),
    decreases *a,
{
    match (a, b) {
        (List::Nil, List::Nil) => true,
        (List::Cons(x), List::Cons(y)) => x.head.same(&y.head) && same_elements(&x.tail, &y.tail),
        _ => false,
    }
}

} // verus!
