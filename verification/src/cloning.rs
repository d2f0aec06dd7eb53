//! Copies of typed trees.

use crate::expressions::{
    BinaryExpression, IdentifierExpression, UnaryExpression, ValueExpression,
};
use crate::field::Field;
use crate::list::List;
use crate::typed::{
    ArrayExpression, ArrayExpressionInner, BooleanExpression, ConditionalExpression,
    ElementExpression, FieldElementExpression, MemberExpression, SelectExpression,
    StructExpression, StructExpressionInner, TupleExpression, TupleExpressionInner, TypedAssignee,
    TypedExpression, TypedExpressionOrSpread, TypedSpread, UExpression, UExpressionInner, Variable,
};
use vstd::prelude::*;

verus! {

impl<T: Field> Clone for FieldElementExpression<T> {
    fn clone(&self) -> (r: Self)
        ensures
            r == *self,
        decreases *self,
    {
        match self {
            FieldElementExpression::Number(a) => FieldElementExpression::Number(ValueExpression { span: a.span, value: a.value }),
            FieldElementExpression::Identifier(a) => FieldElementExpression::Identifier(IdentifierExpression::with_span(a.id, a.span)),
            FieldElementExpression::Add(a) => FieldElementExpression::Add(
                BinaryExpression::with_span((*a.left).clone(), (*a.right).clone(), a.span),
            ),
            FieldElementExpression::Sub(a) => FieldElementExpression::Sub(
                BinaryExpression::with_span((*a.left).clone(), (*a.right).clone(), a.span),
            ),
            FieldElementExpression::Mult(a) => FieldElementExpression::Mult(
                BinaryExpression::with_span((*a.left).clone(), (*a.right).clone(), a.span),
            ),
            FieldElementExpression::Div(a) => FieldElementExpression::Div(
                BinaryExpression::with_span((*a.left).clone(), (*a.right).clone(), a.span),
            ),
            FieldElementExpression::Pow(a) => FieldElementExpression::Pow(
                BinaryExpression::with_span((*a.left).clone(), (*a.right).clone(), a.span),
            ),
            FieldElementExpression::Neg(a) => FieldElementExpression::Neg(UnaryExpression::with_span((*a.inner).clone(), a.span)),
            FieldElementExpression::Pos(a) => FieldElementExpression::Pos(UnaryExpression::with_span((*a.inner).clone(), a.span)),
            FieldElementExpression::Conditional(a) => FieldElementExpression::Conditional(
                ConditionalExpression {
                    span: a.span,
                    condition: Box::new((*a.condition).clone()),
                    consequence: Box::new((*a.consequence).clone()),
                    alternative: Box::new((*a.alternative).clone()),
                    kind: a.kind,
                },
            ),
            FieldElementExpression::Select(a) => FieldElementExpression::Select(a.clone()),
            FieldElementExpression::Member(a) => FieldElementExpression::Member(a.clone()),
            FieldElementExpression::Element(a) => FieldElementExpression::Element(a.clone()),
        }
    }
}

impl<T: Field> Clone for BooleanExpression<T> {
    fn clone(&self) -> (r: Self)
        ensures
            r == *self,
        decreases *self,
    {
        match self {
            BooleanExpression::Value(a) => BooleanExpression::Value(ValueExpression { span: a.span, value: a.value }),
            BooleanExpression::Identifier(a) => BooleanExpression::Identifier(IdentifierExpression::with_span(a.id, a.span)),
            BooleanExpression::FieldLt(a) => BooleanExpression::FieldLt(
                BinaryExpression::with_span((*a.left).clone(), (*a.right).clone(), a.span),
            ),
            BooleanExpression::FieldLe(a) => BooleanExpression::FieldLe(
                BinaryExpression::with_span((*a.left).clone(), (*a.right).clone(), a.span),
            ),
            BooleanExpression::UintLt(a) => BooleanExpression::UintLt(
                BinaryExpression::with_span((*a.left).clone(), (*a.right).clone(), a.span),
            ),
            BooleanExpression::UintLe(a) => BooleanExpression::UintLe(
                BinaryExpression::with_span((*a.left).clone(), (*a.right).clone(), a.span),
            ),
            BooleanExpression::FieldEq(a) => BooleanExpression::FieldEq(
                BinaryExpression::with_span((*a.left).clone(), (*a.right).clone(), a.span),
            ),
            BooleanExpression::BoolEq(a) => BooleanExpression::BoolEq(
                BinaryExpression::with_span((*a.left).clone(), (*a.right).clone(), a.span),
            ),
            BooleanExpression::ArrayEq(a) => BooleanExpression::ArrayEq(
                BinaryExpression::with_span((*a.left).clone(), (*a.right).clone(), a.span),
            ),
            BooleanExpression::StructEq(a) => BooleanExpression::StructEq(
                BinaryExpression::with_span((*a.left).clone(), (*a.right).clone(), a.span),
            ),
            BooleanExpression::TupleEq(a) => BooleanExpression::TupleEq(
                BinaryExpression::with_span((*a.left).clone(), (*a.right).clone(), a.span),
            ),
            BooleanExpression::UintEq(a) => BooleanExpression::UintEq(
                BinaryExpression::with_span((*a.left).clone(), (*a.right).clone(), a.span),
            ),
            BooleanExpression::Or(a) => BooleanExpression::Or(
                BinaryExpression::with_span((*a.left).clone(), (*a.right).clone(), a.span),
            ),
            BooleanExpression::And(a) => BooleanExpression::And(
                BinaryExpression::with_span((*a.left).clone(), (*a.right).clone(), a.span),
            ),
            BooleanExpression::Not(a) => BooleanExpression::Not(UnaryExpression::with_span((*a.inner).clone(), a.span)),
            BooleanExpression::Conditional(a) => BooleanExpression::Conditional(
                ConditionalExpression {
                    span: a.span,
                    condition: Box::new((*a.condition).clone()),
                    consequence: Box::new((*a.consequence).clone()),
                    alternative: Box::new((*a.alternative).clone()),
                    kind: a.kind,
                },
            ),
            BooleanExpression::Select(a) => BooleanExpression::Select(a.clone()),
            BooleanExpression::Member(a) => BooleanExpression::Member(a.clone()),
            BooleanExpression::Element(a) => BooleanExpression::Element(a.clone()),
        }
    }
}

impl<T: Field> Clone for UExpressionInner<T> {
    fn clone(&self) -> (r: Self)
        ensures
            r == *self,
        decreases *self,
    {
        match self {
            UExpressionInner::Value(a) => UExpressionInner::Value(ValueExpression { span: a.span, value: a.value }),
            UExpressionInner::Identifier(a) => UExpressionInner::Identifier(IdentifierExpression::with_span(a.id, a.span)),
            UExpressionInner::Add(a) => UExpressionInner::Add(
                BinaryExpression::with_span((*a.left).clone(), (*a.right).clone(), a.span),
            ),
            UExpressionInner::Sub(a) => UExpressionInner::Sub(
                BinaryExpression::with_span((*a.left).clone(), (*a.right).clone(), a.span),
            ),
            UExpressionInner::FloorSub(a) => UExpressionInner::FloorSub(
                BinaryExpression::with_span((*a.left).clone(), (*a.right).clone(), a.span),
            ),
            UExpressionInner::Mult(a) => UExpressionInner::Mult(
                BinaryExpression::with_span((*a.left).clone(), (*a.right).clone(), a.span),
            ),
            UExpressionInner::Div(a) => UExpressionInner::Div(
                BinaryExpression::with_span((*a.left).clone(), (*a.right).clone(), a.span),
            ),
            UExpressionInner::Rem(a) => UExpressionInner::Rem(
                BinaryExpression::with_span((*a.left).clone(), (*a.right).clone(), a.span),
            ),
            UExpressionInner::Xor(a) => UExpressionInner::Xor(
                BinaryExpression::with_span((*a.left).clone(), (*a.right).clone(), a.span),
            ),
            UExpressionInner::And(a) => UExpressionInner::And(
                BinaryExpression::with_span((*a.left).clone(), (*a.right).clone(), a.span),
            ),
            UExpressionInner::Or(a) => UExpressionInner::Or(
                BinaryExpression::with_span((*a.left).clone(), (*a.right).clone(), a.span),
            ),
            UExpressionInner::LeftShift(a) => UExpressionInner::LeftShift(
                BinaryExpression::with_span((*a.left).clone(), (*a.right).clone(), a.span),
            ),
            UExpressionInner::RightShift(a) => UExpressionInner::RightShift(
                BinaryExpression::with_span((*a.left).clone(), (*a.right).clone(), a.span),
            ),
            UExpressionInner::Not(a) => UExpressionInner::Not(UnaryExpression::with_span((*a.inner).clone(), a.span)),
            UExpressionInner::Neg(a) => UExpressionInner::Neg(UnaryExpression::with_span((*a.inner).clone(), a.span)),
            UExpressionInner::Pos(a) => UExpressionInner::Pos(UnaryExpression::with_span((*a.inner).clone(), a.span)),
            UExpressionInner::Conditional(a) => UExpressionInner::Conditional(
                ConditionalExpression {
                    span: a.span,
                    condition: Box::new((*a.condition).clone()),
                    consequence: Box::new((*a.consequence).clone()),
                    alternative: Box::new((*a.alternative).clone()),
                    kind: a.kind,
                },
            ),
            UExpressionInner::Select(a) => UExpressionInner::Select(a.clone()),
            UExpressionInner::Member(a) => UExpressionInner::Member(a.clone()),
            UExpressionInner::Element(a) => UExpressionInner::Element(a.clone()),
        }
    }
}

impl<T: Field> Clone for ArrayExpressionInner<T> {
    fn clone(&self) -> (r: Self)
        ensures
            r == *self,
        decreases *self,
    {
        match self {
            ArrayExpressionInner::Value(a) => ArrayExpressionInner::Value(ValueExpression { span: a.span, value: clone_elements(&a.value) }),
            ArrayExpressionInner::Identifier(a) => ArrayExpressionInner::Identifier(IdentifierExpression::with_span(a.id, a.span)),
            ArrayExpressionInner::Conditional(a) => ArrayExpressionInner::Conditional(
                ConditionalExpression {
                    span: a.span,
                    condition: Box::new((*a.condition).clone()),
                    consequence: Box::new((*a.consequence).clone()),
                    alternative: Box::new((*a.alternative).clone()),
                    kind: a.kind,
                },
            ),
            ArrayExpressionInner::Select(a) => ArrayExpressionInner::Select(a.clone()),
            ArrayExpressionInner::Member(a) => ArrayExpressionInner::Member(a.clone()),
            ArrayExpressionInner::Element(a) => ArrayExpressionInner::Element(a.clone()),
        }
    }
}

impl<T: Field> Clone for StructExpressionInner<T> {
    fn clone(&self) -> (r: Self)
        ensures
            r == *self,
        decreases *self,
    {
        match self {
            StructExpressionInner::Value(a) => StructExpressionInner::Value(ValueExpression { span: a.span, value: clone_expressions(&a.value) }),
            StructExpressionInner::Identifier(a) => StructExpressionInner::Identifier(IdentifierExpression::with_span(a.id, a.span)),
            StructExpressionInner::Conditional(a) => StructExpressionInner::Conditional(
                ConditionalExpression {
                    span: a.span,
                    condition: Box::new((*a.condition).clone()),
                    consequence: Box::new((*a.consequence).clone()),
                    alternative: Box::new((*a.alternative).clone()),
                    kind: a.kind,
                },
            ),
            StructExpressionInner::Select(a) => StructExpressionInner::Select(a.clone()),
            StructExpressionInner::Member(a) => StructExpressionInner::Member(a.clone()),
            StructExpressionInner::Element(a) => StructExpressionInner::Element(a.clone()),
        }
    }
}

impl<T: Field> Clone for TupleExpressionInner<T> {
    fn clone(&self) -> (r: Self)
        ensures
            r == *self,
        decreases *self,
    {
        match self {
            TupleExpressionInner::Value(a) => TupleExpressionInner::Value(ValueExpression { span: a.span, value: clone_expressions(&a.value) }),
            TupleExpressionInner::Identifier(a) => TupleExpressionInner::Identifier(IdentifierExpression::with_span(a.id, a.span)),
            TupleExpressionInner::Conditional(a) => TupleExpressionInner::Conditional(
                ConditionalExpression {
                    span: a.span,
                    condition: Box::new((*a.condition).clone()),
                    consequence: Box::new((*a.consequence).clone()),
                    alternative: Box::new((*a.alternative).clone()),
                    kind: a.kind,
                },
            ),
            TupleExpressionInner::Select(a) => TupleExpressionInner::Select(a.clone()),
            TupleExpressionInner::Member(a) => TupleExpressionInner::Member(a.clone()),
            TupleExpressionInner::Element(a) => TupleExpressionInner::Element(a.clone()),
        }
    }
}

impl<T: Field> Clone for UExpression<T> {
    fn clone(&self) -> (r: Self)
        ensures
            r == *self,
        decreases *self,
    {
        UExpression { bitwidth: self.bitwidth, inner: self.inner.clone() }
    }
}

impl<T: Field> Clone for ArrayExpression<T> {
    fn clone(&self) -> (r: Self)
        ensures
            r == *self,
        decreases *self,
    {
        ArrayExpression { ty: self.ty.clone(), inner: self.inner.clone() }
    }
}

impl<T: Field> Clone for StructExpression<T> {
    fn clone(&self) -> (r: Self)
        ensures
            r == *self,
        decreases *self,
    {
        StructExpression { ty: self.ty.clone(), inner: self.inner.clone() }
    }
}

impl<T: Field> Clone for TupleExpression<T> {
    fn clone(&self) -> (r: Self)
        ensures
            r == *self,
        decreases *self,
    {
        TupleExpression { ty: self.ty.clone(), inner: self.inner.clone() }
    }
}

impl<T: Field> Clone for SelectExpression<T> {
    fn clone(&self) -> (r: Self)
        ensures
            r == *self,
        decreases *self,
    {
        SelectExpression {
            span: self.span,
            array: Box::new((*self.array).clone()),
            index: Box::new((*self.index).clone()),
        }
    }
}

impl<T: Field> Clone for MemberExpression<T> {
    fn clone(&self) -> (r: Self)
        ensures
            r == *self,
        decreases *self,
    {
        MemberExpression { span: self.span, struc: Box::new((*self.struc).clone()), id: self.id }
    }
}

impl<T: Field> Clone for ElementExpression<T> {
    fn clone(&self) -> (r: Self)
        ensures
            r == *self,
        decreases *self,
    {
        ElementExpression {
            span: self.span,
            tuple: Box::new((*self.tuple).clone()),
            index: self.index,
        }
    }
}

impl<T: Field> Clone for TypedExpression<T> {
    fn clone(&self) -> (r: Self)
        ensures
            r == *self,
        decreases *self,
    {
        match self {
            TypedExpression::Boolean(a) => TypedExpression::Boolean(a.clone()),
            TypedExpression::FieldElement(a) => TypedExpression::FieldElement(a.clone()),
            TypedExpression::Uint(a) => TypedExpression::Uint(a.clone()),
            TypedExpression::Array(a) => TypedExpression::Array(a.clone()),
            TypedExpression::Struct(a) => TypedExpression::Struct(a.clone()),
            TypedExpression::Tuple(a) => TypedExpression::Tuple(a.clone()),
        }
    }
}

impl<T: Field> Clone for TypedExpressionOrSpread<T> {
    fn clone(&self) -> (r: Self)
        ensures
            r == *self,
        decreases *self,
    {
        match self {
            TypedExpressionOrSpread::Expression(a) => TypedExpressionOrSpread::Expression(a.clone()),
            TypedExpressionOrSpread::Spread(a) => TypedExpressionOrSpread::Spread(
                TypedSpread { array: a.array.clone() },
            ),
        }
    }
}

impl Clone for Variable {
    fn clone(&self) -> (r: Self)
        ensures
            r == *self,
    {
        Variable { id: self.id, ty: self.ty.clone() }
    }
}

impl<T: Field> Clone for TypedAssignee<T> {
    fn clone(&self) -> (r: Self)
        ensures
            r == *self,
        decreases *self,
    {
        match self {
            TypedAssignee::Identifier(v) => TypedAssignee::Identifier(v.clone()),
            TypedAssignee::Select(a, i) => TypedAssignee::Select(
                Box::new((**a).clone()),
                Box::new((**i).clone()),
            ),
            TypedAssignee::Member(a, m) => TypedAssignee::Member(Box::new((**a).clone()), *m),
            TypedAssignee::Element(a, i) => TypedAssignee::Element(Box::new((**a).clone()), *i),
        }
    }
}

pub fn clone_expressions<T: Field>(l: &List<TypedExpression<T>>) -> (r: List<TypedExpression<T>>)
    ensures
        r == *l,
    decreases *l,
{
    match l {
        List::Nil => List::Nil,
        List::Cons(n) => List::cons(n.head.clone(), clone_expressions(&n.tail)),
    }
}

pub fn clone_elements<T: Field>(l: &List<TypedExpressionOrSpread<T>>) -> (r: List<
    TypedExpressionOrSpread<T>,
>)
    ensures
        r == *l,
    decreases *l,
{
    match l {
        List::Nil => List::Nil,
        List::Cons(n) => List::cons(n.head.clone(), clone_elements(&n.tail)),
    }
}

} // verus!
