//! Constant expressions and their canonical form.
//!
//! An expression is constant when it is built from literals alone. Two
//! constants stand for the same value exactly when their canonical forms,
//! in which every spread has been replaced by its elements, are the same tree.

use crate::expressions::ValueExpression;
use crate::field::Field;
use crate::list::{List, Node};
use crate::typed::{
    ArrayExpression, ArrayExpressionInner, BooleanExpression, FieldElementExpression,
    StructExpression, StructExpressionInner, TupleExpression, TupleExpressionInner,
    TypedExpression, TypedExpressionOrSpread, UExpression, UExpressionInner,
};
use vstd::prelude::*;

verus! {

/// Whether `e` is built from literals alone.
pub open spec fn is_constant<T>(e: TypedExpression<T>) -> bool
    decreases e,
{
    match e {
        TypedExpression::Boolean(b) => b is Value,
        TypedExpression::FieldElement(f) => f is Number,
        TypedExpression::Uint(u) => u.inner is Value,
        TypedExpression::Array(a) => array_is_constant(a),
        TypedExpression::Struct(s) => match s.inner {
            StructExpressionInner::Value(v) => expressions_are_constant(v.value),
            _ => false,
        },
        TypedExpression::Tuple(t) => match t.inner {
            TupleExpressionInner::Value(v) => expressions_are_constant(v.value),
            _ => false,
        },
    }
}

pub open spec fn array_is_constant<T>(a: ArrayExpression<T>) -> bool
    decreases a,
{
    match a.inner {
        ArrayExpressionInner::Value(v) => elements_are_constant(v.value),
        _ => false,
    }
}

pub open spec fn expressions_are_constant<T>(l: List<TypedExpression<T>>) -> bool
    decreases l,
{
    match l {
        List::Nil => true,
        List::Cons(n) => is_constant(n.head) && expressions_are_constant(n.tail),
    }
}

pub open spec fn elements_are_constant<T>(l: List<TypedExpressionOrSpread<T>>) -> bool
    decreases l,
{
    match l {
        List::Nil => true,
        List::Cons(n) => (match n.head {
            TypedExpressionOrSpread::Expression(e) => is_constant(e),
            TypedExpressionOrSpread::Spread(s) => array_is_constant(s.array),
        }) && elements_are_constant(n.tail),
    }
}

/// The canonical form of `e`: inside every array literal, a spread over a
/// literal is replaced by the elements of that literal, and no literal
/// remembers where in the source it stood.
pub open spec fn canonical<T>(e: TypedExpression<T>) -> TypedExpression<T>
    decreases e,
{
    match e {
        TypedExpression::Boolean(BooleanExpression::Value(v)) => TypedExpression::Boolean(
            BooleanExpression::from_value(v.value),
        ),
        TypedExpression::FieldElement(FieldElementExpression::Number(n)) => TypedExpression::FieldElement(
            FieldElementExpression::from_value(n.value),
        ),
        TypedExpression::Uint(u) => match u.inner {
            UExpressionInner::Value(v) => TypedExpression::Uint(
                UExpression::from_value(v.value).annotate(u.bitwidth),
            ),
            _ => e,
        },
        TypedExpression::Array(a) => TypedExpression::Array(canonical_array(a)),
        TypedExpression::Struct(s) => match s.inner {
            StructExpressionInner::Value(v) => TypedExpression::Struct(
                StructExpression {
                    ty: s.ty,
                    inner: StructExpressionInner::Value(
                        ValueExpression::new(canonical_expressions(v.value)),
                    ),
                },
            ),
            _ => e,
        },
        TypedExpression::Tuple(t) => match t.inner {
            TupleExpressionInner::Value(v) => TypedExpression::Tuple(
                TupleExpression {
                    ty: t.ty,
                    inner: TupleExpressionInner::Value(
                        ValueExpression::new(canonical_expressions(v.value)),
                    ),
                },
            ),
            _ => e,
        },
        _ => e,
    }
}

pub open spec fn canonical_array<T>(a: ArrayExpression<T>) -> ArrayExpression<T>
    decreases a,
{
    match a.inner {
        ArrayExpressionInner::Value(v) => ArrayExpression {
            ty: a.ty,
            inner: ArrayExpressionInner::Value(ValueExpression::new(flattened(v.value))),
        },
        _ => a,
    }
}

pub open spec fn canonical_expressions<T>(l: List<TypedExpression<T>>) -> List<TypedExpression<T>>
    decreases l,
{
    match l {
        List::Nil => List::Nil,
        List::Cons(n) => List::spec_cons(canonical(n.head), canonical_expressions(n.tail)),
    }
}

/// The elements of an array literal in canonical form, spreads over literals
/// replaced by what they hold.
pub open spec fn flattened<T>(l: List<TypedExpressionOrSpread<T>>) -> List<
    TypedExpressionOrSpread<T>,
>
    decreases l,
{
    match l {
        List::Nil => List::Nil,
        List::Cons(n) => match n.head {
            TypedExpressionOrSpread::Expression(e) => List::spec_cons(
                TypedExpressionOrSpread::Expression(canonical(e)),
                flattened(n.tail),
            ),
            TypedExpressionOrSpread::Spread(s) => match s.array.inner {
                ArrayExpressionInner::Value(v) => flattened(v.value).spec_concat(
                    flattened(n.tail),
                ),
                _ => List::spec_cons(TypedExpressionOrSpread::Spread(s), flattened(n.tail)),
            },
        },
    }
}

impl<T: Field> TypedExpression<T> {
    pub fn is_constant(&self) -> (r: bool)
        ensures
            r == is_constant(*self),
        decreases *self,
    {
        match self {
            TypedExpression::Boolean(b) => match b {
                BooleanExpression::Value(_) => true,
                _ => false,
            },
            TypedExpression::FieldElement(f) => match f {
                FieldElementExpression::Number(_) => true,
                _ => false,
            },
            TypedExpression::Uint(u) => match &u.inner {
                UExpressionInner::Value(_) => true,
                _ => false,
            },
            TypedExpression::Array(a) => a.is_constant(),
            TypedExpression::Struct(s) => match &s.inner {
                StructExpressionInner::Value(v) => check_expressions_constant(&v.value),
                _ => false,
            },
            TypedExpression::Tuple(t) => match &t.inner {
                TupleExpressionInner::Value(v) => check_expressions_constant(&v.value),
                _ => false,
            },
        }
    }

    pub fn into_canonical_constant(self) -> (r: Self)
        ensures
            r == canonical(self),
        decreases self,
    {
        match self {
            TypedExpression::Boolean(BooleanExpression::Value(v)) => TypedExpression::Boolean(
                BooleanExpression::from_value(v.value),
            ),
            TypedExpression::FieldElement(FieldElementExpression::Number(n)) => TypedExpression::FieldElement(
                FieldElementExpression::from_value(n.value),
            ),
            TypedExpression::Uint(u) => {
                let UExpression { bitwidth, inner } = u;
                match inner {
                    UExpressionInner::Value(v) => TypedExpression::Uint(
                        UExpression::from_value(v.value).annotate(bitwidth),
                    ),
                    inner => TypedExpression::Uint(UExpression { bitwidth, inner }),
                }
            },
            TypedExpression::Array(a) => TypedExpression::Array(a.into_canonical_constant()),
            TypedExpression::Struct(s) => {
                let StructExpression { ty, inner } = s;
                match inner {
                    StructExpressionInner::Value(v) => TypedExpression::Struct(
                        StructExpression {
                            ty,
                            inner: StructExpressionInner::Value(
                                ValueExpression::new(into_canonical_expressions(v.value)),
                            ),
                        },
                    ),
                    inner => TypedExpression::Struct(StructExpression { ty, inner }),
                }
            },
            TypedExpression::Tuple(t) => {
                let TupleExpression { ty, inner } = t;
                match inner {
                    TupleExpressionInner::Value(v) => TypedExpression::Tuple(
                        TupleExpression {
                            ty,
                            inner: TupleExpressionInner::Value(
                                ValueExpression::new(into_canonical_expressions(v.value)),
                            ),
                        },
                    ),
                    inner => TypedExpression::Tuple(TupleExpression { ty, inner }),
                }
            },
            e => e,
        }
    }
}

impl<T: Field> ArrayExpression<T> {
    pub fn is_constant(&self) -> (r: bool)
        ensures
            r == array_is_constant(*self),
        decreases *self,
    {
        match &self.inner {
            ArrayExpressionInner::Value(v) => check_elements_constant(&v.value),
            _ => false,
        }
    }

    pub fn into_canonical_constant(self) -> (r: Self)
        ensures
            r == canonical_array(self),
        decreases self,
    {
        let ArrayExpression { ty, inner } = self;
        match inner {
            ArrayExpressionInner::Value(v) => ArrayExpression {
                ty,
                inner: ArrayExpressionInner::Value(ValueExpression::new(flatten(v.value))),
            },
            inner => ArrayExpression { ty, inner },
        }
    }
}

pub fn check_expressions_constant<T: Field>(l: &List<TypedExpression<T>>) -> (r: bool)
    ensures
        r == expressions_are_constant(*l),
    decreases *l,
{
    match l {
        List::Nil => true,
        List::Cons(n) => n.head.is_constant() && check_expressions_constant(&n.tail),
    }
}

pub fn check_elements_constant<T: Field>(l: &List<TypedExpressionOrSpread<T>>) -> (r: bool)
    ensures
        r == elements_are_constant(*l),
    decreases *l,
{
    match l {
        List::Nil => true,
        List::Cons(n) => (match &n.head {
            TypedExpressionOrSpread::Expression(e) => e.is_constant(),
            TypedExpressionOrSpread::Spread(s) => s.array.is_constant(),
        }) && check_elements_constant(&n.tail),
    }
}

pub fn into_canonical_expressions<T: Field>(l: List<TypedExpression<T>>) -> (r: List<
    TypedExpression<T>,
>)
    ensures
        r == canonical_expressions(l),
    decreases l,
{
    match l {
        List::Nil => List::Nil,
        List::Cons(n) => {
            let Node { head, tail } = *n;
            List::cons(head.into_canonical_constant(), into_canonical_expressions(tail))
        },
    }
}

pub fn flatten<T: Field>(l: List<TypedExpressionOrSpread<T>>) -> (r: List<
    TypedExpressionOrSpread<T>,
>)
    ensures
        r == flattened(l),
    decreases l,
{
    match l {
        List::Nil => List::Nil,
        List::Cons(n) => {
            let Node { head, tail } = *n;
            match head {
                TypedExpressionOrSpread::Expression(e) => List::cons(
                    TypedExpressionOrSpread::Expression(e.into_canonical_constant()),
                    flatten(tail),
                ),
                TypedExpressionOrSpread::Spread(s) => {
                    let ArrayExpression { ty, inner } = s.array;
                    match inner {
                        ArrayExpressionInner::Value(v) => flatten(v.value).concat(flatten(tail)),
                        inner => List::cons(
                            TypedExpressionOrSpread::Spread(
                                crate::typed::TypedSpread { array: ArrayExpression { ty, inner } },
                            ),
                            flatten(tail),
                        ),
                    }
                },
            }
        },
    }
}

} // verus!
