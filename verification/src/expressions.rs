//! The node shapes that every expression tree is built from. A node knows its
//! operator and its result type from its own type, and carries the span of
//! the source text that it stands for.

use crate::common::{Span, WithSpan};
use std::marker::PhantomData;
use vstd::prelude::*;

verus! {

#[derive(Debug, PartialEq)]
pub struct BinaryExpression<Op, L, R, Out> {
    pub span: Option<Span>,
    pub left: Box<L>,
    pub right: Box<R>,
    pub operator: PhantomData<Op>,
    pub output: PhantomData<Out>,
}

impl<Op, L, R, Out> BinaryExpression<Op, L, R, Out> {
    pub open spec fn spec_new(left: L, right: R) -> Self {
        BinaryExpression {
            span: None,
            left: Box::new(left),
            right: Box::new(right),
            operator: PhantomData,
            output: PhantomData,
        }
    }

    pub open spec fn spec_with_span(left: L, right: R, span: Option<Span>) -> Self {
        BinaryExpression {
            span,
            left: Box::new(left),
            right: Box::new(right),
            operator: PhantomData,
            output: PhantomData,
        }
    }

    #[verifier::when_used_as_spec(spec_new)]
    pub fn new(left: L, right: R) -> (r: Self)
        ensures
            r == Self::spec_new(left, right),
    {
        BinaryExpression {
            span: None,
            left: Box::new(left),
            right: Box::new(right),
            operator: PhantomData,
            output: PhantomData,
        }
    }

    #[verifier::when_used_as_spec(spec_with_span)]
    pub fn with_span(left: L, right: R, span: Option<Span>) -> (r: Self)
        ensures
            r == Self::spec_with_span(left, right, span),
    {
        BinaryExpression {
            span,
            left: Box::new(left),
            right: Box::new(right),
            operator: PhantomData,
            output: PhantomData,
        }
    }
}

impl<Op, L, R, Out> WithSpan for BinaryExpression<Op, L, R, Out> {
    open spec fn spec_span(&self) -> Option<Span> {
        self.span
    }

    fn span(self, span: Option<Span>) -> (r: Self)
        ensures
            r == (BinaryExpression { span, ..self }),
    {
        let mut e = self;
        e.span = span;
        e
    }

    fn get_span(&self) -> (r: Option<Span>) {
        self.span
    }
}

#[derive(Debug, PartialEq)]
pub enum BinaryOrExpression<Op, L, R, E, I> {
    Binary(BinaryExpression<Op, L, R, E>),
    Expression(I),
}

#[derive(Debug, PartialEq)]
pub struct UnaryExpression<Op, In, Out> {
    pub span: Option<Span>,
    pub inner: Box<In>,
    pub operator: PhantomData<Op>,
    pub output: PhantomData<Out>,
}

impl<Op, In, Out> UnaryExpression<Op, In, Out> {
    pub open spec fn spec_new(inner: In) -> Self {
        UnaryExpression { span: None, inner: Box::new(inner), operator: PhantomData, output: PhantomData }
    }

    pub open spec fn spec_with_span(inner: In, span: Option<Span>) -> Self {
        UnaryExpression { span, inner: Box::new(inner), operator: PhantomData, output: PhantomData }
    }

    #[verifier::when_used_as_spec(spec_new)]
    pub fn new(inner: In) -> (r: Self)
        ensures
            r == Self::spec_new(inner),
    {
        UnaryExpression { span: None, inner: Box::new(inner), operator: PhantomData, output: PhantomData }
    }

    #[verifier::when_used_as_spec(spec_with_span)]
    pub fn with_span(inner: In, span: Option<Span>) -> (r: Self)
        ensures
            r == Self::spec_with_span(inner, span),
    {
        UnaryExpression { span, inner: Box::new(inner), operator: PhantomData, output: PhantomData }
    }
}

impl<Op, In, Out> WithSpan for UnaryExpression<Op, In, Out> {
    open spec fn spec_span(&self) -> Option<Span> {
        self.span
    }

    fn span(self, span: Option<Span>) -> (r: Self)
        ensures
            r == (UnaryExpression { span, ..self }),
    {
        let mut e = self;
        e.span = span;
        e
    }

    fn get_span(&self) -> (r: Option<Span>) {
        self.span
    }
}

#[derive(Debug, PartialEq)]
pub enum UnaryOrExpression<Op, In, E, I> {
    Unary(UnaryExpression<Op, In, E>),
    Expression(I),
}

#[derive(Debug, PartialEq)]
pub struct ValueExpression<V> {
    pub span: Option<Span>,
    pub value: V,
}

impl<V> ValueExpression<V> {
    pub open spec fn spec_new(value: V) -> Self {
        ValueExpression { span: None, value }
    }

    #[verifier::when_used_as_spec(spec_new)]
    pub fn new(value: V) -> (r: Self)
        ensures
            r == Self::spec_new(value),
    {
        ValueExpression { span: None, value }
    }
}

impl<V> WithSpan for ValueExpression<V> {
    open spec fn spec_span(&self) -> Option<Span> {
        self.span
    }

    fn span(self, span: Option<Span>) -> (r: Self)
        ensures
            r == (ValueExpression { span, ..self }),
    {
        let mut e = self;
        e.span = span;
        e
    }

    fn get_span(&self) -> (r: Option<Span>) {
        self.span
    }
}

pub type BooleanValueExpression = ValueExpression<bool>;

pub type UValueExpression = ValueExpression<u128>;

#[derive(Debug, PartialEq)]
pub enum ValueOrExpression<V, I> {
    Value(V),
    Expression(I),
}

#[derive(Debug, PartialEq)]
pub struct IdentifierExpression<I, E> {
    pub span: Option<Span>,
    pub id: I,
    pub ty: PhantomData<E>,
}

impl<I, E> IdentifierExpression<I, E> {
    pub open spec fn spec_new(id: I) -> Self {
        IdentifierExpression { span: None, id, ty: PhantomData }
    }

    pub open spec fn spec_with_span(id: I, span: Option<Span>) -> Self {
        IdentifierExpression { span, id, ty: PhantomData }
    }

    #[verifier::when_used_as_spec(spec_new)]
    pub fn new(id: I) -> (r: Self)
        ensures
            r == Self::spec_new(id),
    {
        IdentifierExpression { span: None, id, ty: PhantomData }
    }

    #[verifier::when_used_as_spec(spec_with_span)]
    pub fn with_span(id: I, span: Option<Span>) -> (r: Self)
        ensures
            r == Self::spec_with_span(id, span),
    {
        IdentifierExpression { span, id, ty: PhantomData }
    }
}

impl<I, E> WithSpan for IdentifierExpression<I, E> {
    open spec fn spec_span(&self) -> Option<Span> {
        self.span
    }

    fn span(self, span: Option<Span>) -> (r: Self)
        ensures
            r == (IdentifierExpression { span, ..self }),
    {
        let mut e = self;
        e.span = span;
        e
    }

    fn get_span(&self) -> (r: Option<Span>) {
        self.span
    }
}

#[derive(Debug, PartialEq)]
pub enum IdentifierOrExpression<V, E, I> {
    Identifier(IdentifierExpression<V, E>),
    Expression(I),
}

/// `assignee := rhs`.
#[derive(Debug, PartialEq)]
pub struct DefinitionStatement<A, E> {
    pub span: Option<Span>,
    pub assignee: A,
    pub rhs: E,
}

impl<A, E> DefinitionStatement<A, E> {
    pub open spec fn spec_new(assignee: A, rhs: E) -> Self {
        DefinitionStatement { span: None, assignee, rhs }
    }

    #[verifier::when_used_as_spec(spec_new)]
    pub fn new(assignee: A, rhs: E) -> (r: Self)
        ensures
            r == Self::spec_new(assignee, rhs),
    {
        DefinitionStatement { span: None, assignee, rhs }
    }
}

impl<A, E> WithSpan for DefinitionStatement<A, E> {
    open spec fn spec_span(&self) -> Option<Span> {
        self.span
    }

    fn span(self, span: Option<Span>) -> (r: Self)
        ensures
            r == (DefinitionStatement { span, ..self }),
    {
        let mut e = self;
        e.span = span;
        e
    }

    fn get_span(&self) -> (r: Option<Span>) {
        self.span
    }
}

/// A condition that has to hold, with the error to report when it does not.
#[derive(Debug, PartialEq)]
pub struct AssertionStatement<E, R> {
    pub span: Option<Span>,
    pub expression: E,
    pub error: R,
}

impl<E, R> AssertionStatement<E, R> {
    pub open spec fn spec_new(expression: E, error: R) -> Self {
        AssertionStatement { span: None, expression, error }
    }

    #[verifier::when_used_as_spec(spec_new)]
    pub fn new(expression: E, error: R) -> (r: Self)
        ensures
            r == Self::spec_new(expression, error),
    {
        AssertionStatement { span: None, expression, error }
    }
}

impl<E, R> WithSpan for AssertionStatement<E, R> {
    open spec fn spec_span(&self) -> Option<Span> {
        self.span
    }

    fn span(self, span: Option<Span>) -> (r: Self)
        ensures
            r == (AssertionStatement { span, ..self }),
    {
        let mut e = self;
        e.span = span;
        e
    }

    fn get_span(&self) -> (r: Option<Span>) {
        self.span
    }
}

} // verus!
