//! The flat program: three-address arithmetic over a field, and the
//! directives that ask a solver for witness values.

use crate::common::{FormatString, Parameter, RuntimeError, Solver, Span, Variable, WithSpan};
use crate::expressions::{
    AssertionStatement, BinaryExpression, DefinitionStatement, IdentifierExpression,
    ValueExpression,
};
use crate::operators::{OpAdd, OpMul, OpSub};
use crate::types::Type;
use std::collections::HashMap;
use vstd::prelude::*;

verus! {

/// A renaming of variables, by the number of the variable that is renamed.
/// A variable that the map does not hold stays as it is.
pub type Substitution = HashMap<isize, Variable>;

/// What `v` is renamed to.
pub open spec fn substituted(substitution: Map<isize, Variable>, v: Variable) -> Variable {
    if substitution.contains_key(v.id) {
        substitution[v.id]
    } else {
        v
    }
}

impl Variable {
    pub fn apply_substitution(self, substitution: &Substitution) -> (r: Variable)
        ensures
            r == substituted(substitution@, self),
    {
        match substitution.get(&self.id) {
            Some(v) => *v,
            None => self,
        }
    }
}

#[derive(Debug, PartialEq)]
pub enum FlatExpression<T> {
    Number(ValueExpression<T>),
    Identifier(IdentifierExpression<Variable, FlatExpression<T>>),
    Add(BinaryExpression<OpAdd, FlatExpression<T>, FlatExpression<T>, FlatExpression<T>>),
    Sub(BinaryExpression<OpSub, FlatExpression<T>, FlatExpression<T>, FlatExpression<T>>),
    Mult(BinaryExpression<OpMul, FlatExpression<T>, FlatExpression<T>, FlatExpression<T>>),
}

pub type FlatDefinitionStatement<T> = DefinitionStatement<Variable, FlatExpression<T>>;

pub type FlatAssertionStatement<T> = AssertionStatement<FlatExpression<T>, RuntimeError>;

/// A request to a solver: the values of `outputs` are what `solver` computes
/// from the values of `inputs`.
#[derive(Debug, PartialEq)]
pub struct FlatDirective<T> {
    pub span: Option<Span>,
    pub inputs: Vec<FlatExpression<T>>,
    pub outputs: Vec<Variable>,
    pub solver: Solver,
}

/// A message to print while the witness is computed, with the values to
/// fill in, each with its type.
#[derive(Debug, PartialEq)]
pub struct LogStatement<T> {
    pub span: Option<Span>,
    pub format_string: FormatString,
    pub expressions: Vec<(Type, Vec<FlatExpression<T>>)>,
}

#[derive(Debug, PartialEq)]
pub enum FlatStatement<T> {
    /// The expression has to be zero.
    Condition(FlatAssertionStatement<T>),
    Definition(FlatDefinitionStatement<T>),
    Directive(FlatDirective<T>),
    Log(LogStatement<T>),
}

impl<T> FlatExpression<T> {
    pub open spec fn spec_identifier(v: Variable) -> Self {
        FlatExpression::Identifier(IdentifierExpression::new(v))
    }

    pub open spec fn spec_number(t: T) -> Self {
        FlatExpression::Number(ValueExpression::new(t))
    }

    #[verifier::when_used_as_spec(spec_identifier)]
    pub fn identifier(v: Variable) -> (r: Self)
        ensures
            r == Self::spec_identifier(v),
    {
        FlatExpression::Identifier(IdentifierExpression::new(v))
    }

    #[verifier::when_used_as_spec(spec_number)]
    pub fn number(t: T) -> (r: Self)
        ensures
            r == Self::spec_number(t),
    {
        FlatExpression::Number(ValueExpression::new(t))
    }

    /// The expression with every variable renamed.
    pub open spec fn substitute(self, substitution: Map<isize, Variable>) -> Self
        decreases self,
    {
        match self {
            FlatExpression::Number(n) => FlatExpression::Number(n),
            FlatExpression::Identifier(id) => FlatExpression::Identifier(
                IdentifierExpression { id: substituted(substitution, id.id), ..id },
            ),
            FlatExpression::Add(e) => FlatExpression::Add(
                BinaryExpression::with_span(
                    e.left.substitute(substitution),
                    e.right.substitute(substitution),
                    e.span,
                ),
            ),
            FlatExpression::Sub(e) => FlatExpression::Sub(
                BinaryExpression::with_span(
                    e.left.substitute(substitution),
                    e.right.substitute(substitution),
                    e.span,
                ),
            ),
            FlatExpression::Mult(e) => FlatExpression::Mult(
                BinaryExpression::with_span(
                    e.left.substitute(substitution),
                    e.right.substitute(substitution),
                    e.span,
                ),
            ),
        }
    }

    /// Whether the expression can stand as one row of a constraint matrix:
    /// numbers and variables can, sums and differences of such expressions
    /// can, and so can the product of a number with a number or a variable.
    pub open spec fn linear(self) -> bool
        decreases self,
    {
        match self {
            FlatExpression::Number(_) => true,
            FlatExpression::Identifier(_) => true,
            FlatExpression::Add(e) => e.left.linear() && e.right.linear(),
            FlatExpression::Sub(e) => e.left.linear() && e.right.linear(),
            FlatExpression::Mult(e) => (*e.left is Number && *e.right is Number) || (*e.left
                is Number && *e.right is Identifier) || (*e.left is Identifier && *e.right
                is Number),
        }
    }

    pub fn apply_substitution(self, substitution: &Substitution) -> (r: Self)
        ensures
            r == self.substitute(substitution@),
        decreases self,
    {
        match self {
            FlatExpression::Number(n) => FlatExpression::Number(n),
            FlatExpression::Identifier(id) => FlatExpression::Identifier(
                id.apply_substitution(substitution),
            ),
            FlatExpression::Add(e) => FlatExpression::Add(e.apply_substitution(substitution)),
            FlatExpression::Sub(e) => FlatExpression::Sub(e.apply_substitution(substitution)),
            FlatExpression::Mult(e) => FlatExpression::Mult(e.apply_substitution(substitution)),
        }
    }

    pub fn is_linear(&self) -> (r: bool)
        ensures
            r == self.linear(),
        decreases *self,
    {
        match self {
            FlatExpression::Number(_) => true,
            FlatExpression::Identifier(_) => true,
            FlatExpression::Add(e) => e.left.is_linear() && e.right.is_linear(),
            FlatExpression::Sub(e) => e.left.is_linear() && e.right.is_linear(),
            FlatExpression::Mult(e) => match (&*e.left, &*e.right) {
                (FlatExpression::Number(_), FlatExpression::Number(_)) => true,
                (FlatExpression::Number(_), FlatExpression::Identifier(_)) => true,
                (FlatExpression::Identifier(_), FlatExpression::Number(_)) => true,
                _ => false,
            },
        }
    }

    /// Renaming variables keeps a linear expression linear.
    pub proof fn lemma_substitution_keeps_linear(self, substitution: Map<isize, Variable>)
        requires
            self.linear(),
        ensures
            self.substitute(substitution).linear(),
        decreases self,
    {
        match self {
            FlatExpression::Add(e) => {
                e.left.lemma_substitution_keeps_linear(substitution);
                e.right.lemma_substitution_keeps_linear(substitution);
            },
            FlatExpression::Sub(e) => {
                e.left.lemma_substitution_keeps_linear(substitution);
                e.right.lemma_substitution_keeps_linear(substitution);
            },
            FlatExpression::Mult(e) => {
                assert(e.left.substitute(substitution) is Number == *e.left is Number);
                assert(e.left.substitute(substitution) is Identifier == *e.left is Identifier);
                assert(e.right.substitute(substitution) is Number == *e.right is Number);
                assert(e.right.substitute(substitution) is Identifier == *e.right is Identifier);
            },
            _ => {},
        }
    }
}

impl<T> std::ops::Add for FlatExpression<T> {
    type Output = Self;

    fn add(self, other: Self) -> (r: Self) {
        FlatExpression::Add(BinaryExpression::new(self, other))
    }
}

impl<T> vstd::std_specs::ops::AddSpecImpl for FlatExpression<T> {
    open spec fn obeys_add_spec() -> bool {
        true
    }

    open spec fn add_req(self, other: Self) -> bool {
        true
    }

    open spec fn add_spec(self, other: Self) -> Self {
        FlatExpression::Add(BinaryExpression::new(self, other))
    }
}

impl<T> std::ops::Sub for FlatExpression<T> {
    type Output = Self;

    fn sub(self, other: Self) -> (r: Self) {
        FlatExpression::Sub(BinaryExpression::new(self, other))
    }
}

impl<T> vstd::std_specs::ops::SubSpecImpl for FlatExpression<T> {
    open spec fn obeys_sub_spec() -> bool {
        true
    }

    open spec fn sub_req(self, other: Self) -> bool {
        true
    }

    open spec fn sub_spec(self, other: Self) -> Self {
        FlatExpression::Sub(BinaryExpression::new(self, other))
    }
}

impl<T> std::ops::Mul for FlatExpression<T> {
    type Output = Self;

    fn mul(self, other: Self) -> (r: Self) {
        FlatExpression::Mult(BinaryExpression::new(self, other))
    }
}

impl<T> vstd::std_specs::ops::MulSpecImpl for FlatExpression<T> {
    open spec fn obeys_mul_spec() -> bool {
        true
    }

    open spec fn mul_req(self, other: Self) -> bool {
        true
    }

    open spec fn mul_spec(self, other: Self) -> Self {
        FlatExpression::Mult(BinaryExpression::new(self, other))
    }
}

impl<T, Op> BinaryExpression<Op, FlatExpression<T>, FlatExpression<T>, FlatExpression<T>> {
    pub fn apply_substitution(self, substitution: &Substitution) -> (r: Self)
        ensures
            r == BinaryExpression::<Op, FlatExpression<T>, FlatExpression<T>, FlatExpression<T>>::with_span(
                self.left.substitute(substitution@),
                self.right.substitute(substitution@),
                self.span,
            ),
        decreases self,
    {
        let left = (*self.left).apply_substitution(substitution);
        let right = (*self.right).apply_substitution(substitution);
        BinaryExpression::with_span(left, right, self.span)
    }
}

impl<T> IdentifierExpression<Variable, FlatExpression<T>> {
    pub fn apply_substitution(self, substitution: &Substitution) -> (r: Self)
        ensures
            r == (IdentifierExpression { id: substituted(substitution@, self.id), ..self }),
    {
        let id = self.id.apply_substitution(substitution);
        IdentifierExpression { id, ..self }
    }
}

impl<T> WithSpan for FlatExpression<T> {
    open spec fn spec_span(&self) -> Option<Span> {
        match self {
            FlatExpression::Number(e) => e.span,
            FlatExpression::Identifier(e) => e.span,
            FlatExpression::Add(e) => e.span,
            FlatExpression::Sub(e) => e.span,
            FlatExpression::Mult(e) => e.span,
        }
    }

    fn span(self, span: Option<Span>) -> (r: Self) {
        match self {
            FlatExpression::Number(e) => FlatExpression::Number(e.span(span)),
            FlatExpression::Identifier(e) => FlatExpression::Identifier(e.span(span)),
            FlatExpression::Add(e) => FlatExpression::Add(e.span(span)),
            FlatExpression::Sub(e) => FlatExpression::Sub(e.span(span)),
            FlatExpression::Mult(e) => FlatExpression::Mult(e.span(span)),
        }
    }

    fn get_span(&self) -> (r: Option<Span>) {
        match self {
            FlatExpression::Number(e) => e.get_span(),
            FlatExpression::Identifier(e) => e.get_span(),
            FlatExpression::Add(e) => e.get_span(),
            FlatExpression::Sub(e) => e.get_span(),
            FlatExpression::Mult(e) => e.get_span(),
        }
    }
}

impl<T> FlatDirective<T> {
    /// A request to `solver`, which has to take as many inputs and give as
    /// many outputs as there are.
    pub fn new(outputs: Vec<Variable>, solver: Solver, inputs: Vec<FlatExpression<T>>) -> (r: Self)
        requires
            solver.signature() == (inputs.len(), outputs.len()),
        ensures
            r.span is None,
            r.inputs == inputs,
            r.outputs == outputs,
            r.solver == solver,
    {
        FlatDirective { span: None, solver, inputs, outputs }
    }

    /// Whether the directive has as many inputs and outputs as its solver
    /// asks for.
    pub open spec fn well_formed(&self) -> bool {
        self.solver.signature() == (self.inputs.len(), self.outputs.len())
    }
}

/// Every expression of `from` with its variables renamed, in order.
pub open spec fn substituted_expressions<T>(
    from: Seq<FlatExpression<T>>,
    substitution: Map<isize, Variable>,
) -> Seq<FlatExpression<T>> {
    Seq::new(from.len(), |i: int| from[i].substitute(substitution))
}

/// Every variable of `from` renamed, in order.
pub open spec fn substituted_variables(from: Seq<Variable>, substitution: Map<isize, Variable>) -> Seq<
    Variable,
> {
    Seq::new(from.len(), |i: int| substituted(substitution, from[i]))
}

pub fn substitute_expressions<T>(from: Vec<FlatExpression<T>>, substitution: &Substitution) -> (r:
    Vec<FlatExpression<T>>)
    ensures
        r@ == substituted_expressions(from@, substitution@),
{
    let ghost all = from@;
    let mut rest = from;
    let mut reversed: Vec<FlatExpression<T>> = Vec::new();
    while rest.len() > 0
        invariant
            rest@.len() + reversed@.len() == all.len(),
            rest@ == all.subrange(0, rest@.len() as int),
            forall|i: int|
                0 <= i < reversed@.len() ==> reversed@[i] == (#[trigger] all[all.len() - 1
                    - i]).substitute(substitution@),
        decreases rest.len(),
    {
        let e = rest.pop().unwrap();
        reversed.push(e.apply_substitution(substitution));
    }
    let mut out: Vec<FlatExpression<T>> = Vec::new();
    while reversed.len() > 0
        invariant
            out@.len() + reversed@.len() == all.len(),
            forall|i: int|
                0 <= i < reversed@.len() ==> reversed@[i] == (#[trigger] all[all.len() - 1
                    - i]).substitute(substitution@),
            forall|i: int|
                0 <= i < out@.len() ==> out@[i] == (#[trigger] all[i]).substitute(substitution@),
        decreases reversed.len(),
    {
        let ghost k = reversed@.len() - 1;
        let e = reversed.pop().unwrap();
        assert(e == all[all.len() - 1 - k].substitute(substitution@));
        out.push(e);
    }
    assert(out@ =~= substituted_expressions(all, substitution@));
    out
}

pub fn substitute_variables(from: &Vec<Variable>, substitution: &Substitution) -> (r: Vec<Variable>)
    ensures
        r@ == substituted_variables(from@, substitution@),
{
    let mut out: Vec<Variable> = Vec::new();
    let mut i: usize = 0;
    while i < from.len()
        invariant
            i <= from.len(),
            out@.len() == i,
            forall|j: int| 0 <= j < i ==> out@[j] == substituted(substitution@, #[trigger] from@[j]),
        decreases from.len() - i,
    {
        out.push(from[i].apply_substitution(substitution));
        i = i + 1;
    }
    assert(out@ =~= substituted_variables(from@, substitution@));
    out
}

/// The payload of a log statement with the variables renamed: entry by
/// entry the same type, and the expressions of the entry renamed.
pub open spec fn is_substituted_payload<T>(
    before: Seq<(Type, Vec<FlatExpression<T>>)>,
    after: Seq<(Type, Vec<FlatExpression<T>>)>,
    substitution: Map<isize, Variable>,
) -> bool {
    &&& after.len() == before.len()
    &&& forall|i: int|
        0 <= i < before.len() ==> (#[trigger] after[i]).0 == before[i].0 && after[i].1@
            == substituted_expressions(before[i].1@, substitution)
}

/// Whether `after` is `before` with every variable renamed. The renamed
/// definition and condition are new statements and have no span.
pub open spec fn is_substituted<T>(
    before: FlatStatement<T>,
    after: FlatStatement<T>,
    substitution: Map<isize, Variable>,
) -> bool {
    match before {
        FlatStatement::Definition(s) => after == FlatStatement::Definition(
            DefinitionStatement::new(
                substituted(substitution, s.assignee),
                s.rhs.substitute(substitution),
            ),
        ),
        FlatStatement::Condition(s) => after == FlatStatement::Condition(
            AssertionStatement::new(s.expression.substitute(substitution), s.error),
        ),
        FlatStatement::Directive(d) => {
            &&& after matches FlatStatement::Directive(e)
            &&& e.span == d.span
            &&& e.solver == d.solver
            &&& e.inputs@ == substituted_expressions(d.inputs@, substitution)
            &&& e.outputs@ == substituted_variables(d.outputs@, substitution)
        },
        FlatStatement::Log(l) => {
            &&& after matches FlatStatement::Log(m)
            &&& m.span == l.span
            &&& m.format_string == l.format_string
            &&& is_substituted_payload(l.expressions@, m.expressions@, substitution)
        },
    }
}

impl<T> FlatStatement<T> {
    pub open spec fn spec_definition(assignee: Variable, rhs: FlatExpression<T>) -> Self {
        FlatStatement::Definition(DefinitionStatement::new(assignee, rhs))
    }

    pub open spec fn spec_assertion(expression: FlatExpression<T>, error: RuntimeError) -> Self {
        FlatStatement::Condition(AssertionStatement::new(expression, error))
    }

    pub open spec fn spec_condition(
        left: FlatExpression<T>,
        right: FlatExpression<T>,
        error: RuntimeError,
    ) -> Self {
        Self::spec_assertion(FlatExpression::Sub(BinaryExpression::new(left, right)), error)
    }

    /// `assignee := rhs`.
    #[verifier::when_used_as_spec(spec_definition)]
    pub fn definition(assignee: Variable, rhs: FlatExpression<T>) -> (r: Self)
        ensures
            r == Self::spec_definition(assignee, rhs),
    {
        FlatStatement::Definition(DefinitionStatement::new(assignee, rhs))
    }

    /// `expression == 0`.
    #[verifier::when_used_as_spec(spec_assertion)]
    pub fn assertion(expression: FlatExpression<T>, error: RuntimeError) -> (r: Self)
        ensures
            r == Self::spec_assertion(expression, error),
    {
        FlatStatement::Condition(AssertionStatement::new(expression, error))
    }

    /// `left == right`, written as `left - right == 0`.
    #[verifier::when_used_as_spec(spec_condition)]
    pub fn condition(left: FlatExpression<T>, right: FlatExpression<T>, error: RuntimeError) -> (r:
        Self)
        ensures
            r == Self::spec_condition(left, right, error),
    {
        Self::assertion(FlatExpression::Sub(BinaryExpression::new(left, right)), error)
    }

    pub fn apply_substitution(self, substitution: &Substitution) -> (r: FlatStatement<T>)
        ensures
            is_substituted(self, r, substitution@),
    {
        match self {
            FlatStatement::Definition(s) => FlatStatement::definition(
                s.assignee.apply_substitution(substitution),
                s.rhs.apply_substitution(substitution),
            ),
            FlatStatement::Condition(s) => FlatStatement::assertion(
                s.expression.apply_substitution(substitution),
                s.error,
            ),
            FlatStatement::Directive(d) => {
                let outputs = substitute_variables(&d.outputs, substitution);
                let inputs = substitute_expressions(d.inputs, substitution);
                FlatStatement::Directive(
                    FlatDirective { span: d.span, inputs, outputs, solver: d.solver },
                )
            },
            FlatStatement::Log(l) => {
                let LogStatement { span, format_string, expressions } = l;
                let ghost all = expressions@;
                let mut rest = expressions;
                let mut reversed: Vec<(Type, Vec<FlatExpression<T>>)> = Vec::new();
                while rest.len() > 0
                    invariant
                        rest@.len() + reversed@.len() == all.len(),
                        rest@ == all.subrange(0, rest@.len() as int),
                        forall|i: int|
                            0 <= i < reversed@.len() ==> (#[trigger] reversed@[i]).0 == all[all.len()
                                - 1 - i].0 && reversed@[i].1@ == substituted_expressions(
                                all[all.len() - 1 - i].1@,
                                substitution@,
                            ),
                    decreases rest.len(),
                {
                    let (ty, e) = rest.pop().unwrap();
                    reversed.push((ty, substitute_expressions(e, substitution)));
                }
                let mut out: Vec<(Type, Vec<FlatExpression<T>>)> = Vec::new();
                while reversed.len() > 0
                    invariant
                        out@.len() + reversed@.len() == all.len(),
                        forall|i: int|
                            0 <= i < reversed@.len() ==> (#[trigger] reversed@[i]).0 == all[all.len()
                                - 1 - i].0 && reversed@[i].1@ == substituted_expressions(
                                all[all.len() - 1 - i].1@,
                                substitution@,
                            ),
                        forall|i: int|
                            0 <= i < out@.len() ==> (#[trigger] out@[i]).0 == all[i].0 && out@[i].1@
                                == substituted_expressions(all[i].1@, substitution@),
                    decreases reversed.len(),
                {
                    let ghost k = reversed@.len() - 1;
                    let e = reversed.pop().unwrap();
                    out.push(e);
                }
                FlatStatement::Log(LogStatement { span, format_string, expressions: out })
            },
        }
    }
}

impl<T> WithSpan for FlatStatement<T> {
    open spec fn spec_span(&self) -> Option<Span> {
        match self {
            FlatStatement::Condition(e) => e.span,
            FlatStatement::Definition(e) => e.span,
            FlatStatement::Directive(e) => e.span,
            FlatStatement::Log(e) => e.span,
        }
    }

    fn span(self, span: Option<Span>) -> (r: Self) {
        match self {
            FlatStatement::Condition(e) => FlatStatement::Condition(e.span(span)),
            FlatStatement::Definition(e) => FlatStatement::Definition(e.span(span)),
            FlatStatement::Directive(e) => FlatStatement::Directive(
                FlatDirective { span, inputs: e.inputs, outputs: e.outputs, solver: e.solver },
            ),
            FlatStatement::Log(e) => FlatStatement::Log(
                LogStatement { span, format_string: e.format_string, expressions: e.expressions },
            ),
        }
    }

    fn get_span(&self) -> (r: Option<Span>) {
        match self {
            FlatStatement::Condition(e) => e.get_span(),
            FlatStatement::Definition(e) => e.get_span(),
            FlatStatement::Directive(e) => e.span,
            FlatStatement::Log(e) => e.span,
        }
    }
}

/// A flat function whose statements are still to be produced one by one.
#[derive(Debug, PartialEq)]
pub struct FlatFunctionIterator<T, I> {
    /// The arguments of the function.
    pub arguments: Vec<Parameter>,
    /// The statements that are executed when the function runs.
    pub statements: I,
    /// The number of outputs.
    pub return_count: usize,
    /// The field that the statements are over.
    pub field: std::marker::PhantomData<T>,
}

pub type FlatFunction<T> = FlatFunctionIterator<T, Vec<FlatStatement<T>>>;

pub type FlatProg<T> = FlatFunction<T>;

pub type FlatProgIterator<T, I> = FlatFunctionIterator<T, I>;

impl<T> FlatFunctionIterator<T, Vec<FlatStatement<T>>> {
    pub fn new(arguments: Vec<Parameter>, statements: Vec<FlatStatement<T>>, return_count: usize) -> (r:
        Self)
        ensures
            r.arguments == arguments,
            r.statements == statements,
            r.return_count == return_count,
    {
        FlatFunctionIterator {
            arguments,
            statements,
            return_count,
            field: std::marker::PhantomData,
        }
    }

    /// The function with all its statements at hand.
    pub fn collect(self) -> (r: FlatFunction<T>)
        ensures
            r == self,
    {
        self
    }
}

/// An error in the flat program, as a message.
#[derive(Debug, PartialEq)]
pub struct Error {
    pub message: String,
}

impl Error {
    pub fn new(message: String) -> (r: Error)
        ensures
            r.message == message,
    {
        Error { message }
    }
}

} // verus!
