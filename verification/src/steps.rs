//! One statement of the first pass, and what the second pass makes of what
//! the first pass emitted for it.

use crate::constant::{canonical, is_constant};
use crate::embed::evaluated;
use crate::error::Error;
use crate::field::Field;
use crate::folding::{folded_boolean, folded_expression, folded_uint, Known};
use crate::idempotence::{
    lemma_boolean_idempotent, lemma_expression_idempotent, lemma_fixed_folds,
    lemma_uint_idempotent,
};
use crate::list::List;
use crate::regular::{regular_boolean, regular_expression, regular_uint};
use crate::repetition::{
    all_good, good, lemma_all_good_settled, lemma_canonical_good, lemma_canonical_idempotent,
    lemma_canonical_type, lemma_evaluated_canonical, lemma_evaluated_good,
    lemma_expressions_idempotent, nothing, regular_expressions,
};
use crate::second_pass::{
    calling, defining, fits, is_declared, left_alone, lemma_assignment_fits, lemma_flushed_unknown,
    lemma_group_pair, lemma_group_single, lemma_second_call, lemma_second_definition,
    lemma_second_known, result_type, typed, whole_statement, Declared,
};
use crate::statements::{
    definition, flushed, folded_assertion, folded_call, folded_definition, folded_expressions,
    folded_statement, folded_statements, one, Step,
};
use crate::typed::{
    BooleanExpression, DefinitionRhs, EmbedCall, TypedAssignee, TypedExpression, TypedStatement,
    UExpression, Variable,
};
use crate::witness::{
    lemma_definition_cases, lemma_statement_assertion, lemma_statement_definition,
    lemma_statement_return, lemma_stored_variable,
};
use vstd::prelude::*;

verus! {

/// What a step of the first pass has to leave behind: known values that are
/// constants in canonical form of the types of their variables, and
/// statements that the second pass emits again as they are.
pub open spec fn repeats<T: Field>(gamma: Declared, step: Step<T>) -> bool {
    &&& all_good(step.0)
    &&& typed(gamma, step.0)
    &&& folded_statements(nothing::<T>(), step.1) == Ok::<Step<T>, Error>((nothing(), step.1))
}

pub proof fn lemma_all_good_insert<T: Field>(c: Known<T>, id: u64, k: TypedExpression<T>)
    requires
        all_good(c),
        good(k),
        canonical(k) == k,
    ensures
        all_good(c.insert(id, k)),
{
    let c2 = c.insert(id, k);
    assert forall|i: u64| c2.contains_key(i) implies good(#[trigger] c2[i]) && canonical(c2[i])
        == c2[i] by {
        if i != id {
            assert(c.contains_key(i));
            assert(c2[i] == c[i]);
        }
    }
}

pub proof fn lemma_all_good_remove<T: Field>(c: Known<T>, id: u64)
    requires
        all_good(c),
    ensures
        all_good(c.remove(id)),
{
    let c2 = c.remove(id);
    assert forall|i: u64| c2.contains_key(i) implies good(#[trigger] c2[i]) && canonical(c2[i])
        == c2[i] by {
        assert(c.contains_key(i));
        assert(c2[i] == c[i]);
    }
}

pub proof fn lemma_typed_insert<T: Field>(
    gamma: Declared,
    c: Known<T>,
    v: Variable,
    k: TypedExpression<T>,
)
    requires
        typed(gamma, c),
        is_declared(gamma, v),
        fits(v.ty, k.get_type()),
    ensures
        typed(gamma, c.insert(v.id.id, k)),
{
    let c2 = c.insert(v.id.id, k);
    assert forall|i: u64| c2.contains_key(i) implies gamma.contains_key(i) && fits(
        gamma[i],
        (#[trigger] c2[i]).get_type(),
    ) by {
        if i != v.id.id {
            assert(c.contains_key(i));
            assert(c2[i] == c[i]);
        }
    }
}

pub proof fn lemma_typed_remove<T: Field>(gamma: Declared, c: Known<T>, id: u64)
    requires
        typed(gamma, c),
    ensures
        typed(gamma, c.remove(id)),
{
    let c2 = c.remove(id);
    assert forall|i: u64| c2.contains_key(i) implies gamma.contains_key(i) && fits(
        gamma[i],
        (#[trigger] c2[i]).get_type(),
    ) by {
        assert(c.contains_key(i));
        assert(c2[i] == c[i]);
    }
}

/// Nothing emitted is emitted again as it is.
pub proof fn lemma_nothing_repeats<T: Field>()
    ensures
        folded_statements(nothing::<T>(), List::Nil) == Ok::<Step<T>, Error>(
            (nothing(), List::Nil),
        ),
{
}

/// A constant recorded for a variable of its type leaves behind what a step
/// has to leave behind.
pub proof fn lemma_recorded_repeats<T: Field>(
    gamma: Declared,
    c: Known<T>,
    v: Variable,
    k: TypedExpression<T>,
)
    requires
        all_good(c),
        typed(gamma, c),
        is_declared(gamma, v),
        good(k),
        canonical(k) == k,
        fits(v.ty, k.get_type()),
    ensures
        repeats(gamma, (c.insert(v.id.id, k), List::<TypedStatement<T>>::Nil)),
{
    lemma_all_good_insert(c, v.id.id, k);
    lemma_typed_insert(gamma, c, v, k);
    lemma_nothing_repeats::<T>();
}

/// A statement that writes to a variable, emitted after the known value of
/// the variable, leaves behind what a step has to leave behind, where the
/// second pass emits the statement again whatever it knows of the variable.
pub proof fn lemma_flushed_repeats<T: Field>(
    gamma: Declared,
    c: Known<T>,
    v: Variable,
    s: TypedStatement<T>,
)
    requires
        all_good(c),
        typed(gamma, c),
        is_declared(gamma, v),
        folded_statement(nothing::<T>(), s) == Ok::<Step<T>, Error>(flushed(nothing(), v, s)),
        c.contains_key(v.id.id) ==> folded_statement(
            nothing::<T>().insert(v.id.id, c[v.id.id]),
            s,
        ) == Ok::<Step<T>, Error>(flushed(nothing::<T>().insert(v.id.id, c[v.id.id]), v, s)),
    ensures
        repeats(gamma, flushed(c, v, s)),
{
    if c.contains_key(v.id.id) {
        let k = c[v.id.id];
        lemma_all_good_remove(c, v.id.id);
        lemma_typed_remove(gamma, c, v.id.id);
        assert(good(k));
        lemma_fixed_folds(nothing::<T>(), k);
        lemma_second_known(nothing::<T>(), v, k);
        lemma_group_pair(v, k, s);
    } else {
        lemma_flushed_unknown(nothing::<T>(), v, s);
        lemma_group_single(s);
    }
}

/// The step of a definition by an expression.
pub proof fn lemma_step_definition<T: Field>(
    gamma: Declared,
    c: Known<T>,
    v: Variable,
    e: TypedExpression<T>,
)
    requires
        all_good(c),
        typed(gamma, c),
        is_declared(gamma, v),
        regular_expression(e),
        folded_statement(c, defining(v, e)) is Ok,
    ensures
        repeats(gamma, folded_statement(c, defining(v, e))->Ok_0),
{
    let a = TypedAssignee::<T>::Identifier(v);
    lemma_statement_definition(c, v, e);
    let e2 = folded_expression(c, e)->Ok_0;
    assert(folded_statement(c, defining(v, e)) == folded_definition(c, a, e2));
    lemma_definition_cases(c, a, e2);
    lemma_assignment_fits(v, e2);
    let none = nothing::<T>();
    lemma_all_good_settled(c, none);
    lemma_expression_idempotent(c, none, e);
    lemma_fixed_folds(none, e2);
    if is_constant(e2) {
        lemma_stored_variable(c, v, canonical(e2), defining(v, e2));
        lemma_canonical_good(e2);
        lemma_canonical_idempotent(e2);
        lemma_canonical_type(e2);
        lemma_recorded_repeats(gamma, c, v, canonical(e2));
    } else {
        lemma_second_definition(none, v, e2);
        if c.contains_key(v.id.id) {
            let d = none.insert(v.id.id, c[v.id.id]);
            assert(d.submap_of(c));
            lemma_all_good_settled(c, d);
            lemma_expression_idempotent(c, d, e);
            lemma_fixed_folds(d, e2);
            lemma_second_definition(d, v, e2);
        }
        lemma_flushed_repeats(gamma, c, v, defining(v, e2));
    }
}

/// What the pass makes of the definition of a variable by a call.
pub proof fn lemma_statement_call<T: Field>(c: Known<T>, v: Variable, call: EmbedCall<T>)
    ensures
        folded_statement(c, calling(v, call)) == (match folded_expressions(c, call.arguments) {
            Ok(arguments) => folded_call(
                c,
                TypedAssignee::Identifier(v),
                EmbedCall { embed: call.embed, generics: call.generics, arguments },
            ),
            Err(x) => Err(x),
        }),
{
    let a = TypedAssignee::<T>::Identifier(v);
    assert(crate::assignee::folded_assignee(c, a) == Ok::<TypedAssignee<T>, Error>(a));
}

/// What the pass makes of `v := call`, the arguments simplified already,
/// where it does not fail.
pub proof fn lemma_call_cases<T: Field>(c: Known<T>, v: Variable, call: EmbedCall<T>)
    requires
        folded_call(c, TypedAssignee::Identifier(v), call) is Ok,
    ensures
        left_alone(call) ==> folded_call(c, TypedAssignee::Identifier(v), call)->Ok_0 == flushed(
            c,
            v,
            calling(v, call),
        ),
        !left_alone(call) ==> evaluated(call) matches Ok(Some(_)),
        !left_alone(call) ==> folded_call(c, TypedAssignee::Identifier(v), call)->Ok_0 == (
            c.insert(v.id.id, evaluated(call)->Ok_0->Some_0),
            List::<TypedStatement<T>>::Nil,
        ),
{
    let a = TypedAssignee::<T>::Identifier(v);
    assert(crate::assignee::root(a) == v);
    if !left_alone(call) {
        let value = evaluated(call)->Ok_0->Some_0;
        lemma_stored_variable(
            c,
            v,
            value,
            TypedStatement::Definition(a, DefinitionRhs::Expression(value)),
        );
    }
}

/// What the pass computes for a call has the type that the call gives.
pub proof fn lemma_evaluated_type<T: Field>(call: EmbedCall<T>)
    requires
        evaluated(call) matches Ok(Some(_)),
    ensures
        result_type(call.embed, call.generics) == Some(evaluated(call)->Ok_0->Some_0.get_type()),
{
}

/// The step of a definition by a call.
pub proof fn lemma_step_call<T: Field>(gamma: Declared, c: Known<T>, v: Variable, call: EmbedCall<T>)
    requires
        all_good(c),
        typed(gamma, c),
        is_declared(gamma, v),
        regular_expressions(call.arguments),
        result_type(call.embed, call.generics) matches Some(t) ==> fits(v.ty, t),
        folded_statement(c, calling(v, call)) is Ok,
    ensures
        repeats(gamma, folded_statement(c, calling(v, call))->Ok_0),
{
    let a = TypedAssignee::<T>::Identifier(v);
    lemma_statement_call(c, v, call);
    let arguments = folded_expressions(c, call.arguments)->Ok_0;
    let call2 = EmbedCall { embed: call.embed, generics: call.generics, arguments };
    assert(folded_statement(c, calling(v, call)) == folded_call(c, a, call2));
    lemma_call_cases(c, v, call2);
    let none = nothing::<T>();
    if left_alone(call2) {
        lemma_all_good_settled(c, none);
        lemma_expressions_idempotent(c, none, call.arguments);
        lemma_second_call(none, v, call2);
        if c.contains_key(v.id.id) {
            let d = none.insert(v.id.id, c[v.id.id]);
            assert(d.submap_of(c));
            lemma_all_good_settled(c, d);
            lemma_expressions_idempotent(c, d, call.arguments);
            lemma_second_call(d, v, call2);
        }
        lemma_flushed_repeats(gamma, c, v, calling(v, call2));
    } else {
        let value = evaluated(call2)->Ok_0->Some_0;
        lemma_evaluated_good(call2);
        lemma_evaluated_canonical(call2);
        lemma_evaluated_type(call2);
        lemma_recorded_repeats(gamma, c, v, value);
    }
}

/// The step of an assertion.
pub proof fn lemma_step_assertion<T: Field>(
    gamma: Declared,
    c: Known<T>,
    e: BooleanExpression<T>,
    tag: crate::common::RuntimeError,
)
    requires
        all_good(c),
        typed(gamma, c),
        regular_boolean(e),
        folded_statement(c, TypedStatement::Assertion(e, tag)) is Ok,
    ensures
        repeats(gamma, folded_statement(c, TypedStatement::Assertion(e, tag))->Ok_0),
{
    let none = nothing::<T>();
    lemma_statement_assertion(c, e, tag);
    let e2 = folded_boolean(c, e)->Ok_0;
    assert(folded_statement(c, TypedStatement::Assertion(e, tag)) == folded_assertion(
        c,
        e2,
        tag,
    ));
    lemma_all_good_settled(c, none);
    lemma_boolean_idempotent(c, none, e);
    match e2 {
        BooleanExpression::Value(v) => {
            lemma_nothing_repeats::<T>();
        },
        _ => {
            let s = TypedStatement::Assertion(e2, tag);
            lemma_statement_assertion(none, e2, tag);
            assert(folded_statement(none, s) == Ok::<Step<T>, Error>((none, one(s))));
            lemma_group_single(s);
        },
    }
}

/// The step of a return statement.
pub proof fn lemma_step_return<T: Field>(gamma: Declared, c: Known<T>, e: TypedExpression<T>)
    requires
        all_good(c),
        typed(gamma, c),
        regular_expression(e),
        folded_statement(c, TypedStatement::Return(e)) is Ok,
    ensures
        repeats(gamma, folded_statement(c, TypedStatement::Return(e))->Ok_0),
{
    let none = nothing::<T>();
    lemma_statement_return(c, e);
    let e2 = folded_expression(c, e)->Ok_0;
    lemma_all_good_settled(c, none);
    lemma_expression_idempotent(c, none, e);
    lemma_fixed_folds(none, e2);
    let s = TypedStatement::<T>::Return(e2);
    lemma_statement_return(none, e2);
    assert(folded_statement(none, s) == Ok::<Step<T>, Error>((none, one(s))));
    lemma_group_single(s);
}

/// The step of a loop.
pub proof fn lemma_step_for<T: Field>(
    gamma: Declared,
    c: Known<T>,
    v: Variable,
    from: UExpression<T>,
    to: UExpression<T>,
    body: List<TypedStatement<T>>,
)
    requires
        all_good(c),
        typed(gamma, c),
        regular_uint(from),
        regular_uint(to),
        folded_statement(c, TypedStatement::For(v, from, to, body)) is Ok,
    ensures
        repeats(gamma, folded_statement(c, TypedStatement::For(v, from, to, body))->Ok_0),
{
    let none = nothing::<T>();
    let from2 = folded_uint(c, from)->Ok_0;
    let to2 = folded_uint(c, to)->Ok_0;
    assert(folded_uint(c, from) is Ok);
    assert(folded_uint(c, to) is Ok);
    lemma_all_good_settled(c, none);
    lemma_uint_idempotent(c, none, from);
    lemma_uint_idempotent(c, none, to);
    let s = TypedStatement::For(v, from2, to2, body);
    assert(folded_statement(c, TypedStatement::For(v, from, to, body)) == Ok::<Step<T>, Error>(
        (c, one(s)),
    ));
    assert(folded_statement(none, s) == Ok::<Step<T>, Error>((none, one(s))));
    lemma_group_single(s);
}

/// The step of a log statement.
pub proof fn lemma_step_log<T: Field>(
    gamma: Declared,
    c: Known<T>,
    format: crate::common::FormatString,
    l: List<TypedExpression<T>>,
)
    requires
        all_good(c),
        typed(gamma, c),
        regular_expressions(l),
        folded_statement(c, TypedStatement::Log(format, l)) is Ok,
    ensures
        repeats(gamma, folded_statement(c, TypedStatement::Log(format, l))->Ok_0),
{
    let none = nothing::<T>();
    assert(folded_expressions(c, l) is Ok);
    let l2 = folded_expressions(c, l)->Ok_0;
    lemma_all_good_settled(c, none);
    lemma_expressions_idempotent(c, none, l);
    let s = TypedStatement::Log(format, l2);
    assert(folded_statement(c, TypedStatement::Log(format, l)) == Ok::<Step<T>, Error>(
        (c, one(s)),
    ));
    assert(folded_statement(none, s) == Ok::<Step<T>, Error>((none, one(s))));
    lemma_group_single(s);
}

/// The step of a mark in the log of calls.
pub proof fn lemma_step_mark<T: Field>(gamma: Declared, c: Known<T>, s: TypedStatement<T>)
    requires
        all_good(c),
        typed(gamma, c),
        s is PushCallLog || s is PopCallLog,
    ensures
        folded_statement(c, s) is Ok,
        repeats(gamma, folded_statement(c, s)->Ok_0),
{
    let none = nothing::<T>();
    assert(folded_statement(c, s) == Ok::<Step<T>, Error>((c, one(s))));
    assert(folded_statement(none, s) == Ok::<Step<T>, Error>((none, one(s))));
    lemma_group_single(s);
}

/// Every step of the first pass leaves behind known values that are
/// constants in canonical form of the types of their variables, and
/// statements that the second pass emits again as they are.
pub proof fn lemma_step<T: Field>(gamma: Declared, c: Known<T>, s: TypedStatement<T>)
    requires
        all_good(c),
        typed(gamma, c),
        whole_statement(gamma, s),
        folded_statement(c, s) is Ok,
    ensures
        repeats(gamma, folded_statement(c, s)->Ok_0),
{
    match s {
        TypedStatement::Definition(TypedAssignee::Identifier(v), DefinitionRhs::Expression(e)) => {
            assert(s == defining(v, e));
            lemma_step_definition(gamma, c, v, e);
        },
        TypedStatement::Definition(TypedAssignee::Identifier(v), DefinitionRhs::EmbedCall(call)) => {
            assert(s == calling(v, call));
            lemma_step_call(gamma, c, v, call);
        },
        TypedStatement::Definition(_, _) => {},
        TypedStatement::Assertion(e, tag) => {
            lemma_step_assertion(gamma, c, e, tag);
        },
        TypedStatement::For(v, from, to, body) => {
            lemma_step_for(gamma, c, v, from, to, body);
        },
        TypedStatement::Return(e) => {
            lemma_step_return(gamma, c, e);
        },
        TypedStatement::Log(format, l) => {
            lemma_step_log(gamma, c, format, l);
        },
        TypedStatement::PushCallLog(_) => {
            lemma_step_mark(gamma, c, s);
        },
        TypedStatement::PopCallLog => {
            lemma_step_mark(gamma, c, s);
        },
    }
}

} // verus!
