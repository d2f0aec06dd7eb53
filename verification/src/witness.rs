//! Soundness of constant propagation on statements: an environment that
//! satisfies the statements of a function satisfies what the pass makes of
//! them.
//!
//! The model is that of a program in which every variable is assigned once
//! and as a whole. A definition is satisfied where the variable has the value
//! of the expression. An assertion is satisfied where its condition has the
//! value that assertions are meant to have, whichever of the two that is.
//! Writes to places inside variables, calls and loops are outside this model:
//! no environment satisfies them.

use crate::assignee::{folded_assignee, root};
use crate::constant::{
    array_is_constant, canonical, canonical_array, elements_are_constant, flattened, is_constant,
};
use crate::error::Error;
use crate::field::Field;
use crate::folding::{folded_boolean, folded_expression, Known};
use crate::list::List;
use crate::regular::{regular_boolean, regular_expression};
use crate::semantics::{
    array_inner_value, array_value, boolean_value, element_values, field_value, uint_value,
    value_of, Environment, Value,
};
use crate::soundness::{
    lemma_boolean_sound, lemma_expression_sound, lemma_values_concat, models,
};
use crate::statements::{
    definition, flushed, folded_assertion, folded_declaration, folded_declarations,
    folded_definition, folded_function, folded_modules, folded_program, folded_statement,
    folded_statements, one, propagated, stored, two,
};
use crate::typed::{
    ArrayExpression, BooleanExpression, DefinitionRhs, FieldElementExpression, TypedAssignee,
    TypedExpression, TypedExpressionOrSpread, TypedFunctionSymbol, TypedFunctionSymbolDeclaration,
    TypedModuleEntry, TypedProgram, TypedStatement, UExpression, MAIN,
};
use vstd::prelude::*;

verus! {

/// The canonical form of a constant array literal, spelled out.
pub proof fn lemma_canonical_array<T: Field>(a: ArrayExpression<T>)
    requires
        array_is_constant(a),
    ensures
        a.inner is Value,
        canonical_array(a).ty == a.ty,
        canonical_array(a).inner is Value,
        canonical_array(a).inner->Value_0.value == flattened(a.inner->Value_0.value),
        elements_are_constant(a.inner->Value_0.value),
{
}

/// The canonical form of the elements of a constant array literal has
/// their values.
pub proof fn lemma_flattened_values<T: Field>(env: Environment, l: List<TypedExpressionOrSpread<T>>)
    requires
        elements_are_constant(l),
        element_values(env, l) is Some,
    ensures
        element_values(env, flattened(l)) == element_values(env, l),
    decreases l,
{
    match l {
        List::Nil => {},
        List::Cons(n) => {
            assert(elements_are_constant(n.tail));
            assert(element_values(env, n.tail) is Some);
            lemma_flattened_values(env, n.tail);
            match n.head {
                TypedExpressionOrSpread::Expression(e) => {
                    assert(is_constant(e));
                    assert(value_of(env, e) is Some);
                    lemma_canonical_value(env, e);
                    assert(flattened(l) == List::spec_cons(
                        TypedExpressionOrSpread::Expression(canonical(e)),
                        flattened(n.tail),
                    ));
                },
                TypedExpressionOrSpread::Spread(s) => {
                    assert(array_is_constant(s.array));
                    lemma_canonical_array(s.array);
                    let v = s.array.inner->Value_0;
                    assert(array_value(env, s.array) is Some);
                    assert(array_inner_value(env, s.array.inner) == element_values(env, v.value));
                    lemma_flattened_values(env, v.value);
                    assert(flattened(l) == flattened(v.value).spec_concat(flattened(n.tail)));
                    lemma_values_concat(env, flattened(v.value), flattened(n.tail));
                },
            }
        },
    }
}

/// The canonical form of a constant array has the value of the array.
pub proof fn lemma_canonical_array_value<T: Field>(env: Environment, a: ArrayExpression<T>)
    requires
        array_is_constant(a),
        array_value(env, a) is Some,
    ensures
        array_value(env, canonical_array(a)) == array_value(env, a),
    decreases a,
{
    lemma_canonical_array(a);
    let v = a.inner->Value_0;
    assert(array_inner_value(env, a.inner) == element_values(env, v.value));
    lemma_flattened_values(env, v.value);
    let k = canonical_array(a);
    assert(array_inner_value(env, k.inner) == element_values(env, k.inner->Value_0.value));
}

/// The canonical form of a constant has the value of the constant.
pub proof fn lemma_canonical_value<T: Field>(env: Environment, e: TypedExpression<T>)
    requires
        is_constant(e),
        value_of(env, e) is Some,
    ensures
        value_of(env, canonical(e)) == value_of(env, e),
    decreases e,
{
    match e {
        TypedExpression::Boolean(b) => {
            let k = BooleanExpression::<T>::from_value(b->Value_0.value);
            assert(canonical(e) == TypedExpression::Boolean(k));
            assert(boolean_value(env, k) == boolean_value(env, b));
        },
        TypedExpression::FieldElement(f) => {
            let k = FieldElementExpression::<T>::from_value(f->Number_0.value);
            assert(canonical(e) == TypedExpression::FieldElement(k));
            assert(field_value(env, k) == field_value(env, f));
        },
        TypedExpression::Uint(u) => {
            let k = UExpression::<T>::from_value(u.inner->Value_0.value).annotate(u.bitwidth);
            assert(canonical(e) == TypedExpression::Uint(k));
            assert(uint_value(env, k) == uint_value(env, u));
        },
        TypedExpression::Array(a) => {
            assert(canonical(e) == TypedExpression::Array(canonical_array(a)));
            assert(array_is_constant(a));
            assert(array_value(env, a) is Some);
            lemma_canonical_array_value(env, a);
        },
        TypedExpression::Struct(_) => {
            assert(value_of(env, e) is None);
        },
        TypedExpression::Tuple(_) => {
            assert(value_of(env, e) is None);
        },
    }
}


/// Whether the environment satisfies a statement, where a satisfied
/// assertion is one whose condition has the value `holds`.
pub open spec fn satisfies<T: Field>(env: Environment, s: TypedStatement<T>, holds: bool) -> bool {
    match s {
        TypedStatement::Definition(TypedAssignee::Identifier(v), DefinitionRhs::Expression(e)) => {
            env.contains_key(v.id.id) && value_of(env, e) == Some(env[v.id.id])
        },
        TypedStatement::Assertion(e, _) => boolean_value(env, e) == Some(holds),
        TypedStatement::Return(e) => value_of(env, e) is Some,
        TypedStatement::Log(_, _) => true,
        TypedStatement::PushCallLog(_) => true,
        TypedStatement::PopCallLog => true,
        _ => false,
    }
}

pub open spec fn satisfies_all<T: Field>(env: Environment, l: List<TypedStatement<T>>, holds: bool) -> bool
    decreases l,
{
    match l {
        List::Nil => true,
        List::Cons(n) => satisfies(env, n.head, holds) && satisfies_all(env, n.tail, holds),
    }
}

/// Whether the expressions of a statement that the model gives a value to
/// are of the kind that [`regular_expression`] describes.
pub open spec fn regular_statement<T: Field>(s: TypedStatement<T>) -> bool {
    match s {
        TypedStatement::Definition(TypedAssignee::Identifier(_), DefinitionRhs::Expression(e)) => regular_expression(
            e,
        ),
        TypedStatement::Assertion(e, _) => regular_boolean(e),
        TypedStatement::Return(e) => regular_expression(e),
        _ => true,
    }
}

pub open spec fn regular_statements<T: Field>(l: List<TypedStatement<T>>) -> bool
    decreases l,
{
    match l {
        List::Nil => true,
        List::Cons(n) => regular_statement(n.head) && regular_statements(n.tail),
    }
}

pub proof fn lemma_satisfies_concat<T: Field>(
    env: Environment,
    a: List<TypedStatement<T>>,
    b: List<TypedStatement<T>>,
    holds: bool,
)
    requires
        satisfies_all(env, a, holds),
        satisfies_all(env, b, holds),
    ensures
        satisfies_all(env, a.spec_concat(b), holds),
    decreases a,
{
    match a {
        List::Nil => {},
        List::Cons(n) => {
            lemma_satisfies_concat(env, n.tail, b, holds);
        },
    }
}

/// A known value more keeps the environment a model of what is known.
pub proof fn lemma_models_insert<T: Field>(
    env: Environment,
    c: Known<T>,
    id: u64,
    k: TypedExpression<T>,
)
    requires
        models(env, c),
        env.contains_key(id),
        value_of(env, k) == Some(env[id]),
    ensures
        models(env, c.insert(id, k)),
{
    let c2 = c.insert(id, k);
    assert forall|i: u64| c2.contains_key(i) implies env.contains_key(i) && value_of(
        env,
        #[trigger] c2[i],
    ) == Some(env[i]) by {
        if i != id {
            assert(c.contains_key(i));
            assert(c2[i] == c[i]);
        }
    }
}

/// A known value less keeps the environment a model of what is known.
pub proof fn lemma_models_remove<T: Field>(env: Environment, c: Known<T>, id: u64)
    requires
        models(env, c),
    ensures
        models(env, c.remove(id)),
{
    let c2 = c.remove(id);
    assert forall|i: u64| c2.contains_key(i) implies env.contains_key(i) && value_of(
        env,
        #[trigger] c2[i],
    ) == Some(env[i]) by {
        assert(c.contains_key(i));
        assert(c2[i] == c[i]);
    }
}

/// One satisfied statement is a satisfied list.
pub proof fn lemma_satisfies_one<T: Field>(env: Environment, s: TypedStatement<T>, holds: bool)
    requires
        satisfies(env, s, holds),
    ensures
        satisfies_all(env, one(s), holds),
{
    assert(satisfies_all(env, List::<TypedStatement<T>>::Nil, holds));
}

/// Two satisfied statements are a satisfied list.
pub proof fn lemma_satisfies_two<T: Field>(
    env: Environment,
    a: TypedStatement<T>,
    b: TypedStatement<T>,
    holds: bool,
)
    requires
        satisfies(env, a, holds),
        satisfies(env, b, holds),
    ensures
        satisfies_all(env, two(a, b), holds),
{
    lemma_satisfies_one(env, b, holds);
    assert(two(a, b) == List::spec_cons(a, one(b)));
}

/// The definition of a variable as the value that it has is satisfied.
pub proof fn lemma_definition_satisfied<T: Field>(
    env: Environment,
    v: crate::typed::Variable,
    k: TypedExpression<T>,
    holds: bool,
)
    requires
        env.contains_key(v.id.id),
        value_of(env, k) == Some(env[v.id.id]),
    ensures
        satisfies(env, definition(v, k), holds),
{
}

/// A statement that is emitted after the known value of the variable it
/// writes to stays satisfied.
pub proof fn lemma_flushed_sound<T: Field>(
    c: Known<T>,
    env: Environment,
    v: crate::typed::Variable,
    emitted: TypedStatement<T>,
    holds: bool,
)
    requires
        models(env, c),
        satisfies(env, emitted, holds),
    ensures
        satisfies_all(env, flushed(c, v, emitted).1, holds),
        models(env, flushed(c, v, emitted).0),
{
    if c.contains_key(v.id.id) {
        let k = c[v.id.id];
        lemma_definition_satisfied(env, v, k, holds);
        lemma_satisfies_two(env, definition(v, k), emitted, holds);
        lemma_models_remove(env, c, v.id.id);
    } else {
        lemma_satisfies_one(env, emitted, holds);
    }
}

/// What the pass makes of `a := e`, both simplified already, where it does
/// not fail.
pub proof fn lemma_definition_cases<T: Field>(c: Known<T>, a: TypedAssignee<T>, e: TypedExpression<T>)
    requires
        folded_definition(c, a, e) is Ok,
    ensures
        folded_definition(c, a, e)->Ok_0 == (if is_constant(e) {
            stored(c, a, canonical(e), TypedStatement::Definition(a, DefinitionRhs::Expression(e)))
        } else {
            flushed(c, root(a), TypedStatement::Definition(a, DefinitionRhs::Expression(e)))
        }),
{
}

/// A constant written to a variable is recorded.
pub proof fn lemma_stored_variable<T: Field>(
    c: Known<T>,
    v: crate::typed::Variable,
    k: TypedExpression<T>,
    emitted: TypedStatement<T>,
)
    ensures
        stored(c, TypedAssignee::Identifier(v), k, emitted) == (
            c.insert(v.id.id, k),
            List::<TypedStatement<T>>::Nil,
        ),
{
}

/// A definition of a variable by an expression stays satisfied.
pub proof fn lemma_definition_sound<T: Field>(
    c: Known<T>,
    env: Environment,
    v: crate::typed::Variable,
    e: TypedExpression<T>,
    holds: bool,
)
    requires
        models(env, c),
        env.contains_key(v.id.id),
        value_of(env, e) == Some(env[v.id.id]),
        folded_definition(c, TypedAssignee::Identifier(v), e) is Ok,
    ensures
        satisfies_all(
            env,
            folded_definition(c, TypedAssignee::Identifier(v), e)->Ok_0.1,
            holds,
        ),
        models(env, folded_definition(c, TypedAssignee::Identifier(v), e)->Ok_0.0),
{
    let a = TypedAssignee::<T>::Identifier(v);
    let emitted = TypedStatement::Definition(a, DefinitionRhs::Expression(e));
    lemma_definition_cases(c, a, e);
    if is_constant(e) {
        lemma_canonical_value(env, e);
        lemma_stored_variable(c, v, canonical(e), emitted);
        lemma_models_insert(env, c, v.id.id, canonical(e));
        assert(satisfies_all(env, List::<TypedStatement<T>>::Nil, holds));
    } else {
        assert(root(a) == v);
        lemma_definition_satisfied(env, v, e, holds);
        lemma_flushed_sound(c, env, v, emitted, holds);
    }
}

/// An assertion stays satisfied.
pub proof fn lemma_assertion_sound<T: Field>(
    c: Known<T>,
    env: Environment,
    e: BooleanExpression<T>,
    tag: crate::common::RuntimeError,
    holds: bool,
)
    requires
        boolean_value(env, e) == Some(holds),
        folded_assertion(c, e, tag) is Ok,
    ensures
        satisfies_all(env, folded_assertion(c, e, tag)->Ok_0.1, holds),
        folded_assertion(c, e, tag)->Ok_0.0 == c,
{
    match e {
        BooleanExpression::Value(v) => {
            assert(satisfies_all(env, List::<TypedStatement<T>>::Nil, holds));
        },
        _ => {
            let s = TypedStatement::Assertion(e, tag);
            assert(satisfies(env, s, holds));
            lemma_satisfies_one(env, s, holds);
        },
    }
}

/// What the pass makes of the definition of a variable by an expression.
pub proof fn lemma_statement_definition<T: Field>(
    c: Known<T>,
    v: crate::typed::Variable,
    e: TypedExpression<T>,
)
    ensures
        folded_statement(
            c,
            TypedStatement::Definition(TypedAssignee::Identifier(v), DefinitionRhs::Expression(e)),
        ) == (match folded_expression(c, e) {
            Ok(e2) => folded_definition(c, TypedAssignee::Identifier(v), e2),
            Err(x) => Err(x),
        }),
{
    let a = TypedAssignee::<T>::Identifier(v);
    assert(folded_assignee(c, a) == Ok::<TypedAssignee<T>, Error>(a));
}

/// What the pass makes of an assertion.
pub proof fn lemma_statement_assertion<T: Field>(
    c: Known<T>,
    e: BooleanExpression<T>,
    tag: crate::common::RuntimeError,
)
    ensures
        folded_statement(c, TypedStatement::Assertion(e, tag)) == (match folded_boolean(c, e) {
            Ok(e2) => folded_assertion(c, e2, tag),
            Err(x) => Err(x),
        }),
{
}

/// What the pass makes of a return statement.
pub proof fn lemma_statement_return<T: Field>(c: Known<T>, e: TypedExpression<T>)
    ensures
        folded_statement(c, TypedStatement::Return(e)) == (match folded_expression(c, e) {
            Ok(e2) => Ok((c, one(TypedStatement::Return(e2)))),
            Err(x) => Err(x),
        }),
{
}

/// What the pass makes of the statements that hold no expression of the
/// model: one statement, and what is known stays.
pub proof fn lemma_statement_other<T: Field>(c: Known<T>, s: TypedStatement<T>)
    requires
        s is Log || s is PushCallLog || s is PopCallLog,
        folded_statement(c, s) is Ok,
    ensures
        folded_statement(c, s)->Ok_0.0 == c,
        folded_statement(c, s)->Ok_0.1 is Cons,
        (folded_statement(c, s)->Ok_0.1)->Cons_0.tail is Nil,
        (folded_statement(c, s)->Ok_0.1)->Cons_0.head is Log || (folded_statement(
            c,
            s,
        )->Ok_0.1)->Cons_0.head is PushCallLog || (folded_statement(c, s)->Ok_0.1)->Cons_0.head
            is PopCallLog,
{
}

/// Soundness of the pass on a statement: an environment that gives the
/// known variables their known values and satisfies the statement satisfies
/// the statements that take its place, and gives the variables known
/// afterwards their known values.
pub proof fn lemma_statement_sound<T: Field>(
    c: Known<T>,
    env: Environment,
    s: TypedStatement<T>,
    holds: bool,
)
    requires
        models(env, c),
        regular_statement(s),
        satisfies(env, s, holds),
        folded_statement(c, s) is Ok,
    ensures
        satisfies_all(env, folded_statement(c, s)->Ok_0.1, holds),
        models(env, folded_statement(c, s)->Ok_0.0),
{
    match s {
        TypedStatement::Definition(TypedAssignee::Identifier(v), DefinitionRhs::Expression(e)) => {
            lemma_statement_definition(c, v, e);
            lemma_expression_sound(c, env, e);
            lemma_definition_sound(c, env, v, folded_expression(c, e)->Ok_0, holds);
        },
        TypedStatement::Assertion(e, tag) => {
            lemma_statement_assertion(c, e, tag);
            lemma_boolean_sound(c, env, e);
            lemma_assertion_sound(c, env, folded_boolean(c, e)->Ok_0, tag, holds);
        },
        TypedStatement::Return(e) => {
            lemma_statement_return(c, e);
            lemma_expression_sound(c, env, e);
            let r = TypedStatement::<T>::Return(folded_expression(c, e)->Ok_0);
            assert(satisfies(env, r, holds));
            lemma_satisfies_one(env, r, holds);
        },
        TypedStatement::Log(_, _) | TypedStatement::PushCallLog(_) | TypedStatement::PopCallLog => {
            lemma_statement_other(c, s);
            let out = folded_statement(c, s)->Ok_0.1;
            let r = out->Cons_0.head;
            assert(satisfies(env, r, holds));
            lemma_satisfies_one(env, r, holds);
            assert(out == one(r));
        },
        _ => {},
    }
}

/// Soundness of the pass on the statements of a function: an environment
/// that satisfies the statements satisfies what the pass makes of them.
pub proof fn lemma_statements_sound<T: Field>(
    c: Known<T>,
    env: Environment,
    l: List<TypedStatement<T>>,
    holds: bool,
)
    requires
        models(env, c),
        regular_statements(l),
        satisfies_all(env, l, holds),
        folded_statements(c, l) is Ok,
    ensures
        satisfies_all(env, folded_statements(c, l)->Ok_0.1, holds),
        models(env, folded_statements(c, l)->Ok_0.0),
    decreases l,
{
    match l {
        List::Nil => {},
        List::Cons(n) => {
            lemma_statement_sound(c, env, n.head, holds);
            let c1 = folded_statement(c, n.head)->Ok_0.0;
            let first = folded_statement(c, n.head)->Ok_0.1;
            lemma_statements_sound(c1, env, n.tail, holds);
            let rest = folded_statements(c1, n.tail)->Ok_0.1;
            lemma_satisfies_concat(env, first, rest, holds);
        },
    }
}

/// Whether the environment satisfies the statements of a declaration, if it
/// declares the entry point in place.
pub open spec fn satisfies_declaration<T: Field>(
    env: Environment,
    d: TypedFunctionSymbolDeclaration<T>,
    holds: bool,
) -> bool {
    match d.symbol {
        TypedFunctionSymbol::Here(f) => d.id == MAIN ==> satisfies_all(env, f.statements, holds),
        _ => true,
    }
}

pub open spec fn regular_declaration<T: Field>(d: TypedFunctionSymbolDeclaration<T>) -> bool {
    match d.symbol {
        TypedFunctionSymbol::Here(f) => d.id == MAIN ==> regular_statements(f.statements),
        _ => true,
    }
}

pub open spec fn satisfies_declarations<T: Field>(
    env: Environment,
    l: List<TypedFunctionSymbolDeclaration<T>>,
    holds: bool,
) -> bool
    decreases l,
{
    match l {
        List::Nil => true,
        List::Cons(n) => satisfies_declaration(env, n.head, holds) && satisfies_declarations(
            env,
            n.tail,
            holds,
        ),
    }
}

pub open spec fn regular_declarations<T: Field>(l: List<TypedFunctionSymbolDeclaration<T>>) -> bool
    decreases l,
{
    match l {
        List::Nil => true,
        List::Cons(n) => regular_declaration(n.head) && regular_declarations(n.tail),
    }
}

/// Whether the environment satisfies the entry point of the module `main`.
pub open spec fn satisfies_modules<T: Field>(
    env: Environment,
    l: List<TypedModuleEntry<T>>,
    main: u64,
    holds: bool,
) -> bool
    decreases l,
{
    match l {
        List::Nil => true,
        List::Cons(n) => (n.head.id == main ==> satisfies_declarations(
            env,
            n.head.module.symbols,
            holds,
        )) && satisfies_modules(env, n.tail, main, holds),
    }
}

pub open spec fn regular_modules<T: Field>(l: List<TypedModuleEntry<T>>, main: u64) -> bool
    decreases l,
{
    match l {
        List::Nil => true,
        List::Cons(n) => (n.head.id == main ==> regular_declarations(n.head.module.symbols))
            && regular_modules(n.tail, main),
    }
}

/// Whether the environment satisfies the entry point of the program.
pub open spec fn satisfies_program<T: Field>(env: Environment, p: TypedProgram<T>, holds: bool) -> bool {
    satisfies_modules(env, p.modules, p.main, holds)
}

/// Whether the expressions of the entry point are of the kind that
/// [`regular_expression`] describes.
pub open spec fn regular_program<T: Field>(p: TypedProgram<T>) -> bool {
    regular_modules(p.modules, p.main)
}

pub proof fn lemma_declaration_sound<T: Field>(
    c: Known<T>,
    env: Environment,
    d: TypedFunctionSymbolDeclaration<T>,
    holds: bool,
)
    requires
        models(env, c),
        regular_declaration(d),
        satisfies_declaration(env, d, holds),
        folded_declaration(c, d) is Ok,
    ensures
        satisfies_declaration(env, folded_declaration(c, d)->Ok_0.1, holds),
        models(env, folded_declaration(c, d)->Ok_0.0),
{
    match d.symbol {
        TypedFunctionSymbol::Here(f) => {
            if d.id == MAIN {
                assert(folded_function(c, f) is Ok);
                assert(folded_statements(c, f.statements) is Ok);
                lemma_statements_sound(c, env, f.statements, holds);
            }
        },
        _ => {},
    }
}

pub proof fn lemma_declarations_sound<T: Field>(
    c: Known<T>,
    env: Environment,
    l: List<TypedFunctionSymbolDeclaration<T>>,
    holds: bool,
)
    requires
        models(env, c),
        regular_declarations(l),
        satisfies_declarations(env, l, holds),
        folded_declarations(c, l) is Ok,
    ensures
        satisfies_declarations(env, folded_declarations(c, l)->Ok_0.1, holds),
        models(env, folded_declarations(c, l)->Ok_0.0),
    decreases l,
{
    match l {
        List::Nil => {},
        List::Cons(n) => {
            lemma_declaration_sound(c, env, n.head, holds);
            let c1 = folded_declaration(c, n.head)->Ok_0.0;
            lemma_declarations_sound(c1, env, n.tail, holds);
        },
    }
}

pub proof fn lemma_modules_sound<T: Field>(
    c: Known<T>,
    env: Environment,
    l: List<TypedModuleEntry<T>>,
    main: u64,
    holds: bool,
)
    requires
        models(env, c),
        regular_modules(l, main),
        satisfies_modules(env, l, main, holds),
        folded_modules(c, l, main) is Ok,
    ensures
        satisfies_modules(env, folded_modules(c, l, main)->Ok_0.1, main, holds),
        models(env, folded_modules(c, l, main)->Ok_0.0),
    decreases l,
{
    match l {
        List::Nil => {},
        List::Cons(n) => {
            if n.head.id == main {
                lemma_declarations_sound(c, env, n.head.module.symbols, holds);
                let c1 = folded_declarations(c, n.head.module.symbols)->Ok_0.0;
                lemma_modules_sound(c1, env, n.tail, main, holds);
            } else {
                lemma_modules_sound(c, env, n.tail, main, holds);
            }
        },
    }
}

/// Soundness of constant propagation: an environment that satisfies the
/// entry point of a program satisfies the entry point of the program that
/// the pass makes of it.
pub proof fn lemma_propagation_sound<T: Field>(env: Environment, p: TypedProgram<T>, holds: bool)
    requires
        regular_program(p),
        satisfies_program(env, p, holds),
        propagated(p) is Ok,
    ensures
        satisfies_program(env, propagated(p)->Ok_0, holds),
{
    let c = Map::<u64, TypedExpression<T>>::empty();
    assert(models(env, c));
    assert(folded_program(c, p) is Ok);
    assert(folded_modules(c, p.modules, p.main) is Ok);
    lemma_modules_sound(c, env, p.modules, p.main, holds);
}

} // verus!
