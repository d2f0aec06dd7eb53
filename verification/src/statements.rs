//! What constant propagation makes of statements, functions and programs.
//!
//! A statement is rewritten to zero or more statements, and changes what is
//! known of the variables:
//! - a definition of a constant is recorded and not emitted;
//! - a definition of something else ends what was known of the variable it
//!   writes to, and the constant that was known is emitted before it, so that
//!   the statements that follow find it defined;
//! - an assertion of a literal is dropped or ends the pass with an error.

use crate::assignee::{assignee_type, folded_assignee, replaced, resolved, root};
use crate::constant::{canonical, expressions_are_constant, is_constant};
use crate::embed::evaluated;
use crate::error::{Error, TypeMismatch};
use crate::field::Field;
use crate::folding::{both, folded_boolean, folded_expression, folded_uint, Known};
use crate::list::List;
use crate::typed::{
    BooleanExpression, DefinitionRhs, EmbedCall, TypedAssignee, TypedExpression, TypedFunction,
    TypedFunctionSymbol, TypedFunctionSymbolDeclaration, TypedModule, TypedModuleEntry,
    TypedProgram, TypedStatement, Variable, MAIN,
};
use vstd::prelude::*;

verus! {

/// What is known after a statement, and the statements that take its place.
pub type Step<T> = (Known<T>, List<TypedStatement<T>>);

/// `first` alone.
pub open spec fn one<T>(first: TypedStatement<T>) -> List<TypedStatement<T>> {
    List::spec_cons(first, List::Nil)
}

/// `first` and then `second`.
pub open spec fn two<T>(first: TypedStatement<T>, second: TypedStatement<T>) -> List<
    TypedStatement<T>,
> {
    List::spec_cons(first, List::spec_cons(second, List::Nil))
}

/// The definition of the variable `v` as `value`.
pub open spec fn definition<T>(v: Variable, value: TypedExpression<T>) -> TypedStatement<T> {
    TypedStatement::Definition(TypedAssignee::Identifier(v), DefinitionRhs::Expression(value))
}

/// Emits `s`, which writes to the variable `v` something that is not known.
/// If `v` was known, it no longer is, and its last known value is defined
/// before `s`.
pub open spec fn flushed<T>(c: Known<T>, v: Variable, s: TypedStatement<T>) -> Step<T> {
    if c.contains_key(v.id.id) {
        (c.remove(v.id.id), two(definition(v, c[v.id.id]), s))
    } else {
        (c, one(s))
    }
}

/// Records that the place `a` holds the constant `value`. Where `a` is a
/// place inside a variable that is not known, or that cannot be followed to
/// the place, the definition `emitted` is emitted instead.
pub open spec fn stored<T>(
    c: Known<T>,
    a: TypedAssignee<T>,
    value: TypedExpression<T>,
    emitted: TypedStatement<T>,
) -> Step<T> {
    match a {
        TypedAssignee::Identifier(v) => (c.insert(v.id.id, value), List::Nil),
        _ => if resolved(c, a) is Some {
            (c.insert(root(a).id.id, replaced(c, a, value)), List::Nil)
        } else {
            flushed(c, root(a), emitted)
        },
    }
}

/// The error of assigning `e` to `a`, if the types of both are known in
/// full and differ.
pub open spec fn assignment_error<T>(a: TypedAssignee<T>, e: TypedExpression<T>) -> Option<Error> {
    match assignee_type(a) {
        Some(expected) => {
            let found = e.get_type();
            if expected.is_concrete() && found.is_concrete() && expected != found {
                Some(Error::Type(TypeMismatch::Assignment { expected, found }))
            } else {
                None
            }
        },
        None => None,
    }
}

/// The expressions of a list, each simplified.
pub open spec fn folded_expressions<T: Field>(c: Known<T>, l: List<TypedExpression<T>>) -> Result<
    List<TypedExpression<T>>,
    Error,
>
    decreases l,
{
    match l {
        List::Nil => Ok(List::Nil),
        List::Cons(n) => match both(folded_expression(c, n.head), folded_expressions(c, n.tail)) {
            Ok((head, tail)) => Ok(List::spec_cons(head, tail)),
            Err(e) => Err(e),
        },
    }
}

/// `a := e`, both simplified already.
pub open spec fn folded_definition<T: Field>(
    c: Known<T>,
    a: TypedAssignee<T>,
    e: TypedExpression<T>,
) -> Result<Step<T>, Error> {
    let emitted = TypedStatement::Definition(a, DefinitionRhs::Expression(e));
    match assignment_error(a, e) {
        Some(error) => Err(error),
        None => if is_constant(e) {
            Ok(stored(c, a, canonical(e), emitted))
        } else {
            Ok(flushed(c, root(a), emitted))
        },
    }
}

/// `a := call`, the place and the arguments simplified already.
pub open spec fn folded_call<T: Field>(c: Known<T>, a: TypedAssignee<T>, call: EmbedCall<T>) -> Result<
    Step<T>,
    Error,
> {
    let emitted = TypedStatement::Definition(a, DefinitionRhs::EmbedCall(call));
    if expressions_are_constant(call.arguments) {
        match evaluated(call) {
            Err(e) => Err(e),
            Ok(Some(value)) => Ok(
                stored(
                    c,
                    a,
                    value,
                    TypedStatement::Definition(a, DefinitionRhs::Expression(value)),
                ),
            ),
            Ok(None) => Ok(flushed(c, root(a), emitted)),
        }
    } else {
        Ok(flushed(c, root(a), emitted))
    }
}

/// An assertion, its condition simplified already: a condition that is the
/// literal `true` ends the pass, one that is the literal `false` is dropped.
pub open spec fn folded_assertion<T>(
    c: Known<T>,
    e: BooleanExpression<T>,
    tag: crate::common::RuntimeError,
) -> Result<Step<T>, Error> {
    match e {
        BooleanExpression::Value(v) => if v.value {
            Err(Error::AssertionFailed(tag))
        } else {
            Ok((c, List::Nil))
        },
        e => Ok((c, one(TypedStatement::Assertion(e, tag)))),
    }
}

pub open spec fn folded_statement<T: Field>(c: Known<T>, s: TypedStatement<T>) -> Result<
    Step<T>,
    Error,
> {
    match s {
        TypedStatement::Definition(a, DefinitionRhs::Expression(e)) => match both(
            folded_assignee(c, a),
            folded_expression(c, e),
        ) {
            Ok((a, e)) => folded_definition(c, a, e),
            Err(e) => Err(e),
        },
        TypedStatement::Definition(a, DefinitionRhs::EmbedCall(call)) => match both(
            folded_assignee(c, a),
            folded_expressions(c, call.arguments),
        ) {
            Ok((a, arguments)) => folded_call(
                c,
                a,
                EmbedCall { embed: call.embed, generics: call.generics, arguments },
            ),
            Err(e) => Err(e),
        },
        TypedStatement::Assertion(e, tag) => match folded_boolean(c, e) {
            Ok(e) => folded_assertion(c, e, tag),
            Err(e) => Err(e),
        },
        TypedStatement::For(v, from, to, body) => match both(
            folded_uint(c, from),
            folded_uint(c, to),
        ) {
            Ok((from, to)) => Ok((c, one(TypedStatement::For(v, from, to, body)))),
            Err(e) => Err(e),
        },
        TypedStatement::Return(e) => match folded_expression(c, e) {
            Ok(e) => Ok((c, one(TypedStatement::Return(e)))),
            Err(e) => Err(e),
        },
        TypedStatement::Log(format, l) => match folded_expressions(c, l) {
            Ok(l) => Ok((c, one(TypedStatement::Log(format, l)))),
            Err(e) => Err(e),
        },
        TypedStatement::PushCallLog(n) => Ok((c, one(TypedStatement::PushCallLog(n)))),
        TypedStatement::PopCallLog => Ok((c, one(TypedStatement::PopCallLog))),
    }
}

/// Whether `s` defines, as a constant, a variable that is known already.
/// The pass is meant for programs in which every variable is assigned once,
/// and is not defined on a statement that does this.
pub open spec fn rebinds<T: Field>(c: Known<T>, s: TypedStatement<T>) -> bool {
    match s {
        TypedStatement::Definition(TypedAssignee::Identifier(v), DefinitionRhs::Expression(e)) => {
            &&& c.contains_key(v.id.id)
            &&& folded_expression(c, e) matches Ok(x)
            &&& is_constant(x)
            &&& assignment_error(TypedAssignee::<T>::Identifier(v), x) is None
        },
        _ => false,
    }
}

pub open spec fn folded_statements<T: Field>(c: Known<T>, l: List<TypedStatement<T>>) -> Result<
    Step<T>,
    Error,
>
    decreases l,
{
    match l {
        List::Nil => Ok((c, List::Nil)),
        List::Cons(n) => match folded_statement(c, n.head) {
            Err(e) => Err(e),
            Ok((known, first)) => match folded_statements(known, n.tail) {
                Err(e) => Err(e),
                Ok((known, rest)) => Ok((known, first.spec_concat(rest))),
            },
        },
    }
}

/// Whether no statement of `l`, taken in order from what is known in `c`,
/// defines as a constant a variable that is known already.
pub open spec fn single_assignment<T: Field>(c: Known<T>, l: List<TypedStatement<T>>) -> bool
    decreases l,
{
    match l {
        List::Nil => true,
        List::Cons(n) => !rebinds(c, n.head) && match folded_statement(c, n.head) {
            Err(_) => true,
            Ok((known, _)) => single_assignment(known, n.tail),
        },
    }
}

pub open spec fn folded_function<T: Field>(c: Known<T>, f: TypedFunction<T>) -> Result<
    (Known<T>, TypedFunction<T>),
    Error,
> {
    match folded_statements(c, f.statements) {
        Ok((known, statements)) => Ok(
            (known, TypedFunction { arguments: f.arguments, statements, outputs: f.outputs }),
        ),
        Err(e) => Err(e),
    }
}

/// Only the entry point is rewritten, and only where it is defined in place.
pub open spec fn folded_declaration<T: Field>(
    c: Known<T>,
    d: TypedFunctionSymbolDeclaration<T>,
) -> Result<(Known<T>, TypedFunctionSymbolDeclaration<T>), Error> {
    match d.symbol {
        TypedFunctionSymbol::Here(f) => if d.id == MAIN {
            match folded_function(c, f) {
                Ok((known, f)) => Ok(
                    (
                        known,
                        TypedFunctionSymbolDeclaration {
                            id: d.id,
                            symbol: TypedFunctionSymbol::Here(f),
                        },
                    ),
                ),
                Err(e) => Err(e),
            }
        } else {
            Ok((c, d))
        },
        _ => Ok((c, d)),
    }
}

pub open spec fn declaration_single_assignment<T: Field>(
    c: Known<T>,
    d: TypedFunctionSymbolDeclaration<T>,
) -> bool {
    match d.symbol {
        TypedFunctionSymbol::Here(f) => d.id == MAIN ==> single_assignment(c, f.statements),
        _ => true,
    }
}

pub open spec fn folded_declarations<T: Field>(
    c: Known<T>,
    l: List<TypedFunctionSymbolDeclaration<T>>,
) -> Result<(Known<T>, List<TypedFunctionSymbolDeclaration<T>>), Error>
    decreases l,
{
    match l {
        List::Nil => Ok((c, List::Nil)),
        List::Cons(n) => match folded_declaration(c, n.head) {
            Err(e) => Err(e),
            Ok((known, head)) => match folded_declarations(known, n.tail) {
                Err(e) => Err(e),
                Ok((known, tail)) => Ok((known, List::spec_cons(head, tail))),
            },
        },
    }
}

pub open spec fn declarations_single_assignment<T: Field>(
    c: Known<T>,
    l: List<TypedFunctionSymbolDeclaration<T>>,
) -> bool
    decreases l,
{
    match l {
        List::Nil => true,
        List::Cons(n) => declaration_single_assignment(c, n.head) && match folded_declaration(
            c,
            n.head,
        ) {
            Err(_) => true,
            Ok((known, _)) => declarations_single_assignment(known, n.tail),
        },
    }
}

/// Only the module of the entry point is rewritten.
pub open spec fn folded_modules<T: Field>(c: Known<T>, l: List<TypedModuleEntry<T>>, main: u64) -> Result<
    (Known<T>, List<TypedModuleEntry<T>>),
    Error,
>
    decreases l,
{
    match l {
        List::Nil => Ok((c, List::Nil)),
        List::Cons(n) => {
            let head = if n.head.id == main {
                match folded_declarations(c, n.head.module.symbols) {
                    Ok((known, symbols)) => Ok(
                        (known, TypedModuleEntry { id: n.head.id, module: TypedModule { symbols } }),
                    ),
                    Err(e) => Err(e),
                }
            } else {
                Ok((c, n.head))
            };
            match head {
                Err(e) => Err(e),
                Ok((known, head)) => match folded_modules(known, n.tail, main) {
                    Err(e) => Err(e),
                    Ok((known, tail)) => Ok((known, List::spec_cons(head, tail))),
                },
            }
        },
    }
}

pub open spec fn modules_single_assignment<T: Field>(
    c: Known<T>,
    l: List<TypedModuleEntry<T>>,
    main: u64,
) -> bool
    decreases l,
{
    match l {
        List::Nil => true,
        List::Cons(n) => if n.head.id == main {
            declarations_single_assignment(c, n.head.module.symbols) && match folded_declarations(
                c,
                n.head.module.symbols,
            ) {
                Err(_) => true,
                Ok((known, _)) => modules_single_assignment(known, n.tail, main),
            }
        } else {
            modules_single_assignment(c, n.tail, main)
        },
    }
}

/// The program that the pass makes of `p`, starting from what `c` knows.
pub open spec fn folded_program<T: Field>(c: Known<T>, p: TypedProgram<T>) -> Result<
    (Known<T>, TypedProgram<T>),
    Error,
> {
    match folded_modules(c, p.modules, p.main) {
        Ok((known, modules)) => Ok((known, TypedProgram { modules, main: p.main })),
        Err(e) => Err(e),
    }
}

/// The program that the pass makes of `p`.
pub open spec fn propagated<T: Field>(p: TypedProgram<T>) -> Result<TypedProgram<T>, Error> {
    match folded_program(Map::empty(), p) {
        Ok((_, p)) => Ok(p),
        Err(e) => Err(e),
    }
}

/// Whether `p` assigns each variable once, as far as the pass depends on it.
pub open spec fn program_single_assignment<T: Field>(c: Known<T>, p: TypedProgram<T>) -> bool {
    modules_single_assignment(c, p.modules, p.main)
}

} // verus!
