//! Idempotence of constant propagation: the pass rewrites its own output to
//! itself.
//!
//! It is proved for the programs whose entry point assigns to whole
//! variables of their declared types, and whose expressions are of the kind
//! that [`crate::regular::regular_expression`] describes.

use crate::error::Error;
use crate::field::Field;
use crate::folding::Known;
use crate::list::List;
use crate::repetition::{all_good, nothing};
use crate::second_pass::{
    folded_in_turn, lemma_folded_concat, typed, whole_statement, whole_statements, Declared,
};
use crate::statements::{
    folded_declaration, folded_declarations, folded_function, folded_modules, folded_program,
    folded_statement, folded_statements, propagated, Step,
};
use crate::steps::{lemma_step, repeats};
use crate::typed::{
    TypedFunction, TypedFunctionSymbol, TypedFunctionSymbolDeclaration, TypedModule,
    TypedModuleEntry, TypedProgram, TypedStatement, MAIN,
};
use vstd::prelude::*;

verus! {

/// The pass on a statement and the statements after it.
pub proof fn lemma_folded_cons<T: Field>(
    c: Known<T>,
    head: TypedStatement<T>,
    tail: List<TypedStatement<T>>,
)
    ensures
        folded_statements(c, List::spec_cons(head, tail)) == (match folded_statement(c, head) {
            Err(e) => Err(e),
            Ok((c1, first)) => match folded_statements(c1, tail) {
                Err(e) => Err(e),
                Ok((c2, rest)) => Ok((c2, first.spec_concat(rest))),
            },
        }),
{
}

/// Whether the known values are constants in canonical form of the types of
/// their variables.
#[verifier::opaque]
pub open spec fn ready<T: Field>(gamma: Declared, c: Known<T>) -> bool {
    all_good(c) && typed(gamma, c)
}

/// Whether the pass, knowing nothing, emits the statements again as they
/// are and knows nothing afterwards.
#[verifier::opaque]
pub open spec fn emitted_again<T: Field>(l: List<TypedStatement<T>>) -> bool {
    folded_statements(nothing::<T>(), l) == Ok::<Step<T>, Error>((nothing(), l))
}

/// A step of the first pass, in short.
pub proof fn lemma_ready_step<T: Field>(gamma: Declared, c: Known<T>, s: TypedStatement<T>)
    requires
        ready(gamma, c),
        whole_statement(gamma, s),
        folded_statement(c, s) is Ok,
    ensures
        ready(gamma, folded_statement(c, s)->Ok_0.0),
        emitted_again(folded_statement(c, s)->Ok_0.1),
{
    reveal(ready);
    reveal(emitted_again);
    lemma_step(gamma, c, s);
}

/// What is emitted again, followed by what is emitted again, is emitted
/// again.
pub proof fn lemma_again_in_turn<T: Field>(first: List<TypedStatement<T>>, rest: List<TypedStatement<T>>)
    requires
        emitted_again(first),
        emitted_again(rest),
    ensures
        emitted_again(first.spec_concat(rest)),
{
    reveal(emitted_again);
    lemma_folded_concat(nothing::<T>(), first, rest);
    assert(folded_in_turn(nothing::<T>(), first, rest) == Ok::<Step<T>, Error>(
        (nothing(), first.spec_concat(rest)),
    ));
}

/// Nothing is emitted again.
pub proof fn lemma_again_nothing<T: Field>()
    ensures
        emitted_again(List::<TypedStatement<T>>::Nil),
{
    reveal(emitted_again);
}

/// The head of a list of statements of the kind that the proof covers is
/// of that kind, and so is the tail.
pub proof fn lemma_whole_cons<T: Field>(
    gamma: Declared,
    head: TypedStatement<T>,
    tail: List<TypedStatement<T>>,
)
    requires
        whole_statements(gamma, List::spec_cons(head, tail)),
    ensures
        whole_statement(gamma, head),
        whole_statements(gamma, tail),
{
}

/// The statements of a function, in short.
pub proof fn lemma_ready_statements<T: Field>(
    gamma: Declared,
    c: Known<T>,
    l: List<TypedStatement<T>>,
)
    requires
        ready(gamma, c),
        whole_statements(gamma, l),
        folded_statements(c, l) is Ok,
    ensures
        ready(gamma, folded_statements(c, l)->Ok_0.0),
        emitted_again(folded_statements(c, l)->Ok_0.1),
    decreases l,
{
    match l {
        List::Nil => {
            lemma_again_nothing::<T>();
        },
        List::Cons(n) => {
            assert(l == List::spec_cons(n.head, n.tail));
            lemma_folded_cons(c, n.head, n.tail);
            lemma_whole_cons(gamma, n.head, n.tail);
            lemma_ready_step(gamma, c, n.head);
            let c1 = folded_statement(c, n.head)->Ok_0.0;
            let first = folded_statement(c, n.head)->Ok_0.1;
            lemma_ready_statements(gamma, c1, n.tail);
            let rest = folded_statements(c1, n.tail)->Ok_0.1;
            lemma_again_in_turn(first, rest);
        },
    }
}

/// The statements of a function leave behind what a step has to leave
/// behind.
pub proof fn lemma_statements_repeat<T: Field>(
    gamma: Declared,
    c: Known<T>,
    l: List<TypedStatement<T>>,
)
    requires
        all_good(c),
        typed(gamma, c),
        whole_statements(gamma, l),
        folded_statements(c, l) is Ok,
    ensures
        repeats(gamma, folded_statements(c, l)->Ok_0),
{
    reveal(ready);
    reveal(emitted_again);
    lemma_ready_statements(gamma, c, l);
}

/// Whether a declaration, if it declares the entry point in place, assigns
/// to whole variables of their declared types.
pub open spec fn whole_declaration<T: Field>(
    gamma: Declared,
    d: TypedFunctionSymbolDeclaration<T>,
) -> bool {
    match d.symbol {
        TypedFunctionSymbol::Here(f) => d.id == MAIN ==> whole_statements(gamma, f.statements),
        _ => true,
    }
}

pub open spec fn whole_declarations<T: Field>(
    gamma: Declared,
    l: List<TypedFunctionSymbolDeclaration<T>>,
) -> bool
    decreases l,
{
    match l {
        List::Nil => true,
        List::Cons(n) => whole_declaration(gamma, n.head) && whole_declarations(gamma, n.tail),
    }
}

pub open spec fn whole_modules<T: Field>(gamma: Declared, l: List<TypedModuleEntry<T>>, main: u64) -> bool
    decreases l,
{
    match l {
        List::Nil => true,
        List::Cons(n) => (n.head.id == main ==> whole_declarations(gamma, n.head.module.symbols))
            && whole_modules(gamma, n.tail, main),
    }
}

/// Whether the entry point of a program assigns to whole variables of their
/// declared types, and its expressions are regular.
pub open spec fn whole_program<T: Field>(gamma: Declared, p: TypedProgram<T>) -> bool {
    whole_modules(gamma, p.modules, p.main)
}

/// A declaration leaves behind known values that are good and typed, and a
/// declaration that the second pass leaves as it is.
pub proof fn lemma_declaration_repeat<T: Field>(
    gamma: Declared,
    c: Known<T>,
    d: TypedFunctionSymbolDeclaration<T>,
)
    requires
        all_good(c),
        typed(gamma, c),
        whole_declaration(gamma, d),
        folded_declaration(c, d) is Ok,
    ensures
        all_good(folded_declaration(c, d)->Ok_0.0),
        typed(gamma, folded_declaration(c, d)->Ok_0.0),
        folded_declaration(nothing::<T>(), folded_declaration(c, d)->Ok_0.1) == Ok::<
            (Known<T>, TypedFunctionSymbolDeclaration<T>),
            Error,
        >((nothing(), folded_declaration(c, d)->Ok_0.1)),
{
    match d.symbol {
        TypedFunctionSymbol::Here(f) => {
            if d.id == MAIN {
                assert(folded_function(c, f) is Ok);
                assert(folded_statements(c, f.statements) is Ok);
                lemma_statements_repeat(gamma, c, f.statements);
                let out = folded_statements(c, f.statements)->Ok_0.1;
                let g = TypedFunction { arguments: f.arguments, statements: out, outputs: f.outputs };
                assert(folded_function(c, f)->Ok_0.1 == g);
                assert(folded_function(nothing::<T>(), g) == Ok::<(Known<T>, TypedFunction<T>), Error>(
                    (nothing(), g),
                ));
            }
        },
        _ => {},
    }
}

pub proof fn lemma_declarations_repeat<T: Field>(
    gamma: Declared,
    c: Known<T>,
    l: List<TypedFunctionSymbolDeclaration<T>>,
)
    requires
        all_good(c),
        typed(gamma, c),
        whole_declarations(gamma, l),
        folded_declarations(c, l) is Ok,
    ensures
        all_good(folded_declarations(c, l)->Ok_0.0),
        typed(gamma, folded_declarations(c, l)->Ok_0.0),
        folded_declarations(nothing::<T>(), folded_declarations(c, l)->Ok_0.1) == Ok::<
            (Known<T>, List<TypedFunctionSymbolDeclaration<T>>),
            Error,
        >((nothing(), folded_declarations(c, l)->Ok_0.1)),
    decreases l,
{
    match l {
        List::Nil => {},
        List::Cons(n) => {
            assert(folded_declaration(c, n.head) is Ok);
            lemma_declaration_repeat(gamma, c, n.head);
            let c1 = folded_declaration(c, n.head)->Ok_0.0;
            let head = folded_declaration(c, n.head)->Ok_0.1;
            assert(folded_declarations(c1, n.tail) is Ok);
            lemma_declarations_repeat(gamma, c1, n.tail);
            let tail = folded_declarations(c1, n.tail)->Ok_0.1;
            assert(folded_declarations(c, l)->Ok_0.1 == List::spec_cons(head, tail));
        },
    }
}

/// The pass on the module of the entry point and the modules after it.
pub proof fn lemma_folded_main_module<T: Field>(
    c: Known<T>,
    head: TypedModuleEntry<T>,
    tail: List<TypedModuleEntry<T>>,
    main: u64,
)
    requires
        head.id == main,
    ensures
        folded_modules(c, List::spec_cons(head, tail), main) == (match folded_declarations(
            c,
            head.module.symbols,
        ) {
            Err(e) => Err(e),
            Ok((c1, symbols)) => match folded_modules(c1, tail, main) {
                Err(e) => Err(e),
                Ok((c2, rest)) => Ok(
                    (
                        c2,
                        List::spec_cons(
                            TypedModuleEntry { id: head.id, module: TypedModule { symbols } },
                            rest,
                        ),
                    ),
                ),
            },
        }),
{
}

/// The pass on another module and the modules after it.
pub proof fn lemma_folded_other_module<T: Field>(
    c: Known<T>,
    head: TypedModuleEntry<T>,
    tail: List<TypedModuleEntry<T>>,
    main: u64,
)
    requires
        head.id != main,
    ensures
        folded_modules(c, List::spec_cons(head, tail), main) == (match folded_modules(
            c,
            tail,
            main,
        ) {
            Err(e) => Err(e),
            Ok((c2, rest)) => Ok((c2, List::spec_cons(head, rest))),
        }),
{
}

pub proof fn lemma_modules_repeat<T: Field>(
    gamma: Declared,
    c: Known<T>,
    l: List<TypedModuleEntry<T>>,
    main: u64,
)
    requires
        all_good(c),
        typed(gamma, c),
        whole_modules(gamma, l, main),
        folded_modules(c, l, main) is Ok,
    ensures
        folded_modules(nothing::<T>(), folded_modules(c, l, main)->Ok_0.1, main) == Ok::<
            (Known<T>, List<TypedModuleEntry<T>>),
            Error,
        >((nothing(), folded_modules(c, l, main)->Ok_0.1)),
    decreases l,
{
    let none = nothing::<T>();
    match l {
        List::Nil => {},
        List::Cons(n) => {
            assert(l == List::spec_cons(n.head, n.tail));
            if n.head.id == main {
                lemma_folded_main_module(c, n.head, n.tail, main);
                lemma_declarations_repeat(gamma, c, n.head.module.symbols);
                let c1 = folded_declarations(c, n.head.module.symbols)->Ok_0.0;
                let symbols = folded_declarations(c, n.head.module.symbols)->Ok_0.1;
                let head = TypedModuleEntry { id: n.head.id, module: TypedModule { symbols } };
                lemma_modules_repeat(gamma, c1, n.tail, main);
                let tail = folded_modules(c1, n.tail, main)->Ok_0.1;
                lemma_folded_main_module(none, head, tail, main);
            } else {
                lemma_folded_other_module(c, n.head, n.tail, main);
                lemma_modules_repeat(gamma, c, n.tail, main);
                let tail = folded_modules(c, n.tail, main)->Ok_0.1;
                lemma_folded_other_module(none, n.head, tail, main);
            }
        },
    }
}

/// Idempotence of constant propagation: where the pass rewrites a program to
/// a second program, it rewrites the second program to itself. It is stated
/// for the programs whose entry point assigns to whole variables of their
/// declared types `gamma`, and whose expressions are regular.
pub proof fn lemma_propagation_idempotent<T: Field>(gamma: Declared, p: TypedProgram<T>)
    requires
        whole_program(gamma, p),
        propagated(p) is Ok,
    ensures
        propagated(propagated(p)->Ok_0) == propagated(p),
{
    let none = nothing::<T>();
    assert(all_good(none));
    assert(typed(gamma, none));
    assert(folded_program(none, p) is Ok);
    assert(folded_modules(none, p.modules, p.main) is Ok);
    lemma_modules_repeat(gamma, none, p.modules, p.main);
    let modules = folded_modules(none, p.modules, p.main)->Ok_0.1;
    let q = TypedProgram { modules, main: p.main };
    assert(propagated(p) == Ok::<TypedProgram<T>, Error>(q));
    assert(folded_program(none, q) == Ok::<(Known<T>, TypedProgram<T>), Error>((none, q)));
}

} // verus!
