use zokrates_ir::bn128::Bn128Field;
use zokrates_ir::common::{Solver, Variable};
use zokrates_ir::directive::DirectiveOptimizer;
use zokrates_ir::field::Field;
use zokrates_ir::flat::{FlatDirective, FlatExpression, FlatStatement};

type E = FlatExpression<Bn128Field>;
type S = FlatStatement<Bn128Field>;

fn v(i: usize) -> Variable {
    Variable::new(i)
}

fn x(i: usize) -> E {
    FlatExpression::identifier(v(i))
}

fn directive(output: usize, solver: Solver, inputs: Vec<E>) -> S {
    FlatStatement::Directive(FlatDirective::new(vec![v(output)], solver, inputs))
}

const A: usize = 0;
const B: usize = 1;
const C: usize = 2;
const D: usize = 3;

#[test]
fn repeated_directive_is_dropped_and_its_output_renamed() {
    // b := S(a, a); c := S(a, a); d := c + c
    let statements: Vec<S> = vec![
        directive(B, Solver::Xor, vec![x(A), x(A)]),
        directive(C, Solver::Xor, vec![x(A), x(A)]),
        FlatStatement::definition(v(D), x(C) + x(C)),
    ];
    let out = DirectiveOptimizer::optimize(statements);
    assert_eq!(
        out,
        vec![
            directive(B, Solver::Xor, vec![x(A), x(A)]),
            FlatStatement::definition(v(D), x(B) + x(B)),
        ]
    );
}

#[test]
fn directives_of_different_solvers_are_both_emitted() {
    // b := S(a, a); c := T(a, a)
    let statements = || -> Vec<S> {
        vec![
            directive(B, Solver::Xor, vec![x(A), x(A)]),
            directive(C, Solver::Or, vec![x(A), x(A)]),
        ]
    };
    assert_eq!(DirectiveOptimizer::optimize(statements()), statements());
}

#[test]
fn directives_on_different_inputs_are_both_emitted() {
    let statements = || -> Vec<S> {
        vec![
            directive(B, Solver::Xor, vec![x(A), x(A)]),
            directive(C, Solver::Xor, vec![x(A), x(D)]),
        ]
    };
    assert_eq!(DirectiveOptimizer::optimize(statements()), statements());
}

#[test]
fn renaming_makes_later_directives_repeat() {
    // b := S(a, a); c := S(a, a); d := T(c, c); e := T(b, b)
    let statements: Vec<S> = vec![
        directive(B, Solver::Xor, vec![x(A), x(A)]),
        directive(C, Solver::Xor, vec![x(A), x(A)]),
        directive(D, Solver::Or, vec![x(C), x(C)]),
        directive(4, Solver::Or, vec![x(B), x(B)]),
        FlatStatement::definition(v(5), x(4) + x(D)),
    ];
    let out = DirectiveOptimizer::optimize(statements);
    assert_eq!(
        out,
        vec![
            directive(B, Solver::Xor, vec![x(A), x(A)]),
            directive(D, Solver::Or, vec![x(B), x(B)]),
            FlatStatement::definition(v(5), x(D) + x(D)),
        ]
    );
}

#[test]
fn no_two_emitted_directives_share_a_call() {
    let statements: Vec<S> = vec![
        directive(B, Solver::Xor, vec![x(A), x(A)]),
        directive(C, Solver::Div, vec![x(A), x(B)]),
        directive(D, Solver::Xor, vec![x(A), x(A)]),
        directive(4, Solver::Div, vec![x(A), x(D)]),
        directive(5, Solver::Div, vec![x(A), x(B)]),
    ];
    let out = DirectiveOptimizer::optimize(statements);
    let keys: Vec<(Solver, Vec<E>)> = out
        .into_iter()
        .map(|s| match s {
            FlatStatement::Directive(d) => (d.solver, d.inputs),
            s => panic!("not a directive: {:?}", s),
        })
        .collect();
    assert_eq!(keys.len(), 2);
    for i in 0..keys.len() {
        for j in 0..i {
            assert_ne!(keys[i], keys[j]);
        }
    }
}

#[test]
fn fold_variable_follows_the_renaming() {
    let mut optimizer: DirectiveOptimizer<Bn128Field> = DirectiveOptimizer::new();
    assert_eq!(optimizer.fold_variable(v(C)), v(C));
    assert_eq!(
        optimizer.fold_statement(directive(B, Solver::Xor, vec![x(A), x(A)])),
        vec![directive(B, Solver::Xor, vec![x(A), x(A)])]
    );
    assert_eq!(
        optimizer.fold_statement(directive(C, Solver::Xor, vec![x(A), x(A)])),
        vec![]
    );
    assert_eq!(optimizer.fold_variable(v(C)), v(B));
    assert_eq!(optimizer.fold_variable(v(A)), v(A));
    let one = FlatExpression::number(Bn128Field::from_u128(1));
    assert_eq!(
        optimizer.fold_statement(FlatStatement::definition(v(D), x(C) * one.clone())),
        vec![FlatStatement::definition(v(D), x(B) * one)]
    );
}
