use std::collections::HashMap;
use zokrates_ir::bn128::Bn128Field;
use zokrates_ir::common::{RuntimeError, Solver, Span, Position, Variable, WithSpan};
use zokrates_ir::expressions::{
    AssertionStatement, BinaryExpression, DefinitionStatement, IdentifierExpression,
    UnaryExpression, ValueExpression,
};
use zokrates_ir::field::Field;
use zokrates_ir::flat::{FlatDirective, FlatExpression, FlatFunction, FlatStatement};
use zokrates_ir::operators::{OpAdd, OpNeg};

type E = FlatExpression<Bn128Field>;

fn n(v: u128) -> E {
    FlatExpression::number(Bn128Field::from_u128(v))
}

fn x(i: usize) -> E {
    FlatExpression::identifier(Variable::new(i))
}

#[test]
fn numbers_and_identifiers_are_linear() {
    assert!(n(3).is_linear());
    assert!(x(0).is_linear());
}

#[test]
fn sums_of_linear_expressions_are_linear() {
    assert!((x(0) + n(1)).is_linear());
    assert!((x(0) - x(1)).is_linear());
    assert!(((x(0) + x(1)) - (n(2) * x(2))).is_linear());
}

#[test]
fn products_are_linear_only_with_a_number() {
    assert!((n(2) * n(3)).is_linear());
    assert!((n(2) * x(0)).is_linear());
    assert!((x(0) * n(2)).is_linear());
    assert!(!(x(0) * x(1)).is_linear());
    assert!(!(n(2) * (x(0) + x(1))).is_linear());
    assert!(!((x(0) * x(1)) + n(1)).is_linear());
}

#[test]
fn operators_build_the_nodes() {
    assert_eq!(x(0) + n(1), FlatExpression::Add(BinaryExpression::new(x(0), n(1))));
    assert_eq!(x(0) - n(1), FlatExpression::Sub(BinaryExpression::new(x(0), n(1))));
    assert_eq!(x(0) * n(1), FlatExpression::Mult(BinaryExpression::new(x(0), n(1))));
}

#[test]
fn substitution_renames_known_variables_and_keeps_the_others() {
    let mut substitution = HashMap::new();
    substitution.insert(Variable::new(0).id, Variable::new(7));
    let e = (x(0) + x(1)) * n(2);
    assert_eq!(
        e.apply_substitution(&substitution),
        (x(7) + x(1)) * n(2)
    );
}

#[test]
fn substitution_keeps_linear_expressions_linear() {
    let mut substitution = HashMap::new();
    substitution.insert(Variable::new(0).id, Variable::new(7));
    substitution.insert(Variable::new(1).id, Variable::one());
    let e = (n(2) * x(0)) + (x(1) - n(5));
    assert!(e.is_linear());
    assert!(e.apply_substitution(&substitution).is_linear());
}

#[test]
fn substitution_keeps_spans_of_expressions() {
    let span = Some(Span {
        file: 3,
        from: Position { line: 1, col: 2 },
        to: Position { line: 1, col: 9 },
    });
    let e = (x(0) + n(1)).span(span);
    let substitution = HashMap::new();
    assert_eq!(e.apply_substitution(&substitution).get_span(), span);
}

#[test]
fn condition_is_an_assertion_on_the_difference() {
    let s: FlatStatement<Bn128Field> = FlatStatement::condition(x(0), n(1), RuntimeError::Equal);
    assert_eq!(s, FlatStatement::assertion(x(0) - n(1), RuntimeError::Equal));
    assert_eq!(
        s,
        FlatStatement::Condition(AssertionStatement::new(x(0) - n(1), RuntimeError::Equal))
    );
}

#[test]
fn statement_substitution_renames_assignee_and_expression() {
    let mut substitution = HashMap::new();
    substitution.insert(Variable::new(0).id, Variable::new(7));
    let s: FlatStatement<Bn128Field> = FlatStatement::definition(Variable::new(0), x(0) + x(1));
    assert_eq!(
        s.apply_substitution(&substitution),
        FlatStatement::Definition(DefinitionStatement::new(Variable::new(7), x(7) + x(1)))
    );
}

#[test]
fn directive_substitution_renames_inputs_and_outputs() {
    let mut substitution = HashMap::new();
    substitution.insert(Variable::new(0).id, Variable::new(7));
    substitution.insert(Variable::new(2).id, Variable::new(8));
    let d = FlatDirective::new(
        vec![Variable::new(2), Variable::new(3)],
        Solver::ConditionEq,
        vec![x(0) + x(1)],
    );
    match FlatStatement::Directive(d).apply_substitution(&substitution) {
        FlatStatement::Directive(d) => {
            assert_eq!(d.inputs, vec![x(7) + x(1)]);
            assert_eq!(d.outputs, vec![Variable::new(8), Variable::new(3)]);
            assert_eq!(d.solver, Solver::ConditionEq);
        }
        s => panic!("not a directive: {:?}", s),
    }
}

#[test]
fn statements_carry_spans() {
    let span = Some(Span {
        file: 1,
        from: Position { line: 4, col: 1 },
        to: Position { line: 4, col: 8 },
    });
    let d: FlatStatement<Bn128Field> =
        FlatStatement::Directive(FlatDirective::new(vec![Variable::new(2)], Solver::Xor, vec![x(0), x(1)]));
    assert_eq!(d.get_span(), None);
    assert_eq!(d.span(span).get_span(), span);
    let s: FlatStatement<Bn128Field> = FlatStatement::definition(Variable::new(0), n(1));
    assert_eq!(s.span(span).get_span(), span);
}

#[test]
fn solver_signatures() {
    assert_eq!(Solver::ConditionEq.get_signature(), (1, 2));
    assert_eq!(Solver::Bits(5).get_signature(), (1, 5));
    assert_eq!(Solver::Div.get_signature(), (2, 1));
    assert_eq!(Solver::EuclideanDiv.get_signature(), (2, 2));
    assert_eq!(Solver::ShaCh.get_signature(), (3, 1));
}

#[test]
fn distinguished_variables() {
    assert_eq!(Variable::one().id, 0);
    assert_eq!(Variable::public(0).id, -1);
    assert_eq!(Variable::public(2).id, -3);
    assert_eq!(Variable::new(0).id, 1);
    assert!(Variable::public(1).is_output());
    assert!(!Variable::one().is_output());
}

#[test]
fn collect_keeps_the_function() {
    let f: FlatFunction<Bn128Field> = FlatFunction::new(
        vec![],
        vec![FlatStatement::definition(Variable::new(0), n(1))],
        1,
    );
    let g = f.collect();
    assert_eq!(g.return_count, 1);
    assert_eq!(
        g.statements,
        vec![FlatStatement::definition(Variable::new(0), n(1))]
    );
}

#[test]
fn nodes_start_without_a_span() {
    let b: BinaryExpression<OpAdd, u8, u8, u8> = BinaryExpression::new(1, 2);
    assert_eq!(b.get_span(), None);
    assert_eq!((*b.left, *b.right), (1, 2));
    let u: UnaryExpression<OpNeg, u8, u8> = UnaryExpression::new(3);
    assert_eq!(u.get_span(), None);
    assert_eq!(*u.inner, 3);
    let v: ValueExpression<u8> = ValueExpression::new(4);
    assert_eq!((v.span, v.value), (None, 4));
    let i: IdentifierExpression<u8, u8> = IdentifierExpression::new(5);
    assert_eq!((i.span, i.id), (None, 5));
}
