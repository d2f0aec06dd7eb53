use std::collections::HashMap;
use zokrates_ir::bn128::Bn128Field;
use zokrates_ir::error::Error;
use zokrates_ir::expressions::{BinaryExpression, UnaryExpression};
use zokrates_ir::field::Field;
use zokrates_ir::list::List;
use zokrates_ir::propagation::Propagator;
use zokrates_ir::typed::{
    ArrayExpression, ArrayExpressionInner, BooleanExpression, ConditionalExpression,
    ConditionalKind, FieldElementExpression, Identifier, SelectExpression, TypedExpression,
    TypedExpressionOrSpread, TypedSpread, UExpression, UExpressionInner,
};
use zokrates_ir::types::{Type, UBitwidth};

type F = FieldElementExpression<Bn128Field>;
type B = BooleanExpression<Bn128Field>;

fn propagator() -> Propagator<Bn128Field> {
    Propagator::with_constants(HashMap::new())
}

fn num(n: u128) -> F {
    FieldElementExpression::from_value(Bn128Field::from_u128(n))
}

fn a_id() -> Identifier {
    Identifier { id: 1 }
}

fn b_id() -> Identifier {
    Identifier { id: 2 }
}

fn field_array(values: Vec<u128>) -> ArrayExpression<Bn128Field> {
    let size = values.len() as u32;
    let elements: Vec<TypedExpressionOrSpread<Bn128Field>> = values
        .into_iter()
        .map(|v| TypedExpressionOrSpread::Expression(TypedExpression::FieldElement(num(v))))
        .collect();
    ArrayExpression::from_value(List::from_vec(elements)).annotate(Type::FieldElement, size)
}

fn array_identifier(id: Identifier) -> ArrayExpression<Bn128Field> {
    ArrayExpression::identifier(id).annotate(Type::FieldElement, 1)
}

#[test]
fn add() {
    let e = FieldElementExpression::Add(BinaryExpression::new(num(2), num(3)));
    assert_eq!(propagator().fold_field_expression(e), Ok(num(5)));
}

#[test]
fn sub() {
    let e = FieldElementExpression::Sub(BinaryExpression::new(num(3), num(2)));
    assert_eq!(propagator().fold_field_expression(e), Ok(num(1)));
}

#[test]
fn mult() {
    let e = FieldElementExpression::Mult(BinaryExpression::new(num(3), num(2)));
    assert_eq!(propagator().fold_field_expression(e), Ok(num(6)));
}

#[test]
fn div() {
    let e = FieldElementExpression::Div(BinaryExpression::new(num(6), num(2)));
    assert_eq!(propagator().fold_field_expression(e), Ok(num(3)));
}

#[test]
fn pow() {
    let e = FieldElementExpression::Pow(BinaryExpression::new(num(2), UExpression::from_u32(3)));
    assert_eq!(propagator().fold_field_expression(e), Ok(num(8)));
}

#[test]
fn if_else_true() {
    let e = FieldElementExpression::Conditional(ConditionalExpression::new(
        BooleanExpression::from_value(true),
        num(2),
        num(3),
        ConditionalKind::IfElse,
    ));
    assert_eq!(propagator().fold_field_expression(e), Ok(num(2)));
}

#[test]
fn if_else_false() {
    let e = FieldElementExpression::Conditional(ConditionalExpression::new(
        BooleanExpression::from_value(false),
        num(2),
        num(3),
        ConditionalKind::IfElse,
    ));
    assert_eq!(propagator().fold_field_expression(e), Ok(num(3)));
}

#[test]
fn select() {
    let e = FieldElementExpression::Select(SelectExpression::new(
        field_array(vec![1, 2, 3]),
        UExpressionInner::Add(BinaryExpression::new(
            UExpression::from_u32(1),
            UExpression::from_u32(1),
        ))
        .annotate(UBitwidth::B32),
    ));
    assert_eq!(propagator().fold_field_expression(e), Ok(num(3)));
}

#[test]
fn not() {
    let e_true: B = BooleanExpression::Not(UnaryExpression::new(BooleanExpression::from_value(false)));
    let e_false: B = BooleanExpression::Not(UnaryExpression::new(BooleanExpression::from_value(true)));
    let e_default: B =
        BooleanExpression::Not(UnaryExpression::new(BooleanExpression::identifier(a_id())));

    assert_eq!(
        propagator().fold_boolean_expression(e_true),
        Ok(BooleanExpression::from_value(true))
    );
    assert_eq!(
        propagator().fold_boolean_expression(e_false),
        Ok(BooleanExpression::from_value(false))
    );
    assert_eq!(
        propagator().fold_boolean_expression(e_default.clone()),
        Ok(e_default)
    );
}

#[test]
fn field_eq() {
    let e_constant_true: B = BooleanExpression::FieldEq(BinaryExpression::new(num(2), num(2)));
    let e_constant_false: B = BooleanExpression::FieldEq(BinaryExpression::new(num(4), num(2)));
    let e_identifier_true: B = BooleanExpression::FieldEq(BinaryExpression::new(
        FieldElementExpression::identifier(a_id()),
        FieldElementExpression::identifier(a_id()),
    ));
    let e_identifier_unchanged: B = BooleanExpression::FieldEq(BinaryExpression::new(
        FieldElementExpression::identifier(a_id()),
        FieldElementExpression::identifier(b_id()),
    ));

    assert_eq!(
        propagator().fold_boolean_expression(e_constant_true),
        Ok(BooleanExpression::from_value(true))
    );
    assert_eq!(
        propagator().fold_boolean_expression(e_constant_false),
        Ok(BooleanExpression::from_value(false))
    );
    assert_eq!(
        propagator().fold_boolean_expression(e_identifier_true),
        Ok(BooleanExpression::from_value(true))
    );
    assert_eq!(
        propagator().fold_boolean_expression(e_identifier_unchanged.clone()),
        Ok(e_identifier_unchanged)
    );
}

fn bool_eq_of(left: bool, right: bool) -> B {
    BooleanExpression::BoolEq(BinaryExpression::new(
        BooleanExpression::from_value(left),
        BooleanExpression::from_value(right),
    ))
}

#[test]
fn bool_eq() {
    assert_eq!(
        propagator().fold_boolean_expression(bool_eq_of(false, false)),
        Ok(BooleanExpression::from_value(true))
    );
    assert_eq!(
        propagator().fold_boolean_expression(bool_eq_of(true, true)),
        Ok(BooleanExpression::from_value(true))
    );
    assert_eq!(
        propagator().fold_boolean_expression(bool_eq_of(true, false)),
        Ok(BooleanExpression::from_value(false))
    );
    assert_eq!(
        propagator().fold_boolean_expression(bool_eq_of(false, true)),
        Ok(BooleanExpression::from_value(false))
    );
}

fn spread_of(values: Vec<u128>) -> ArrayExpression<Bn128Field> {
    let elements = vec![TypedExpressionOrSpread::Spread(TypedSpread {
        array: field_array(values),
    })];
    ArrayExpression::from_value(List::from_vec(elements)).annotate(Type::FieldElement, 1)
}

#[test]
fn array_eq() {
    let e_constant_true: B = BooleanExpression::ArrayEq(BinaryExpression::new(
        field_array(vec![2]),
        field_array(vec![2]),
    ));
    let e_constant_false: B = BooleanExpression::ArrayEq(BinaryExpression::new(
        field_array(vec![2]),
        field_array(vec![4]),
    ));
    let e_identifier_true: B = BooleanExpression::ArrayEq(BinaryExpression::new(
        array_identifier(a_id()),
        array_identifier(a_id()),
    ));
    let e_identifier_unchanged: B = BooleanExpression::ArrayEq(BinaryExpression::new(
        array_identifier(a_id()),
        array_identifier(b_id()),
    ));
    let e_non_canonical_true: B = BooleanExpression::ArrayEq(BinaryExpression::new(
        spread_of(vec![2]),
        field_array(vec![2]),
    ));
    let e_non_canonical_false: B = BooleanExpression::ArrayEq(BinaryExpression::new(
        spread_of(vec![2]),
        field_array(vec![4]),
    ));

    assert_eq!(
        propagator().fold_boolean_expression(e_constant_true),
        Ok(BooleanExpression::from_value(true))
    );
    assert_eq!(
        propagator().fold_boolean_expression(e_constant_false),
        Ok(BooleanExpression::from_value(false))
    );
    assert_eq!(
        propagator().fold_boolean_expression(e_identifier_true),
        Ok(BooleanExpression::from_value(true))
    );
    assert_eq!(
        propagator().fold_boolean_expression(e_identifier_unchanged.clone()),
        Ok(e_identifier_unchanged)
    );
    assert_eq!(
        propagator().fold_boolean_expression(e_non_canonical_true),
        Ok(BooleanExpression::from_value(true))
    );
    assert_eq!(
        propagator().fold_boolean_expression(e_non_canonical_false),
        Ok(BooleanExpression::from_value(false))
    );
}

#[test]
fn lt() {
    let e_true: B = BooleanExpression::FieldLt(BinaryExpression::new(num(2), num(4)));
    let e_false: B = BooleanExpression::FieldLt(BinaryExpression::new(num(4), num(2)));

    assert_eq!(
        propagator().fold_boolean_expression(e_true),
        Ok(BooleanExpression::from_value(true))
    );
    assert_eq!(
        propagator().fold_boolean_expression(e_false),
        Ok(BooleanExpression::from_value(false))
    );
}

#[test]
fn le() {
    let e_true: B = BooleanExpression::FieldLe(BinaryExpression::new(num(2), num(2)));
    let e_false: B = BooleanExpression::FieldLe(BinaryExpression::new(num(4), num(2)));

    assert_eq!(
        propagator().fold_boolean_expression(e_true),
        Ok(BooleanExpression::from_value(true))
    );
    assert_eq!(
        propagator().fold_boolean_expression(e_false),
        Ok(BooleanExpression::from_value(false))
    );
}

#[test]
fn gt() {
    let e_true: B = BooleanExpression::field_gt(num(5), num(4));
    let e_false: B = BooleanExpression::field_gt(num(4), num(5));

    assert_eq!(
        propagator().fold_boolean_expression(e_true),
        Ok(BooleanExpression::from_value(true))
    );
    assert_eq!(
        propagator().fold_boolean_expression(e_false),
        Ok(BooleanExpression::from_value(false))
    );
}

#[test]
fn ge() {
    let e_true: B = BooleanExpression::field_ge(num(5), num(5));
    let e_false: B = BooleanExpression::field_ge(num(4), num(5));

    assert_eq!(
        propagator().fold_boolean_expression(e_true),
        Ok(BooleanExpression::from_value(true))
    );
    assert_eq!(
        propagator().fold_boolean_expression(e_false),
        Ok(BooleanExpression::from_value(false))
    );
}

fn and_of(left: B, right: B) -> B {
    BooleanExpression::And(BinaryExpression::new(left, right))
}

fn or_of(left: B, right: B) -> B {
    BooleanExpression::Or(BinaryExpression::new(left, right))
}

fn t() -> B {
    BooleanExpression::from_value(true)
}

fn f() -> B {
    BooleanExpression::from_value(false)
}

fn a_bool() -> B {
    BooleanExpression::identifier(a_id())
}

#[test]
fn and() {
    assert_eq!(
        propagator().fold_boolean_expression(and_of(t(), a_bool())),
        Ok(a_bool())
    );
    assert_eq!(
        propagator().fold_boolean_expression(and_of(a_bool(), t())),
        Ok(a_bool())
    );
    assert_eq!(
        propagator().fold_boolean_expression(and_of(f(), a_bool())),
        Ok(f())
    );
    assert_eq!(
        propagator().fold_boolean_expression(and_of(a_bool(), f())),
        Ok(f())
    );
    assert_eq!(
        propagator().fold_boolean_expression(and_of(t(), f())),
        Ok(f())
    );
    assert_eq!(
        propagator().fold_boolean_expression(and_of(f(), t())),
        Ok(f())
    );
    assert_eq!(
        propagator().fold_boolean_expression(and_of(t(), t())),
        Ok(t())
    );
    assert_eq!(
        propagator().fold_boolean_expression(and_of(f(), f())),
        Ok(f())
    );
}

#[test]
fn or() {
    assert_eq!(
        propagator().fold_boolean_expression(or_of(t(), a_bool())),
        Ok(t())
    );
    assert_eq!(
        propagator().fold_boolean_expression(or_of(a_bool(), t())),
        Ok(t())
    );
    assert_eq!(
        propagator().fold_boolean_expression(or_of(f(), a_bool())),
        Ok(a_bool())
    );
    assert_eq!(
        propagator().fold_boolean_expression(or_of(a_bool(), f())),
        Ok(a_bool())
    );
    assert_eq!(
        propagator().fold_boolean_expression(or_of(t(), f())),
        Ok(t())
    );
    assert_eq!(
        propagator().fold_boolean_expression(or_of(f(), t())),
        Ok(t())
    );
    assert_eq!(
        propagator().fold_boolean_expression(or_of(t(), t())),
        Ok(t())
    );
    assert_eq!(
        propagator().fold_boolean_expression(or_of(f(), f())),
        Ok(f())
    );
}

#[test]
fn select_out_of_bounds_is_an_error() {
    let e = FieldElementExpression::Select(SelectExpression::new(
        field_array(vec![1, 2, 3]),
        UExpression::from_u32(4),
    ));
    assert_eq!(
        propagator().fold_field_expression(e),
        Err(Error::OutOfBounds(4, 3))
    );
}

#[test]
fn pow_with_unknown_exponent_is_an_error() {
    let e = FieldElementExpression::Pow(BinaryExpression::new(
        num(2),
        UExpression::identifier(a_id()).annotate(UBitwidth::B32),
    ));
    assert_eq!(
        propagator().fold_field_expression(e),
        Err(Error::NonConstantExponent)
    );
}

#[test]
fn pow_with_exponent_zero_is_one() {
    let e = FieldElementExpression::Pow(BinaryExpression::new(
        FieldElementExpression::identifier(a_id()),
        UExpression::from_u32(0),
    ));
    assert_eq!(propagator().fold_field_expression(e), Ok(num(1)));
}

#[test]
fn conditional_with_equal_branches_needs_no_condition() {
    let x = || FieldElementExpression::<Bn128Field>::identifier(b_id());
    let e = FieldElementExpression::Conditional(ConditionalExpression::new(
        a_bool(),
        x(),
        x(),
        ConditionalKind::IfElse,
    ));
    assert_eq!(propagator().fold_field_expression(e), Ok(x()));
}

#[test]
fn known_identifier_is_replaced() {
    let mut constants = HashMap::new();
    constants.insert(1, TypedExpression::FieldElement(num(5)));
    let e: F = FieldElementExpression::Mult(BinaryExpression::new(
        FieldElementExpression::identifier(a_id()),
        FieldElementExpression::identifier(b_id()),
    ));
    assert_eq!(
        Propagator::with_constants(constants).fold_field_expression(e),
        Ok(FieldElementExpression::Mult(BinaryExpression::new(
            num(5),
            FieldElementExpression::identifier(b_id())
        )))
    );
}

#[test]
fn field_division_by_zero_is_left_alone() {
    let e: F = FieldElementExpression::Div(BinaryExpression::new(num(6), num(0)));
    assert_eq!(
        propagator().fold_field_expression(e),
        Ok(FieldElementExpression::Div(BinaryExpression::new(
            num(6),
            num(0)
        )))
    );
}

#[test]
fn field_negation_wraps_around_the_modulus() {
    let e: F = FieldElementExpression::Neg(UnaryExpression::new(num(1)));
    let expected = Bn128Field::from_u128(0).sub(&Bn128Field::from_u128(1));
    assert_eq!(
        propagator().fold_field_expression(e),
        Ok(FieldElementExpression::from_value(expected))
    );
    // p - 1 + 1 == 0
    assert_eq!(
        expected.add(&Bn128Field::from_u128(1)),
        Bn128Field::from_u128(0)
    );
}

/// The value of a field expression without variables, computed the long way.
fn evaluate(e: &F) -> Bn128Field {
    match e {
        FieldElementExpression::Number(n) => n.value,
        FieldElementExpression::Add(b) => evaluate(&b.left).add(&evaluate(&b.right)),
        FieldElementExpression::Sub(b) => evaluate(&b.left).sub(&evaluate(&b.right)),
        FieldElementExpression::Mult(b) => evaluate(&b.left).mul(&evaluate(&b.right)),
        FieldElementExpression::Div(b) => evaluate(&b.left).div(&evaluate(&b.right)),
        FieldElementExpression::Neg(u) => Bn128Field::from_u128(0).sub(&evaluate(&u.inner)),
        FieldElementExpression::Pos(u) => evaluate(&u.inner),
        e => panic!("no value: {:?}", e),
    }
}

#[test]
fn folding_keeps_the_value_of_an_expression() {
    // ((7 - 9) * 3 + 10 / 4) - -(1)
    let e = || -> F {
        FieldElementExpression::Sub(BinaryExpression::new(
            FieldElementExpression::Add(BinaryExpression::new(
                FieldElementExpression::Mult(BinaryExpression::new(
                    FieldElementExpression::Sub(BinaryExpression::new(num(7), num(9))),
                    num(3),
                )),
                FieldElementExpression::Div(BinaryExpression::new(num(10), num(4))),
            )),
            FieldElementExpression::Neg(UnaryExpression::new(num(1))),
        ))
    };
    let folded = propagator().fold_field_expression(e()).unwrap();
    assert_eq!(folded, FieldElementExpression::from_value(evaluate(&e())));
    // 4 * (value + 5) == 10
    assert_eq!(
        evaluate(&folded)
            .add(&Bn128Field::from_u128(5))
            .mul(&Bn128Field::from_u128(4)),
        Bn128Field::from_u128(10)
    );
}
