use std::collections::HashMap;
use zokrates_ir::bn128::Bn128Field;
use zokrates_ir::expressions::{BinaryExpression, UnaryExpression, ValueExpression};
use zokrates_ir::list::List;
use zokrates_ir::propagation::Propagator;
use zokrates_ir::typed::{
    ArrayExpression, BooleanExpression, Identifier, SelectExpression, TypedExpression,
    TypedExpressionOrSpread, UExpression, UExpressionInner,
};
use zokrates_ir::types::{Type, UBitwidth};

type U = UExpression<Bn128Field>;
type I = UExpressionInner<Bn128Field>;

fn lit(bw: UBitwidth, v: u128) -> U {
    UExpression::from_value(v).annotate(bw)
}

fn x(bw: UBitwidth) -> U {
    UExpression::identifier(Identifier { id: 7 }).annotate(bw)
}

fn y(bw: UBitwidth) -> U {
    UExpression::identifier(Identifier { id: 8 }).annotate(bw)
}

fn fold(e: U) -> U {
    Propagator::<Bn128Field>::with_constants(HashMap::new())
        .fold_uint_expression(e)
        .unwrap()
}

fn node(bw: UBitwidth, inner: I) -> U {
    inner.annotate(bw)
}

const B8: UBitwidth = UBitwidth::B8;
const B32: UBitwidth = UBitwidth::B32;
const B64: UBitwidth = UBitwidth::B64;

#[test]
fn uint_addition_wraps_at_the_width() {
    let e = node(B8, UExpressionInner::Add(BinaryExpression::new(lit(B8, 200), lit(B8, 100))));
    assert_eq!(fold(e), lit(B8, 44));
    let e = node(
        B64,
        UExpressionInner::Add(BinaryExpression::new(lit(B64, u64::MAX as u128), lit(B64, 2))),
    );
    assert_eq!(fold(e), lit(B64, 1));
}

#[test]
fn uint_addition_of_zero_is_dropped_and_literals_move_right() {
    let e = node(B8, UExpressionInner::Add(BinaryExpression::new(x(B8), lit(B8, 0))));
    assert_eq!(fold(e), x(B8));
    let e = node(B8, UExpressionInner::Add(BinaryExpression::new(lit(B8, 0), x(B8))));
    assert_eq!(fold(e), x(B8));
    let e = node(B8, UExpressionInner::Add(BinaryExpression::new(lit(B8, 3), x(B8))));
    assert_eq!(
        fold(e),
        node(B8, UExpressionInner::Add(BinaryExpression::new(x(B8), lit(B8, 3))))
    );
}

#[test]
fn uint_subtraction_wraps_below_zero() {
    let e = node(B8, UExpressionInner::Sub(BinaryExpression::new(lit(B8, 3), lit(B8, 5))));
    assert_eq!(fold(e), lit(B8, 254));
    let e = node(B32, UExpressionInner::Sub(BinaryExpression::new(lit(B32, 0), lit(B32, 1))));
    assert_eq!(fold(e), lit(B32, 0xffff_ffff));
    let e = node(B8, UExpressionInner::Sub(BinaryExpression::new(x(B8), lit(B8, 0))));
    assert_eq!(fold(e), x(B8));
}

#[test]
fn uint_floor_subtraction_stops_at_zero() {
    let e = node(
        B8,
        UExpressionInner::FloorSub(BinaryExpression::new(lit(B8, 3), lit(B8, 5))),
    );
    assert_eq!(fold(e), lit(B8, 0));
    let e = node(
        B8,
        UExpressionInner::FloorSub(BinaryExpression::new(lit(B8, 5), lit(B8, 3))),
    );
    assert_eq!(fold(e), lit(B8, 2));
    let unknown = || node(B8, UExpressionInner::FloorSub(BinaryExpression::new(x(B8), y(B8))));
    assert_eq!(fold(unknown()), unknown());
}

#[test]
fn uint_multiplication_wraps_and_knows_zero_and_one() {
    let e = node(B8, UExpressionInner::Mult(BinaryExpression::new(lit(B8, 16), lit(B8, 17))));
    assert_eq!(fold(e), lit(B8, 16));
    let e = node(B8, UExpressionInner::Mult(BinaryExpression::new(x(B8), lit(B8, 0))));
    assert_eq!(fold(e).inner, UExpressionInner::Value(ValueExpression::new(0)));
    let e = node(B8, UExpressionInner::Mult(BinaryExpression::new(lit(B8, 1), x(B8))));
    assert_eq!(fold(e), x(B8));
    let e = node(
        B64,
        UExpressionInner::Mult(BinaryExpression::new(
            lit(B64, u64::MAX as u128),
            lit(B64, u64::MAX as u128),
        )),
    );
    assert_eq!(fold(e), lit(B64, 1));
}

#[test]
fn uint_division_and_remainder() {
    let e = node(B8, UExpressionInner::Div(BinaryExpression::new(lit(B8, 17), lit(B8, 5))));
    assert_eq!(fold(e), lit(B8, 3));
    let e = node(B8, UExpressionInner::Rem(BinaryExpression::new(lit(B8, 17), lit(B8, 5))));
    assert_eq!(fold(e), lit(B8, 2));
    let e = node(B8, UExpressionInner::Div(BinaryExpression::new(x(B8), lit(B8, 1))));
    assert_eq!(fold(e), x(B8));
    let e = node(B8, UExpressionInner::Rem(BinaryExpression::new(x(B8), lit(B8, 1))));
    assert_eq!(fold(e).inner, UExpressionInner::Value(ValueExpression::new(0)));
    let by_zero = || node(B8, UExpressionInner::Div(BinaryExpression::new(lit(B8, 17), lit(B8, 0))));
    assert_eq!(fold(by_zero()), by_zero());
}

#[test]
fn uint_shifts() {
    let e = node(
        B8,
        UExpressionInner::LeftShift(BinaryExpression::new(lit(B8, 0x81), lit(B32, 1))),
    );
    assert_eq!(fold(e), lit(B8, 0x02));
    let e = node(
        B8,
        UExpressionInner::RightShift(BinaryExpression::new(lit(B8, 0x81), lit(B32, 1))),
    );
    assert_eq!(fold(e), lit(B8, 0x40));
    let e = node(
        B8,
        UExpressionInner::LeftShift(BinaryExpression::new(lit(B8, 1), lit(B32, 200))),
    );
    assert_eq!(fold(e), lit(B8, 0));
}

#[test]
fn uint_xor_and_and() {
    let e = node(B8, UExpressionInner::Xor(BinaryExpression::new(lit(B8, 0xf0), lit(B8, 0x3c))));
    assert_eq!(fold(e), lit(B8, 0xcc));
    let e = node(B8, UExpressionInner::Xor(BinaryExpression::new(x(B8), x(B8))));
    assert_eq!(fold(e), lit(B8, 0));
    let e = node(B8, UExpressionInner::Xor(BinaryExpression::new(x(B8), lit(B8, 0))));
    assert_eq!(fold(e), x(B8));
    let different = || node(B8, UExpressionInner::Xor(BinaryExpression::new(x(B8), y(B8))));
    assert_eq!(fold(different()), different());
    let e = node(B8, UExpressionInner::And(BinaryExpression::new(lit(B8, 0xf0), lit(B8, 0x3c))));
    assert_eq!(fold(e), lit(B8, 0x30));
    let e = node(B8, UExpressionInner::And(BinaryExpression::new(x(B8), lit(B8, 0))));
    assert_eq!(fold(e), lit(B8, 0));
    let kept = || node(B8, UExpressionInner::And(BinaryExpression::new(x(B8), lit(B8, 0xff))));
    assert_eq!(fold(kept()), kept());
}

#[test]
fn uint_not_and_neg() {
    let e = node(B8, UExpressionInner::Not(UnaryExpression::new(lit(B8, 0x0f))));
    assert_eq!(fold(e), lit(B8, 0xf0));
    let e = node(B32, UExpressionInner::Not(UnaryExpression::new(lit(B32, 0))));
    assert_eq!(fold(e), lit(B32, 0xffff_ffff));
    let e = node(B8, UExpressionInner::Neg(UnaryExpression::new(lit(B8, 1))));
    assert_eq!(fold(e), lit(B8, 255));
    let e = node(B8, UExpressionInner::Neg(UnaryExpression::new(lit(B8, 0))));
    assert_eq!(fold(e), lit(B8, 0));
    let e = node(B8, UExpressionInner::Pos(UnaryExpression::new(lit(B8, 9))));
    assert_eq!(fold(e), lit(B8, 9));
}

#[test]
fn uint_comparisons() {
    let p = Propagator::<Bn128Field>::with_constants(HashMap::new());
    let lt = BooleanExpression::UintLt(BinaryExpression::new(lit(B8, 2), lit(B8, 4)));
    assert_eq!(p.fold_boolean_expression(lt), Ok(BooleanExpression::from_value(true)));
    let le = BooleanExpression::UintLe(BinaryExpression::new(lit(B8, 5), lit(B8, 4)));
    assert_eq!(p.fold_boolean_expression(le), Ok(BooleanExpression::from_value(false)));
    let eq = BooleanExpression::UintEq(BinaryExpression::new(lit(B8, 4), lit(B8, 4)));
    assert_eq!(p.fold_boolean_expression(eq), Ok(BooleanExpression::from_value(true)));
}

#[test]
fn element_of_another_width_does_not_take_the_place_of_a_selection() {
    let elements = List::from_vec(vec![TypedExpressionOrSpread::Expression(
        TypedExpression::Uint(lit(B8, 3)),
    )]);
    let array = || {
        ArrayExpression::from_value(elements_copy(&elements)).annotate(Type::Uint(B8), 1)
    };
    let select = |bw: UBitwidth| {
        node(
            bw,
            UExpressionInner::Select(SelectExpression::new(array(), lit(B32, 0))),
        )
    };
    assert_eq!(fold(select(B8)), lit(B8, 3));
    assert_eq!(fold(select(B32)), select(B32));
}

fn elements_copy(
    l: &List<TypedExpressionOrSpread<Bn128Field>>,
) -> List<TypedExpressionOrSpread<Bn128Field>> {
    zokrates_ir::cloning::clone_elements(l)
}
