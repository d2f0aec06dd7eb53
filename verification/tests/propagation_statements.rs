use zokrates_ir::bn128::Bn128Field;
use zokrates_ir::common::{Position, RuntimeError, Span};
use zokrates_ir::error::{Error, TypeMismatch};
use zokrates_ir::expressions::{BinaryExpression, ValueExpression};
use zokrates_ir::field::Field;
use zokrates_ir::list::List;
use zokrates_ir::propagation::Propagator;
use zokrates_ir::typed::{
    ArrayExpression, BooleanExpression, DefinitionRhs, EmbedCall, FieldElementExpression,
    FlatEmbed, Identifier, SelectExpression, StructExpression, StructExpressionInner,
    TupleExpression, TupleExpressionInner, TypedAssignee, TypedExpression,
    TypedExpressionOrSpread, TypedFunction, TypedFunctionSymbol, TypedFunctionSymbolDeclaration,
    TypedModule, TypedModuleEntry, TypedProgram, TypedSpread, TypedStatement, UExpression,
    UExpressionInner, Variable, MAIN,
};
use zokrates_ir::types::{ArraySize, ArrayType, StructMember, StructType, TupleType, Type, UBitwidth};

type F = FieldElementExpression<Bn128Field>;
type S = TypedStatement<Bn128Field>;

fn field(n: u128) -> F {
    FieldElementExpression::from_value(Bn128Field::from_u128(n))
}

fn id(n: u64) -> Identifier {
    Identifier { id: n }
}

fn field_variable(n: u64) -> Variable {
    Variable {
        id: id(n),
        ty: Type::FieldElement,
    }
}

fn define(v: Variable, e: TypedExpression<Bn128Field>) -> S {
    TypedStatement::Definition(TypedAssignee::Identifier(v), DefinitionRhs::Expression(e))
}

fn field_elements(values: Vec<u128>) -> List<TypedExpressionOrSpread<Bn128Field>> {
    List::from_vec(
        values
            .into_iter()
            .map(|v| TypedExpressionOrSpread::Expression(TypedExpression::FieldElement(field(v))))
            .collect(),
    )
}

fn field_array(values: Vec<u128>) -> ArrayExpression<Bn128Field> {
    let size = values.len() as u32;
    ArrayExpression::from_value(field_elements(values)).annotate(Type::FieldElement, size)
}

fn array_variable(n: u64, size: u32) -> Variable {
    Variable {
        id: id(n),
        ty: Type::array(Type::FieldElement, size),
    }
}

fn bool_elements(bits: Vec<bool>) -> List<TypedExpressionOrSpread<Bn128Field>> {
    List::from_vec(
        bits.into_iter()
            .map(|b| {
                TypedExpressionOrSpread::Expression(TypedExpression::Boolean(
                    BooleanExpression::from_value(b),
                ))
            })
            .collect(),
    )
}

fn bool_array(bits: Vec<bool>) -> TypedExpression<Bn128Field> {
    let size = bits.len() as u32;
    TypedExpression::Array(ArrayExpression::from_value(bool_elements(bits)).annotate(Type::Boolean, size))
}

const A: u64 = 1;
const B: u64 = 2;
const X: u64 = 3;
const Y: u64 = 4;

fn two_plus_three() -> TypedExpression<Bn128Field> {
    TypedExpression::FieldElement(FieldElementExpression::Add(BinaryExpression::new(
        field(2),
        field(3),
    )))
}

#[test]
fn constant_definition_is_recorded_and_not_emitted() {
    let mut p: Propagator<Bn128Field> = Propagator::new();
    let out = p.fold_statement(define(field_variable(A), two_plus_three()));
    assert_eq!(out, Ok(List::Nil));
    assert_eq!(
        p.constants.get(&A),
        Some(&TypedExpression::FieldElement(field(5)))
    );
}

#[test]
fn assertion_that_folds_to_true_ends_the_pass() {
    let mut p: Propagator<Bn128Field> = Propagator::new();
    p.fold_statement(define(field_variable(A), two_plus_three()))
        .unwrap();
    let assertion = TypedStatement::Assertion(
        BooleanExpression::FieldEq(BinaryExpression::new(
            FieldElementExpression::identifier(id(A)),
            field(5),
        )),
        RuntimeError::SourceAssertion(7),
    );
    assert_eq!(
        p.fold_statement(assertion),
        Err(Error::AssertionFailed(RuntimeError::SourceAssertion(7)))
    );
}

#[test]
fn assertion_that_folds_to_false_is_dropped() {
    let mut p: Propagator<Bn128Field> = Propagator::new();
    p.fold_statement(define(field_variable(A), two_plus_three()))
        .unwrap();
    let assertion = TypedStatement::Assertion(
        BooleanExpression::FieldEq(BinaryExpression::new(
            FieldElementExpression::identifier(id(A)),
            field(6),
        )),
        RuntimeError::SourceAssertion(7),
    );
    assert_eq!(p.fold_statement(assertion), Ok(List::Nil));
}

#[test]
fn assertion_on_unknown_values_is_kept() {
    let mut p: Propagator<Bn128Field> = Propagator::new();
    let condition = BooleanExpression::FieldEq(BinaryExpression::new(
        FieldElementExpression::identifier(id(X)),
        field(6),
    ));
    let out = p.fold_statement(TypedStatement::Assertion(
        condition.clone(),
        RuntimeError::SourceAssertion(1),
    ));
    assert_eq!(
        out,
        Ok(List::from_vec(vec![TypedStatement::Assertion(
            condition,
            RuntimeError::SourceAssertion(1)
        )]))
    );
}

#[test]
fn constants_are_propagated_into_later_definitions() {
    // a = 2 + 3; b = a * x
    let statements: List<S> = List::from_vec(vec![
        define(field_variable(A), two_plus_three()),
        define(
            field_variable(B),
            TypedExpression::FieldElement(FieldElementExpression::Mult(BinaryExpression::new(
                FieldElementExpression::identifier(id(A)),
                FieldElementExpression::identifier(id(X)),
            ))),
        ),
    ]);
    let mut p: Propagator<Bn128Field> = Propagator::new();
    let out = p.fold_statements(statements);
    // b := 5 * x, and a is not emitted
    assert_eq!(
        out,
        Ok(List::from_vec(vec![define(
            field_variable(B),
            TypedExpression::FieldElement(FieldElementExpression::Mult(BinaryExpression::new(
                field(5),
                FieldElementExpression::identifier(id(X)),
            ))),
        )]))
    );
}

#[test]
fn out_of_bounds_select_of_a_known_array_is_an_error() {
    // a = [1, 2, 3]; y = a[4]
    let statements: List<S> = List::from_vec(vec![
        define(
            array_variable(A, 3),
            TypedExpression::Array(field_array(vec![1, 2, 3])),
        ),
        define(
            field_variable(Y),
            TypedExpression::FieldElement(FieldElementExpression::Select(SelectExpression::new(
                ArrayExpression::identifier(id(A)).annotate(Type::FieldElement, 3),
                UExpression::from_u32(4),
            ))),
        ),
    ]);
    let mut p: Propagator<Bn128Field> = Propagator::new();
    assert_eq!(p.fold_statements(statements), Err(Error::OutOfBounds(4, 3)));
}

fn unpack(value: u128, bit_width: u32, target: u64) -> S {
    TypedStatement::Definition(
        TypedAssignee::Identifier(Variable {
            id: id(target),
            ty: Type::array(Type::Boolean, bit_width),
        }),
        DefinitionRhs::EmbedCall(EmbedCall {
            embed: FlatEmbed::Unpack,
            generics: List::from_vec(vec![bit_width]),
            arguments: List::from_vec(vec![TypedExpression::FieldElement(field(value))]),
        }),
    )
}

#[test]
fn unpack_of_a_value_that_is_too_large_is_an_error() {
    let mut p: Propagator<Bn128Field> = Propagator::new();
    assert_eq!(
        p.fold_statement(unpack(17, 4, A)),
        Err(Error::ValueTooLarge(4))
    );
}

#[test]
fn unpack_gives_the_bits_most_significant_first() {
    let mut p: Propagator<Bn128Field> = Propagator::new();
    assert_eq!(p.fold_statement(unpack(17, 5, A)), Ok(List::Nil));
    assert_eq!(
        p.constants.get(&A),
        Some(&bool_array(vec![true, false, false, false, true]))
    );
}

fn embed(embed: FlatEmbed, argument: TypedExpression<Bn128Field>, target: Variable) -> S {
    TypedStatement::Definition(
        TypedAssignee::Identifier(target),
        DefinitionRhs::EmbedCall(EmbedCall {
            embed,
            generics: List::Nil,
            arguments: List::from_vec(vec![argument]),
        }),
    )
}

#[test]
fn from_bits_reads_the_first_bit_as_the_most_significant() {
    let mut p: Propagator<Bn128Field> = Propagator::new();
    let target = Variable {
        id: id(A),
        ty: Type::Uint(UBitwidth::B8),
    };
    let bits = bool_array(vec![true, false, false, false, false, false, true, true]);
    assert_eq!(
        p.fold_statement(embed(FlatEmbed::U8FromBits, bits, target)),
        Ok(List::Nil)
    );
    assert_eq!(
        p.constants.get(&A),
        Some(&TypedExpression::Uint(
            UExpression::from_value(0x83).annotate(UBitwidth::B8)
        ))
    );
}

#[test]
fn to_bits_is_the_inverse_of_from_bits() {
    let mut p: Propagator<Bn128Field> = Propagator::new();
    let target = Variable {
        id: id(A),
        ty: Type::array(Type::Boolean, 8),
    };
    let value = TypedExpression::Uint(UExpression::from_value(0x83).annotate(UBitwidth::B8));
    assert_eq!(
        p.fold_statement(embed(FlatEmbed::U8ToBits, value, target)),
        Ok(List::Nil)
    );
    assert_eq!(
        p.constants.get(&A),
        Some(&bool_array(vec![
            true, false, false, false, false, false, true, true
        ]))
    );
}

#[test]
fn embed_call_on_unknown_arguments_is_emitted() {
    let mut p: Propagator<Bn128Field> = Propagator::new();
    let target = Variable {
        id: id(A),
        ty: Type::array(Type::Boolean, 8),
    };
    let argument = TypedExpression::Uint(UExpression::identifier(id(X)).annotate(UBitwidth::B8));
    let statement = || embed(FlatEmbed::U8ToBits, argument.clone(), target.clone());
    assert_eq!(
        p.fold_statement(statement()),
        Ok(List::from_vec(vec![statement()]))
    );
}

#[test]
fn definition_of_another_type_is_an_error() {
    let mut p: Propagator<Bn128Field> = Propagator::new();
    let statement = define(
        field_variable(A),
        TypedExpression::Boolean(BooleanExpression::from_value(true)),
    );
    assert_eq!(
        p.fold_statement(statement),
        Err(Error::Type(TypeMismatch::Assignment {
            expected: Type::FieldElement,
            found: Type::Boolean
        }))
    );
}

#[test]
fn comparison_of_different_types_is_an_error() {
    let p: Propagator<Bn128Field> = Propagator::new();
    let e = BooleanExpression::UintEq(BinaryExpression::new(
        UExpression::identifier(id(X)).annotate(UBitwidth::B8),
        UExpression::identifier(id(Y)).annotate(UBitwidth::B16),
    ));
    assert_eq!(
        p.fold_boolean_expression(e),
        Err(Error::Type(TypeMismatch::Comparison {
            left: Type::Uint(UBitwidth::B8),
            right: Type::Uint(UBitwidth::B16)
        }))
    );
}

#[test]
fn struct_literal_with_a_member_of_another_type_is_an_error() {
    let p: Propagator<Bn128Field> = Propagator::new();
    let ty = StructType {
        module: 0,
        name: 1,
        members: List::from_vec(vec![StructMember {
            id: 9,
            ty: Type::Boolean,
        }]),
    };
    let e = StructExpression {
        ty,
        inner: StructExpressionInner::Value(ValueExpression::new(List::from_vec(vec![
            TypedExpression::FieldElement(field(1)),
        ]))),
    };
    assert_eq!(
        p.fold_struct_expression(e),
        Err(Error::Type(TypeMismatch::StructMember {
            id: 9,
            expected: Type::Boolean,
            found: Type::FieldElement
        }))
    );
}

#[test]
fn tuple_literal_with_an_element_of_another_type_is_an_error() {
    let p: Propagator<Bn128Field> = Propagator::new();
    let ty = TupleType {
        elements: List::from_vec(vec![Type::FieldElement, Type::Boolean]),
    };
    let e = TupleExpression {
        ty,
        inner: TupleExpressionInner::Value(ValueExpression::new(List::from_vec(vec![
            TypedExpression::FieldElement(field(1)),
            TypedExpression::FieldElement(field(2)),
        ]))),
    };
    assert_eq!(
        p.fold_tuple_expression(e),
        Err(Error::Type(TypeMismatch::TupleElement {
            index: 1,
            expected: Type::Boolean,
            found: Type::FieldElement
        }))
    );
}

#[test]
fn write_into_a_known_array_updates_the_constant() {
    // a = [1, 2, 3]; a[1] = 7
    let mut p: Propagator<Bn128Field> = Propagator::new();
    p.fold_statement(define(
        array_variable(A, 3),
        TypedExpression::Array(field_array(vec![1, 2, 3])),
    ))
    .unwrap();
    let write = TypedStatement::Definition(
        TypedAssignee::Select(
            Box::new(TypedAssignee::Identifier(array_variable(A, 3))),
            Box::new(UExpression::from_u32(1)),
        ),
        DefinitionRhs::Expression(TypedExpression::FieldElement(field(7))),
    );
    assert_eq!(p.fold_statement(write), Ok(List::Nil));
    assert_eq!(
        p.constants.get(&A),
        Some(&TypedExpression::Array(field_array(vec![1, 7, 3])))
    );
}

#[test]
fn unknown_write_flushes_the_known_constant() {
    // a = [1, 2, 3]; a[1] = x
    let mut p: Propagator<Bn128Field> = Propagator::new();
    p.fold_statement(define(
        array_variable(A, 3),
        TypedExpression::Array(field_array(vec![1, 2, 3])),
    ))
    .unwrap();
    let write = || {
        TypedStatement::Definition(
            TypedAssignee::Select(
                Box::new(TypedAssignee::Identifier(array_variable(A, 3))),
                Box::new(UExpression::from_u32(1)),
            ),
            DefinitionRhs::Expression(TypedExpression::FieldElement(
                FieldElementExpression::identifier(id(X)),
            )),
        )
    };
    assert_eq!(
        p.fold_statement(write()),
        Ok(List::from_vec(vec![
            define(
                array_variable(A, 3),
                TypedExpression::Array(field_array(vec![1, 2, 3]))
            ),
            write()
        ]))
    );
    assert_eq!(p.constants.get(&A), None);
}

#[test]
fn array_literal_spreads_are_flattened() {
    let p: Propagator<Bn128Field> = Propagator::new();
    let empty = ArrayExpression::<Bn128Field>::identifier(id(B)).annotate(Type::FieldElement, 0);
    let elements = List::from_vec(vec![
        TypedExpressionOrSpread::Spread(TypedSpread {
            array: field_array(vec![1, 2]),
        }),
        TypedExpressionOrSpread::Spread(TypedSpread { array: empty }),
        TypedExpressionOrSpread::Expression(TypedExpression::FieldElement(field(3))),
    ]);
    let e = ArrayExpression::from_value(elements).annotate(Type::FieldElement, 3);
    assert_eq!(p.fold_array_expression(e), Ok(field_array(vec![1, 2, 3])));
}

#[test]
fn for_loop_bounds_are_folded_and_the_body_is_kept() {
    let mut p: Propagator<Bn128Field> = Propagator::new();
    let body = || -> List<S> {
        List::from_vec(vec![define(field_variable(A), two_plus_three())])
    };
    let v = || Variable {
        id: id(X),
        ty: Type::Uint(UBitwidth::B32),
    };
    let sum = UExpressionInner::Add(BinaryExpression::new(
        UExpression::from_u32(1),
        UExpression::from_u32(2),
    ))
    .annotate(UBitwidth::B32);
    let statement = TypedStatement::For(v(), UExpression::from_u32(0), sum, body());
    assert_eq!(
        p.fold_statement(statement),
        Ok(List::from_vec(vec![TypedStatement::For(
            v(),
            UExpression::from_u32(0),
            UExpression::from_u32(3),
            body()
        )]))
    );
    assert_eq!(p.constants.get(&A), None);
}

fn program(main_statements: Vec<S>, other_statements: Vec<S>) -> TypedProgram<Bn128Field> {
    let function = |statements: Vec<S>| TypedFunction {
        arguments: List::Nil,
        statements: List::from_vec(statements),
        outputs: List::Nil,
    };
    TypedProgram {
        main: 10,
        modules: List::from_vec(vec![
            TypedModuleEntry {
                id: 11,
                module: TypedModule {
                    symbols: List::from_vec(vec![TypedFunctionSymbolDeclaration {
                        id: MAIN,
                        symbol: TypedFunctionSymbol::Here(function(other_statements)),
                    }]),
                },
            },
            TypedModuleEntry {
                id: 10,
                module: TypedModule {
                    symbols: List::from_vec(vec![TypedFunctionSymbolDeclaration {
                        id: MAIN,
                        symbol: TypedFunctionSymbol::Here(function(main_statements)),
                    }]),
                },
            },
        ]),
    }
}

#[test]
fn only_the_main_module_is_propagated() {
    let statements = || {
        vec![
            define(field_variable(A), two_plus_three()),
            TypedStatement::Return(TypedExpression::FieldElement(
                FieldElementExpression::identifier(id(A)),
            )),
        ]
    };
    let out = Propagator::propagate(program(statements(), statements()));
    assert_eq!(
        out,
        Ok(program(
            vec![TypedStatement::Return(TypedExpression::FieldElement(
                field(5)
            ))],
            statements()
        ))
    );
}

#[test]
fn propagation_is_idempotent_on_an_example() {
    let statements = || {
        vec![
            define(
                array_variable(A, 3),
                TypedExpression::Array(field_array(vec![1, 2, 3])),
            ),
            TypedStatement::Definition(
                TypedAssignee::Select(
                    Box::new(TypedAssignee::Identifier(array_variable(A, 3))),
                    Box::new(UExpression::from_u32(1)),
                ),
                DefinitionRhs::Expression(TypedExpression::FieldElement(
                    FieldElementExpression::Add(BinaryExpression::new(
                        FieldElementExpression::identifier(id(X)),
                        field(0),
                    )),
                )),
            ),
            TypedStatement::Return(TypedExpression::FieldElement(
                FieldElementExpression::Select(SelectExpression::new(
                    ArrayExpression::identifier(id(A)).annotate(Type::FieldElement, 3),
                    UExpression::from_u32(0),
                )),
            )),
        ]
    };
    let once = || Propagator::propagate(program(statements(), vec![])).unwrap();
    let twice = Propagator::propagate(once()).unwrap();
    assert_eq!(once(), twice);
}

#[test]
fn array_type_with_unknown_size_is_not_checked() {
    let mut p: Propagator<Bn128Field> = Propagator::new();
    let target = Variable {
        id: id(A),
        ty: Type::Array(ArrayType {
            ty: Box::new(Type::FieldElement),
            size: ArraySize::Generic(0),
        }),
    };
    let statement = define(target, TypedExpression::Array(field_array(vec![1, 2])));
    assert_eq!(p.fold_statement(statement), Ok(List::Nil));
}

#[test]
fn second_constant_definition_of_a_variable_is_detected() {
    let statements = vec![
        define(field_variable(A), two_plus_three()),
        define(field_variable(A), TypedExpression::FieldElement(field(9))),
    ];
    assert_eq!(Propagator::try_propagate(program(statements, vec![])), None);
}

#[test]
fn checked_propagation_agrees_with_propagation() {
    let statements = || {
        vec![
            define(field_variable(A), two_plus_three()),
            TypedStatement::Return(TypedExpression::FieldElement(
                FieldElementExpression::identifier(id(A)),
            )),
        ]
    };
    assert_eq!(
        Propagator::try_propagate(program(statements(), vec![])),
        Some(Propagator::propagate(program(statements(), vec![])))
    );
}

#[test]
fn rebinding_is_told_apart_from_a_first_definition() {
    let mut p: Propagator<Bn128Field> = Propagator::new();
    let first = define(field_variable(A), two_plus_three());
    assert!(!p.would_rebind(&first));
    p.fold_statement(first).unwrap();
    assert!(p.would_rebind(&define(field_variable(A), two_plus_three())));
    let unknown = define(
        field_variable(A),
        TypedExpression::FieldElement(FieldElementExpression::identifier(id(X))),
    );
    assert!(!p.would_rebind(&unknown));
}

#[test]
fn constants_are_recorded_without_their_place_in_the_source() {
    let span = Some(Span {
        file: 1,
        from: Position { line: 1, col: 1 },
        to: Position { line: 1, col: 2 },
    });
    let literal = FieldElementExpression::Number(ValueExpression {
        span,
        value: Bn128Field::from_u128(5),
    });
    let mut p: Propagator<Bn128Field> = Propagator::new();
    p.fold_statement(define(
        field_variable(A),
        TypedExpression::FieldElement(literal),
    ))
    .unwrap();
    assert_eq!(
        p.constants.get(&A),
        Some(&TypedExpression::FieldElement(field(5)))
    );
}

fn pair_type() -> StructType {
    StructType {
        module: 0,
        name: 1,
        members: List::from_vec(vec![
            StructMember {
                id: 10,
                ty: Type::FieldElement,
            },
            StructMember {
                id: 11,
                ty: Type::Boolean,
            },
        ]),
    }
}

fn pair_literal(first: u128, second: bool) -> StructExpression<Bn128Field> {
    StructExpression {
        ty: pair_type(),
        inner: StructExpressionInner::Value(ValueExpression::new(List::from_vec(vec![
            TypedExpression::FieldElement(field(first)),
            TypedExpression::Boolean(BooleanExpression::from_value(second)),
        ]))),
    }
}

#[test]
fn member_of_a_struct_literal_takes_the_place_of_the_access() {
    use_member();
}

fn use_member() {
    let p: Propagator<Bn128Field> = Propagator::new();
    let access = |id: u64| zokrates_ir::typed::MemberExpression::new(pair_literal(4, true), id);
    assert_eq!(
        p.fold_field_expression(FieldElementExpression::Member(access(10))),
        Ok(field(4))
    );
    assert_eq!(
        p.fold_boolean_expression(BooleanExpression::Member(access(11))),
        Ok(BooleanExpression::from_value(true))
    );
    // a member of another family stays an access
    assert_eq!(
        p.fold_field_expression(FieldElementExpression::Member(access(11))),
        Ok(FieldElementExpression::Member(access(11)))
    );
}

#[test]
fn element_of_a_tuple_literal_takes_the_place_of_the_access() {
    let p: Propagator<Bn128Field> = Propagator::new();
    let tuple = || TupleExpression {
        ty: TupleType {
            elements: List::from_vec(vec![Type::FieldElement, Type::Boolean]),
        },
        inner: TupleExpressionInner::Value(ValueExpression::new(List::from_vec(vec![
            TypedExpression::FieldElement(field(4)),
            TypedExpression::Boolean(BooleanExpression::from_value(false)),
        ]))),
    };
    let access = |index: u32| zokrates_ir::typed::ElementExpression::new(tuple(), index);
    assert_eq!(
        p.fold_field_expression(FieldElementExpression::Element(access(0))),
        Ok(field(4))
    );
    assert_eq!(
        p.fold_boolean_expression(BooleanExpression::Element(access(1))),
        Ok(BooleanExpression::from_value(false))
    );
}

#[test]
fn place_inside_a_known_variable_stands_for_a_part_of_its_value() {
    let mut p: Propagator<Bn128Field> = Propagator::new();
    p.fold_statement(define(
        array_variable(A, 3),
        TypedExpression::Array(field_array(vec![1, 2, 3])),
    ))
    .unwrap();
    let place = |index: UExpression<Bn128Field>| {
        TypedAssignee::Select(
            Box::new(TypedAssignee::Identifier(array_variable(A, 3))),
            Box::new(index),
        )
    };
    assert_eq!(
        p.try_get_constant_mut(&place(UExpression::from_u32(2))),
        Ok((
            array_variable(A, 3),
            TypedExpression::FieldElement(field(3))
        ))
    );
    // beyond the end, or at an index that is not known
    assert_eq!(
        p.try_get_constant_mut(&place(UExpression::from_u32(3))),
        Err(array_variable(A, 3))
    );
    assert_eq!(
        p.try_get_constant_mut(&place(
            UExpression::identifier(id(X)).annotate(UBitwidth::B32)
        )),
        Err(array_variable(A, 3))
    );
    // a variable that is not known
    assert_eq!(
        p.try_get_constant_mut(&TypedAssignee::Identifier(field_variable(B))),
        Err(field_variable(B))
    );
}
