use std::collections::HashMap;
use zokrates_ir::bn128::Bn128Field;
use zokrates_ir::common::{Parameter, Solver, Variable};
use zokrates_ir::field::Field;
use zokrates_ir::ir::{Directive, LinComb, Prog, QuadComb, Statement, Witness};
use zokrates_ir::r1cs::{
    field_block, prepare_generate_proof, prepare_public_inputs, prepare_setup,
    provide_variable_idx, r1cs_program, vec_as_u8_32_array,
};
use zokrates_ir::record::{encode_records, read_record, wrap, Record};

fn f(n: u128) -> Bn128Field {
    Bn128Field::from_u128(n)
}

fn term(v: Variable, c: u128) -> LinComb<Bn128Field> {
    LinComb {
        terms: vec![(v, f(c))],
    }
}

fn product(a: Variable, b: Variable, c: Variable) -> Statement<Bn128Field> {
    Statement::Constraint(
        QuadComb {
            left: term(a, 1),
            right: term(b, 1),
        },
        term(c, 1),
        None,
    )
}

fn block_of(last: u8) -> [u8; 32] {
    let mut b = [0u8; 32];
    b[31] = last;
    b
}

#[test]
fn bytes_are_turned_around_and_right_aligned() {
    let mut expected = [0u8; 32];
    expected[31] = 1;
    expected[30] = 2;
    expected[29] = 3;
    assert_eq!(vec_as_u8_32_array(&[1, 2, 3]), expected);
    assert_eq!(vec_as_u8_32_array(&[]), [0u8; 32]);
    let all: Vec<u8> = (1..=32).collect();
    let turned: Vec<u8> = (1..=32).rev().collect();
    assert_eq!(vec_as_u8_32_array(&all).to_vec(), turned);
}

#[test]
fn field_element_encoding_is_big_endian() {
    assert_eq!(field_block(&f(5)), block_of(5));
    let mut expected = [0u8; 32];
    expected[30] = 1;
    expected[31] = 2;
    assert_eq!(field_block(&f(0x0102)), expected);
    // the order of the field minus one
    let minus_one = f(0).sub(&f(1));
    let hex = "30644e72e131a029b85045b68181585d2833e84879b9709143e1f593f0000000";
    let bytes: Vec<u8> = (0..32)
        .map(|i| u8::from_str_radix(&hex[2 * i..2 * i + 2], 16).unwrap())
        .collect();
    assert_eq!(field_block(&minus_one).to_vec(), bytes);
}

#[test]
fn variable_index_is_provided_once() {
    let mut variables = HashMap::new();
    assert_eq!(provide_variable_idx(&mut variables, &Variable::one()), 0);
    assert_eq!(provide_variable_idx(&mut variables, &Variable::new(4)), 1);
    assert_eq!(provide_variable_idx(&mut variables, &Variable::one()), 0);
    assert_eq!(provide_variable_idx(&mut variables, &Variable::public(0)), 2);
    assert_eq!(provide_variable_idx(&mut variables, &Variable::new(4)), 1);
    assert_eq!(variables.len(), 3);
}

#[test]
fn program_without_constraints_has_its_public_variables_only() {
    let x = Variable::new(0);
    let prog: Prog<Bn128Field> = Prog {
        arguments: vec![Parameter::public(x)],
        return_count: 1,
        statements: vec![],
    };
    let (variables, public_variables_count, constraints) = r1cs_program(prog);
    assert_eq!(variables, vec![Variable::one(), x, Variable::public(0)]);
    assert_eq!(public_variables_count, 3);
    assert_eq!(constraints, vec![]);
}

#[test]
fn constraint_is_lowered_to_the_indices_of_its_variables() {
    let x = Variable::new(0);
    let y = Variable::new(1);
    let z = Variable::new(2);
    let prog: Prog<Bn128Field> = Prog {
        arguments: vec![Parameter::public(x), Parameter::public(y), Parameter::public(z)],
        return_count: 0,
        statements: vec![product(x, y, z)],
    };
    let (variables, public_variables_count, constraints) = r1cs_program(prog);
    assert_eq!(variables, vec![Variable::one(), x, y, z]);
    assert_eq!(public_variables_count, 4);
    assert_eq!(
        constraints,
        vec![(vec![(1, f(1))], vec![(2, f(1))], vec![(3, f(1))])]
    );
}

#[test]
fn public_variables_come_first_and_the_others_as_they_are_met() {
    let x = Variable::new(0);
    let w = Variable::new(1);
    let y = Variable::new(2);
    let t = Variable::new(7);
    let u = Variable::new(5);
    let prog: Prog<Bn128Field> = Prog {
        arguments: vec![
            Parameter::public(x),
            Parameter::private(w),
            Parameter::public(y),
        ],
        return_count: 2,
        statements: vec![
            product(t, w, u),
            Statement::Directive(Directive {
                inputs: vec![],
                outputs: vec![Variable::new(9)],
                solver: Solver::Xor,
            }),
            Statement::Constraint(
                QuadComb {
                    left: LinComb {
                        terms: vec![(u, f(2)), (x, f(3))],
                    },
                    right: term(Variable::one(), 1),
                },
                term(Variable::public(1), 4),
                None,
            ),
        ],
    };
    let (variables, public_variables_count, constraints) = r1cs_program(prog);
    assert_eq!(
        variables,
        vec![
            Variable::one(),
            x,
            y,
            Variable::public(0),
            Variable::public(1),
            t,
            w,
            u
        ]
    );
    assert_eq!(public_variables_count, 5);
    assert_eq!(
        constraints,
        vec![
            (vec![(5, f(1))], vec![(6, f(1))], vec![(7, f(1))]),
            (
                vec![(7, f(2)), (1, f(3))],
                vec![(0, f(1))],
                vec![(4, f(4))]
            ),
        ]
    );
}

#[test]
fn record_is_forty_bytes() {
    let record: Record = (1, 2, field_block(&f(5)));
    let bytes = encode_records(&vec![record]);
    let mut expected = vec![1u8, 0, 0, 0, 2, 0, 0, 0];
    expected.extend(vec![0u8; 31]);
    expected.push(5);
    assert_eq!(bytes.len(), 40);
    assert_eq!(bytes, expected);
}

#[test]
fn record_round_trip() {
    let records: Vec<Record> = vec![
        (1, 2, field_block(&f(5))),
        (-1, i32::MAX, field_block(&f(u128::MAX))),
        (i32::MIN, 0x01020304, block_of(0)),
    ];
    let bytes = encode_records(&records);
    assert_eq!(bytes.len(), 120);
    assert_eq!(&bytes[40..48], &[0xff, 0xff, 0xff, 0xff, 0xff, 0xff, 0xff, 0x7f]);
    assert_eq!(&bytes[80..88], &[0, 0, 0, 0x80, 4, 3, 2, 1]);
    for (i, record) in records.iter().enumerate() {
        assert_eq!(read_record(&bytes, 40 * i), *record);
    }
}

#[test]
fn indices_wrap_to_thirty_two_bits() {
    assert_eq!(wrap(0), 0);
    assert_eq!(wrap(7), 7);
    assert_eq!(wrap(0x7fff_ffff), i32::MAX);
    assert_eq!(wrap(0x8000_0000), i32::MIN);
    assert_eq!(wrap(0xffff_ffff), -1);
    assert_eq!(wrap(0x1_0000_0005), 5);
}

#[test]
fn setup_holds_one_record_for_each_coefficient() {
    let x = Variable::new(0);
    let y = Variable::new(1);
    let prog: Prog<Bn128Field> = Prog {
        arguments: vec![Parameter::public(x), Parameter::private(y)],
        return_count: 1,
        statements: vec![
            product(x, y, Variable::public(0)),
            Statement::Constraint(
                QuadComb {
                    left: LinComb {
                        terms: vec![(x, f(2)), (y, f(3))],
                    },
                    right: term(Variable::one(), 1),
                },
                LinComb { terms: vec![] },
                None,
            ),
        ],
    };
    let (a_arr, b_arr, c_arr, a_vec, b_vec, c_vec, num_constraints, num_variables, num_inputs) =
        prepare_setup(prog);
    // columns: one, x, out0, y
    assert_eq!(num_constraints, 2);
    assert_eq!(num_variables, 4);
    assert_eq!(num_inputs, 2);
    assert_eq!(
        a_vec,
        vec![(0, 1, block_of(1)), (1, 1, block_of(2)), (1, 3, block_of(3))]
    );
    assert_eq!(b_vec, vec![(0, 3, block_of(1)), (1, 0, block_of(1))]);
    assert_eq!(c_vec, vec![(0, 2, block_of(1))]);
    assert_eq!(a_arr, encode_records(&a_vec));
    assert_eq!(b_arr, encode_records(&b_vec));
    assert_eq!(c_arr, encode_records(&c_vec));
    assert_eq!(a_arr.len(), 120);
    assert_eq!(&a_arr[40..48], &[1, 0, 0, 0, 1, 0, 0, 0]);
    assert_eq!(a_arr[79], 2);
}

#[test]
fn public_inputs_are_encoded_in_order() {
    let (blocks, length) = prepare_public_inputs(vec![f(1), f(0x0100), f(0)]);
    assert_eq!(length, 3);
    let mut second = [0u8; 32];
    second[30] = 1;
    assert_eq!(blocks, vec![block_of(1), second, block_of(0)]);
    let (none, zero) = prepare_public_inputs::<Bn128Field>(vec![]);
    assert_eq!((none, zero), (vec![], 0));
}

fn witness(values: Vec<(Variable, u128)>) -> Witness<Bn128Field> {
    Witness {
        values: values.into_iter().map(|(v, x)| (v.id, f(x))).collect(),
    }
}

#[test]
fn witness_is_split_into_public_and_private_values() {
    let x = Variable::new(0);
    let y = Variable::new(1);
    let prog: Prog<Bn128Field> = Prog {
        arguments: vec![Parameter::public(x), Parameter::private(y)],
        return_count: 1,
        statements: vec![product(x, y, Variable::public(0))],
    };
    let w = witness(vec![
        (Variable::one(), 1),
        (x, 3),
        (y, 4),
        (Variable::public(0), 12),
    ]);
    let (public, public_length, private, private_length) = prepare_generate_proof(prog, w);
    assert_eq!(public_length, 3);
    assert_eq!(public, vec![block_of(1), block_of(3), block_of(12)]);
    assert_eq!(private_length, 1);
    assert_eq!(private, vec![block_of(4)]);
}

#[test]
fn empty_private_part_is_one_zero() {
    let x = Variable::new(0);
    let prog: Prog<Bn128Field> = Prog {
        arguments: vec![Parameter::public(x)],
        return_count: 0,
        statements: vec![],
    };
    let w = witness(vec![(Variable::one(), 1), (x, 3)]);
    let (public, public_length, private, private_length) = prepare_generate_proof(prog, w);
    assert_eq!(public_length, 2);
    assert_eq!(public, vec![block_of(1), block_of(3)]);
    assert_eq!(private_length, 0);
    assert_eq!(private, vec![[0u8; 32]]);
}
