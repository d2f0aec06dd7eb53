//! The rank-1 constraint system of a program, and its encoding for a proof
//! backend.

use crate::bigint::{le_bytes_value, lemma_le_bytes_zero_padding, zero_bytes};
use crate::common::Variable;
use crate::field::Field;
use crate::ir::lemma_distinct_prefix;
use crate::ir::{
    body_variables, columns, distinct, lemma_distinct_contains, lemma_distinct_push,
    occurrences, public_arguments, public_outputs, public_variables, statement_variables,
    variables_of, LinComb, Prog, Statement, Witness,
};
use crate::record::{encode_records, encoded_records, wrap, wrapped, Record};
use std::collections::HashMap;
use vstd::prelude::*;

verus! {

/// The backend that the encoding is made for.
pub struct Libsnark;

/// The 32 bytes that hold, most significant first, the number whose bytes
/// `vec` holds least significant first.
pub open spec fn big_endian_32(vec: Seq<u8>) -> Seq<u8> {
    Seq::new(
        32,
        |i: int|
            if 31 - i < vec.len() {
                vec[31 - i]
            } else {
                0u8
            },
    )
}

/// Turns the bytes of a number, least significant first, into a block of 32
/// bytes with the most significant byte first.
pub fn vec_as_u8_32_array(vec: &[u8]) -> (array: [u8; 32])
    requires
        vec@.len() <= 32,
    ensures
        array@ == big_endian_32(vec@),
{
    let mut array = [0u8;32];
    let mut index: usize = 0;
    while index < vec.len()
        invariant
            index <= vec@.len() <= 32,
            forall|i: int| 0 <= i < 32 ==> array@[i] == (if 31 - i < index {
                vec@[31 - i]
            } else {
                0u8
            }),
        decreases vec.len() - index,
    {
        array[31 - index] = vec[index];
        index = index + 1;
    }
    assert(array@ =~= big_endian_32(vec@));
    array
}


/// Whether `block` is the 32 bytes that stand for `x`, most significant
/// byte first.
pub open spec fn is_block(block: Seq<u8>, x: nat) -> bool {
    block.len() == 32 && le_bytes_value(block.reverse()) == x
}

/// Turning the bytes of a number around and filling them up to 32 bytes
/// keeps the number.
pub proof fn lemma_big_endian_32(vec: Seq<u8>)
    requires
        vec.len() <= 32,
    ensures
        is_block(big_endian_32(vec), le_bytes_value(vec)),
{
    let padded = vec + zero_bytes((32 - vec.len()) as nat);
    assert(big_endian_32(vec).reverse() =~= padded);
    lemma_le_bytes_zero_padding(vec, (32 - vec.len()) as nat);
}

/// The canonical encoding of a field element: the 32 bytes of its
/// representative, most significant byte first.
pub fn field_block<T: Field>(x: &T) -> (block: [u8; 32])
    ensures
        is_block(block@, x.value()),
{
    let bytes = x.to_byte_vector();
    proof {
        lemma_big_endian_32(bytes@);
    }
    vec_as_u8_32_array(bytes.as_slice())
}

/// Returns the index of `var` in `variables`. A variable that is not there
/// yet is added, with the number of variables before it as its index.
pub fn provide_variable_idx(variables: &mut HashMap<isize, usize>, var: &Variable) -> (r: usize)
    ensures
        old(variables)@.contains_key(var.id) ==> r == old(variables)@[var.id] && final(variables)@
            == old(variables)@,
        !old(variables)@.contains_key(var.id) ==> r == old(variables)@.len() && final(variables)@
            == old(variables)@.insert(var.id, r),
{
    let index = variables.len();
    match variables.get(&var.id) {
        Some(i) => *i,
        None => {
            variables.insert(var.id, index);
            index
        },
    }
}

/// A row of a constraint matrix: the columns that hold a coefficient other
/// than zero, each with its coefficient.
pub type Row<T> = Vec<(usize, T)>;

/// A constraint `a * b == c`, as one row of each of the three matrices.
pub type Constraint<T> = (Row<T>, Row<T>, Row<T>);

/// Whether `index` gives every variable of `list` its position in `list`,
/// and holds nothing else.
pub open spec fn is_index_of(index: Map<isize, usize>, list: Seq<Variable>) -> bool {
    &&& index.dom().finite()
    &&& index.dom().len() == list.len()
    &&& forall|i: int|
        0 <= i < list.len() ==> index.contains_key((#[trigger] list[i]).id) && index[list[i].id]
            == i
    &&& forall|k: isize|
        index.contains_key(k) ==> (#[trigger] index[k]) < list.len() && list[index[k] as int].id
            == k
}

/// Whether `row` is `lc` with every variable replaced by its column.
pub open spec fn is_lowered<T>(cols: Seq<Variable>, lc: LinComb<T>, row: Seq<(usize, T)>) -> bool {
    &&& row.len() == lc.terms@.len()
    &&& forall|i: int|
        0 <= i < row.len() ==> (#[trigger] row[i]).1 == lc.terms@[i].1 && row[i].0 < cols.len()
            && cols[row[i].0 as int] == lc.terms@[i].0
}

/// How many of the first `n` statements are constraints.
pub open spec fn constraint_count<T>(statements: Seq<Statement<T>>, n: nat) -> nat
    decreases n,
{
    if n == 0 {
        0
    } else {
        constraint_count(statements, (n - 1) as nat) + if statements[n - 1] is Constraint {
            1nat
        } else {
            0nat
        }
    }
}

/// Whether `rows` are the constraints among the first `n` statements, in
/// order, each with its variables replaced by their columns.
pub open spec fn are_lowered<T>(
    cols: Seq<Variable>,
    statements: Seq<Statement<T>>,
    n: nat,
    rows: Seq<Constraint<T>>,
) -> bool {
    &&& rows.len() == constraint_count(statements, n)
    &&& forall|i: int|
        0 <= i < n ==> (#[trigger] statements[i] matches Statement::Constraint(quad, lin, _) ==> {
            let row = rows[constraint_count(statements, i as nat) as int];
            &&& is_lowered(cols, quad.left, row.0@)
            &&& is_lowered(cols, quad.right, row.1@)
            &&& is_lowered(cols, lin, row.2@)
        })
}

/// Gives `v` a column, the next free one if it has none yet.
fn register(index: &mut HashMap<isize, usize>, list: &mut Vec<Variable>, v: Variable) -> (r: usize)
    requires
        is_index_of(old(index)@, old(list)@),
    ensures
        is_index_of(final(index)@, final(list)@),
        final(list)@ == if old(list)@.contains(v) {
            old(list)@
        } else {
            old(list)@.push(v)
        },
        r < final(list)@.len(),
        final(list)@[r as int] == v,
{
    let ghost before = list@;
    let ghost map_before = index@;
    let r = provide_variable_idx(index, &v);
    proof {
        if before.contains(v) {
            let i = choose|i: int| 0 <= i < before.len() && before[i] == v;
            assert(map_before.contains_key(before[i].id));
        }
        if map_before.contains_key(v.id) {
            assert(before[map_before[v.id] as int].id == v.id);
            assert(before[map_before[v.id] as int] == v);
        }
    }
    if r == list.len() {
        list.push(v);
        proof {
            assert(!map_before.contains_key(v.id));
            assert(index@.dom() =~= map_before.dom().insert(v.id));
            assert forall|i: int| 0 <= i < list@.len() implies index@.contains_key(
                (#[trigger] list@[i]).id,
            ) && index@[list@[i].id] == i by {
                if i < before.len() {
                    assert(list@[i] == before[i]);
                    assert(map_before.contains_key(before[i].id));
                }
            }
            assert forall|k: isize| index@.contains_key(k) implies (#[trigger] index@[k])
                < list@.len() && list@[index@[k] as int].id == k by {
                if k != v.id {
                    assert(map_before.contains_key(k));
                    assert(list@[map_before[k] as int] == before[map_before[k] as int]);
                }
            }
        }
    }
    r
}

/// Gives every variable of `lc` a column.
fn register_all<T>(
    index: &mut HashMap<isize, usize>,
    list: &mut Vec<Variable>,
    lc: &LinComb<T>,
    Ghost(seen): Ghost<Seq<Variable>>,
)
    requires
        is_index_of(old(index)@, old(list)@),
        old(list)@ == distinct(seen),
    ensures
        is_index_of(final(index)@, final(list)@),
        final(list)@ == distinct(seen + variables_of(*lc)),
{
    let mut i: usize = 0;
    proof {
        assert(seen + variables_of(*lc).subrange(0, 0) =~= seen);
    }
    while i < lc.terms.len()
        invariant
            i <= lc.terms@.len(),
            is_index_of(index@, list@),
            list@ == distinct(seen + variables_of(*lc).subrange(0, i as int)),
        decreases lc.terms.len() - i,
    {
        let v = lc.terms[i].0;
        proof {
            let so_far = seen + variables_of(*lc).subrange(0, i as int);
            lemma_distinct_push(so_far, v);
            assert(so_far.push(v) =~= seen + variables_of(*lc).subrange(0, i + 1));
        }
        register(index, list, v);
        i = i + 1;
    }
    proof {
        assert(variables_of(*lc).subrange(0, i as int) =~= variables_of(*lc));
    }
}

/// `lc` with every variable replaced by its column.
fn lower<T: Copy>(index: &HashMap<isize, usize>, lc: &LinComb<T>, Ghost(cols): Ghost<Seq<Variable>>) -> (row:
    Row<T>)
    requires
        is_index_of(index@, cols),
        forall|i: int| 0 <= i < lc.terms@.len() ==> cols.contains(#[trigger] lc.terms@[i].0),
    ensures
        is_lowered(cols, *lc, row@),
{
    let mut row: Row<T> = Vec::new();
    let mut i: usize = 0;
    while i < lc.terms.len()
        invariant
            i <= lc.terms@.len(),
            row@.len() == i,
            is_index_of(index@, cols),
            forall|i: int| 0 <= i < lc.terms@.len() ==> cols.contains(#[trigger] lc.terms@[i].0),
            forall|j: int|
                0 <= j < i ==> (#[trigger] row@[j]).1 == lc.terms@[j].1 && row@[j].0 < cols.len()
                    && cols[row@[j].0 as int] == lc.terms@[j].0,
        decreases lc.terms.len() - i,
    {
        let v = lc.terms[i].0;
        let coefficient = lc.terms[i].1;
        proof {
            assert(cols.contains(lc.terms@[i as int].0));
            let k = choose|k: int| 0 <= k < cols.len() && cols[k] == v;
            assert(index@.contains_key(cols[k].id));
        }
        let column = match index.get(&v.id) {
            Some(c) => *c,
            None => 0,
        };
        proof {
            assert(cols[column as int].id == v.id);
            assert(cols[column as int] == v);
        }
        row.push((column, coefficient));
        i = i + 1;
    }
    row
}

/// Every variable of a statement among the first `n` is among the variables
/// that these statements constrain.
pub proof fn lemma_body_contains<T>(statements: Seq<Statement<T>>, n: nat, i: int, v: Variable)
    requires
        0 <= i < n <= statements.len(),
        statement_variables(statements[i]).contains(v),
    ensures
        body_variables(statements, n).contains(v),
    decreases n,
{
    let last = statement_variables(statements[n - 1]);
    let before = body_variables(statements, (n - 1) as nat);
    if i == n - 1 {
        let j = choose|j: int| 0 <= j < last.len() && last[j] == v;
        assert((before + last)[before.len() + j] == v);
    } else {
        lemma_body_contains(statements, (n - 1) as nat, i, v);
        let j = choose|j: int| 0 <= j < before.len() && before[j] == v;
        assert((before + last)[j] == v);
    }
}

/// Calculates the rank-1 constraint system of a program: the variables in
/// the order of their columns, the number of public variables, which come
/// first, and the constraints as rows of the three matrices. Directives are
/// no constraints and leave no row.
pub fn r1cs_program<T: Copy>(prog: Prog<T>) -> (r: (Vec<Variable>, usize, Vec<Constraint<T>>))
    requires
        prog.return_count <= isize::MAX,
    ensures
        r.0@ == columns(prog),
        r.1 == distinct(public_variables(prog)).len(),
        are_lowered(columns(prog), prog.statements@, prog.statements@.len(), r.2@),
{
    let mut index: HashMap<isize, usize> = HashMap::new();
    let mut list: Vec<Variable> = Vec::new();
    let ghost mut seen: Seq<Variable> = Seq::empty();
    proof {
        assert(index@.dom() =~= Set::<isize>::empty());
        assert(distinct(seen) =~= Seq::<Variable>::empty());
    }
    register(&mut index, &mut list, Variable::one());
    proof {
        lemma_distinct_push(seen, Variable::spec_one());
        seen = seen.push(Variable::spec_one());
        assert(seen =~= seq![Variable::spec_one()] + public_arguments(prog.arguments@, 0));
    }
    let mut a: usize = 0;
    while a < prog.arguments.len()
        invariant
            a <= prog.arguments@.len(),
            is_index_of(index@, list@),
            list@ == distinct(seen),
            seen == seq![Variable::spec_one()] + public_arguments(prog.arguments@, a as nat),
        decreases prog.arguments.len() - a,
    {
        let p = prog.arguments[a];
        if !p.private {
            proof {
                lemma_distinct_push(seen, p.id);
            }
            register(&mut index, &mut list, p.id);
            proof {
                seen = seen.push(p.id);
            }
        }
        a = a + 1;
        proof {
            assert(seen =~= seq![Variable::spec_one()] + public_arguments(
                prog.arguments@,
                a as nat,
            ));
        }
    }
    let ghost inputs = seen;
    let mut o: usize = 0;
    proof {
        assert(seen =~= inputs + public_outputs(0));
    }
    while o < prog.return_count
        invariant
            o <= prog.return_count <= isize::MAX,
            is_index_of(index@, list@),
            list@ == distinct(seen),
            seen == inputs + public_outputs(o as nat),
        decreases prog.return_count - o,
    {
        let v = Variable::public(o);
        proof {
            lemma_distinct_push(seen, v);
        }
        register(&mut index, &mut list, v);
        proof {
            seen = seen.push(v);
            assert(seen =~= inputs + public_outputs((o + 1) as nat));
        }
        o = o + 1;
    }
    let private_inputs_offset = list.len();
    proof {
        assert(seen =~= public_variables(prog));
    }
    let ghost header = seen;
    let mut i: usize = 0;
    proof {
        assert(seen =~= header + body_variables(prog.statements@, 0));
    }
    while i < prog.statements.len()
        invariant
            i <= prog.statements@.len(),
            is_index_of(index@, list@),
            list@ == distinct(seen),
            seen == header + body_variables(prog.statements@, i as nat),
        decreases prog.statements.len() - i,
    {
        match &prog.statements[i] {
            Statement::Constraint(quad, lin, _) => {
                let ghost start = seen;
                register_all(&mut index, &mut list, &quad.left, Ghost(seen));
                proof {
                    seen = seen + variables_of(quad.left);
                }
                register_all(&mut index, &mut list, &quad.right, Ghost(seen));
                proof {
                    seen = seen + variables_of(quad.right);
                }
                register_all(&mut index, &mut list, lin, Ghost(seen));
                proof {
                    seen = seen + variables_of(*lin);
                    assert(seen =~= start + statement_variables(prog.statements@[i as int]));
                }
            },
            Statement::Directive(_) => {
                proof {
                    assert(seen =~= seen + statement_variables(prog.statements@[i as int]));
                }
            },
        }
        i = i + 1;
        proof {
            assert(seen =~= header + body_variables(prog.statements@, i as nat));
        }
    }
    proof {
        assert(seen == occurrences(prog));
    }
    let ghost cols = list@;
    let mut constraints: Vec<Constraint<T>> = Vec::new();
    let mut j: usize = 0;
    while j < prog.statements.len()
        invariant
            j <= prog.statements@.len(),
            is_index_of(index@, cols),
            cols == columns(prog),
            seen == occurrences(prog),
            seen == header + body_variables(prog.statements@, prog.statements@.len()),
            are_lowered(cols, prog.statements@, j as nat, constraints@),
        decreases prog.statements.len() - j,
    {
        let ghost rows_before = constraints@;
        match &prog.statements[j] {
            Statement::Constraint(quad, lin, _) => {
                proof {
                    let s = prog.statements@[j as int];
                    let body = body_variables(prog.statements@, prog.statements@.len());
                    let all = statement_variables(s);
                    assert forall|v: Variable| all.contains(v) implies cols.contains(v) by {
                        lemma_body_contains(
                            prog.statements@,
                            prog.statements@.len(),
                            j as int,
                            v,
                        );
                        let k = choose|k: int| 0 <= k < body.len() && body[k] == v;
                        assert(seen[header.len() + k] == v);
                        lemma_distinct_contains(seen, v);
                    }
                    let l = variables_of(quad.left);
                    let r = variables_of(quad.right);
                    let c = variables_of(*lin);
                    assert forall|t: int| 0 <= t < quad.left.terms@.len() implies cols.contains(
                        #[trigger] quad.left.terms@[t].0,
                    ) by {
                        assert(all[t] == l[t]);
                        assert(all.contains(quad.left.terms@[t].0));
                    }
                    assert forall|t: int| 0 <= t < quad.right.terms@.len() implies cols.contains(
                        #[trigger] quad.right.terms@[t].0,
                    ) by {
                        assert(all[l.len() + t] == r[t]);
                        assert(all.contains(quad.right.terms@[t].0));
                    }
                    assert forall|t: int| 0 <= t < lin.terms@.len() implies cols.contains(
                        #[trigger] lin.terms@[t].0,
                    ) by {
                        assert(all[l.len() + r.len() + t] == c[t]);
                        assert(all.contains(lin.terms@[t].0));
                    }
                }
                let a_row = lower(&index, &quad.left, Ghost(cols));
                let b_row = lower(&index, &quad.right, Ghost(cols));
                let c_row = lower(&index, lin, Ghost(cols));
                constraints.push((a_row, b_row, c_row));
            },
            Statement::Directive(_) => {},
        }
        j = j + 1;
        proof {
            assert forall|i: int| 0 <= i < j implies (#[trigger] prog.statements@[i] matches Statement::Constraint(
                quad,
                lin,
                _,
            ) ==> {
                let row = constraints@[constraint_count(prog.statements@, i as nat) as int];
                &&& is_lowered(cols, quad.left, row.0@)
                &&& is_lowered(cols, quad.right, row.1@)
                &&& is_lowered(cols, lin, row.2@)
            }) by {
                if i < j - 1 {
                    lemma_constraint_count_bound(prog.statements@, i as nat, (j - 1) as nat);
                    if prog.statements@[i] is Constraint {
                        assert(constraints@[constraint_count(prog.statements@, i as nat) as int]
                            == rows_before[constraint_count(prog.statements@, i as nat) as int]);
                    }
                }
            }
        }
    }
    (list, private_inputs_offset, constraints)
}

/// A constraint among the statements from `i` on is counted after the
/// constraints before `i`.
pub proof fn lemma_constraint_count_bound<T>(statements: Seq<Statement<T>>, i: nat, n: nat)
    requires
        i < n,
    ensures
        constraint_count(statements, i) <= constraint_count(statements, n),
        statements[i as int] is Constraint ==> constraint_count(statements, i) < constraint_count(
            statements,
            n,
        ),
    decreases n,
{
    if i < n - 1 {
        lemma_constraint_count_bound(statements, i, (n - 1) as nat);
    }
}


/// One of the three rows of a constraint: 0 for `a`, 1 for `b`, anything
/// else for `c`.
pub open spec fn side_of<T>(c: Constraint<T>, side: int) -> Seq<(usize, T)> {
    if side == 0 {
        c.0@
    } else if side == 1 {
        c.1@
    } else {
        c.2@
    }
}

/// How many coefficients the first `n` rows of a matrix hold.
pub open spec fn entry_count<T>(rows: Seq<Constraint<T>>, side: int, n: nat) -> nat
    decreases n,
{
    if n == 0 {
        0
    } else {
        entry_count(rows, side, (n - 1) as nat) + side_of(rows[n - 1], side).len()
    }
}

/// Whether `e` is the record of the coefficient `term` in the row `row`.
pub open spec fn is_entry<T: Field>(e: Record, row: int, term: (usize, T)) -> bool {
    &&& e.0 == wrapped(row as usize)
    &&& e.1 == wrapped(term.0)
    &&& is_block(e.2@, term.1.value())
}

/// Whether `entries` are the records of the coefficients of the first `n`
/// rows of a matrix, row by row and within a row in the order of the terms.
pub open spec fn are_entries<T: Field>(
    rows: Seq<Constraint<T>>,
    side: int,
    n: nat,
    entries: Seq<Record>,
) -> bool {
    &&& entries.len() == entry_count(rows, side, n)
    &&& forall|k: int, t: int|
        0 <= k < n && 0 <= t < side_of(rows[k], side).len() ==> is_entry(
            entries[entry_count(rows, side, k as nat) + t],
            k,
            #[trigger] side_of(rows[k], side)[t],
        )
}

pub proof fn lemma_entry_count_grows<T>(rows: Seq<Constraint<T>>, side: int, k: nat, n: nat)
    requires
        k < n,
    ensures
        entry_count(rows, side, k) + side_of(rows[k as int], side).len() <= entry_count(
            rows,
            side,
            n,
        ),
    decreases n,
{
    if k < n - 1 {
        lemma_entry_count_grows(rows, side, k, (n - 1) as nat);
    }
}

/// The records of one of the three matrices.
pub fn collect_entries<T: Field>(constraints: &Vec<Constraint<T>>, side: u8) -> (entries: Vec<Record>)
    ensures
        are_entries(constraints@, side as int, constraints@.len(), entries@),
{
    let ghost rows = constraints@;
    let ghost sd = side as int;
    let mut entries: Vec<Record> = Vec::new();
    let mut k: usize = 0;
    while k < constraints.len()
        invariant
            k <= constraints@.len(),
            rows == constraints@,
            sd == side as int,
            are_entries(rows, sd, k as nat, entries@),
        decreases constraints.len() - k,
    {
        let row: &Row<T> = if side == 0 {
            &constraints[k].0
        } else if side == 1 {
            &constraints[k].1
        } else {
            &constraints[k].2
        };
        assert(row@ == side_of(rows[k as int], sd));
        let number = wrap(k);
        let ghost start = entries@;
        let mut t: usize = 0;
        while t < row.len()
            invariant
                t <= row@.len(),
                k < rows.len(),
                row@ == side_of(rows[k as int], sd),
                number == wrapped(k),
                are_entries(rows, sd, k as nat, start),
                entries@.len() == start.len() + t,
                forall|i: int| 0 <= i < start.len() ==> entries@[i] == start[i],
                forall|u: int|
                    0 <= u < t ==> is_entry(#[trigger] entries@[start.len() + u], k as int, row@[u]),
            decreases row.len() - t,
        {
            let column = wrap(row[t].0);
            let block = field_block(&row[t].1);
            entries.push((number, column, block));
            t = t + 1;
        }
        proof {
            assert forall|k2: int, t2: int|
                0 <= k2 < k + 1 && 0 <= t2 < side_of(rows[k2], sd).len() implies is_entry(
                entries@[entry_count(rows, sd, k2 as nat) + t2],
                k2,
                #[trigger] side_of(rows[k2], sd)[t2],
            ) by {
                if k2 < k {
                    lemma_entry_count_grows(rows, sd, k2 as nat, k as nat);
                    assert(entries@[entry_count(rows, sd, k2 as nat) + t2] == start[entry_count(
                        rows,
                        sd,
                        k2 as nat,
                    ) + t2]);
                } else {
                    assert(is_entry(entries@[start.len() + t2], k as int, row@[t2]));
                }
            }
        }
        k = k + 1;
    }
    entries
}

/// The canonical encodings of field elements, in order.
pub fn prepare_public_inputs<T: Field>(public_inputs: Vec<T>) -> (r: (Vec<[u8; 32]>, usize))
    ensures
        r.1 == public_inputs@.len(),
        r.0@.len() == public_inputs@.len(),
        forall|i: int|
            0 <= i < public_inputs@.len() ==> is_block((#[trigger] r.0@[i])@, public_inputs@[i].value()),
{
    let public_inputs_length = public_inputs.len();
    let mut public_inputs_arr: Vec<[u8; 32]> = Vec::new();
    let mut index: usize = 0;
    while index < public_inputs.len()
        invariant
            index <= public_inputs@.len(),
            public_inputs_arr@.len() == index,
            forall|i: int|
                0 <= i < index ==> is_block(
                    (#[trigger] public_inputs_arr@[i])@,
                    public_inputs@[i].value(),
                ),
        decreases public_inputs.len() - index,
    {
        public_inputs_arr.push(field_block(&public_inputs[index]));
        index = index + 1;
    }
    (public_inputs_arr, public_inputs_length)
}

/// What a backend needs for its setup: the three matrices as bytes and as
/// records, and the numbers of constraints, of variables and of inputs.
pub struct Setup {
    pub a_arr: Vec<u8>,
    pub b_arr: Vec<u8>,
    pub c_arr: Vec<u8>,
    pub a_vec: Vec<Record>,
    pub b_vec: Vec<Record>,
    pub c_vec: Vec<Record>,
    pub num_constraints: usize,
    pub num_variables: usize,
    pub num_inputs: usize,
}

/// Whether `setup` encodes the constraints `rows` over `num_variables`
/// variables, the first `public_variables_count` of which are public.
pub open spec fn is_setup_of<T: Field>(
    setup: Setup,
    rows: Seq<Constraint<T>>,
    num_variables: nat,
    public_variables_count: nat,
) -> bool {
    &&& setup.num_constraints == rows.len()
    &&& setup.num_variables == num_variables
    &&& setup.num_inputs == public_variables_count - 1
    &&& are_entries(rows, 0, rows.len(), setup.a_vec@)
    &&& are_entries(rows, 1, rows.len(), setup.b_vec@)
    &&& are_entries(rows, 2, rows.len(), setup.c_vec@)
    &&& setup.a_arr@ == encoded_records(setup.a_vec@, setup.a_vec@.len())
    &&& setup.b_arr@ == encoded_records(setup.b_vec@, setup.b_vec@.len())
    &&& setup.c_arr@ == encoded_records(setup.c_vec@, setup.c_vec@.len())
}

/// Encodes a constraint system for a backend.
pub fn encode_setup<T: Field>(
    num_variables: usize,
    public_variables_count: usize,
    constraints: &Vec<Constraint<T>>,
) -> (setup: Setup)
    requires
        public_variables_count >= 1,
    ensures
        is_setup_of(setup, constraints@, num_variables as nat, public_variables_count as nat),
{
    let a_vec = collect_entries(constraints, 0);
    let b_vec = collect_entries(constraints, 1);
    let c_vec = collect_entries(constraints, 2);
    Setup {
        a_arr: encode_records(&a_vec),
        b_arr: encode_records(&b_vec),
        c_arr: encode_records(&c_vec),
        a_vec,
        b_vec,
        c_vec,
        num_constraints: constraints.len(),
        num_variables,
        num_inputs: public_variables_count - 1,
    }
}

/// The constant one is always a public variable.
pub proof fn lemma_one_is_public<T>(prog: Prog<T>)
    ensures
        1 <= distinct(public_variables(prog)).len() <= columns(prog).len(),
{
    let one = seq![Variable::spec_one()];
    let rest = public_arguments(prog.arguments@, prog.arguments@.len()) + public_outputs(
        prog.return_count as nat,
    );
    assert(public_variables(prog) =~= one + rest);
    lemma_distinct_prefix(one, rest);
    assert(one.drop_last() =~= Seq::<Variable>::empty());
    assert(distinct(one.drop_last()) =~= Seq::<Variable>::empty());
    assert(distinct(one) =~= one);
    lemma_distinct_prefix(
        public_variables(prog),
        body_variables(prog.statements@, prog.statements@.len()),
    );
}

/// Lowers a program to its constraint system and encodes the system for a
/// backend: the bytes of the three matrices, their records, and the numbers
/// of constraints, of variables and of inputs.
pub fn prepare_setup<T: Field>(program: Prog<T>) -> (r: (
    Vec<u8>,
    Vec<u8>,
    Vec<u8>,
    Vec<Record>,
    Vec<Record>,
    Vec<Record>,
    usize,
    usize,
    usize,
))
    requires
        program.return_count <= isize::MAX,
    ensures
        exists|rows: Seq<Constraint<T>>|
            are_lowered(
                columns(program),
                program.statements@,
                program.statements@.len(),
                rows,
            ) && is_setup_of(
                (Setup {
                    a_arr: r.0,
                    b_arr: r.1,
                    c_arr: r.2,
                    a_vec: r.3,
                    b_vec: r.4,
                    c_vec: r.5,
                    num_constraints: r.6,
                    num_variables: r.7,
                    num_inputs: r.8,
                }),
                rows,
                columns(program).len(),
                distinct(public_variables(program)).len(),
            ),
{
    proof {
        lemma_one_is_public(program);
    }
    let (variables, public_variables_count, constraints) = r1cs_program(program);
    let setup = encode_setup(variables.len(), public_variables_count, &constraints);
    let r = (
        setup.a_arr,
        setup.b_arr,
        setup.c_arr,
        setup.a_vec,
        setup.b_vec,
        setup.c_vec,
        setup.num_constraints,
        setup.num_variables,
        setup.num_inputs,
    );
    proof {
        let again = Setup {
            a_arr: r.0,
            b_arr: r.1,
            c_arr: r.2,
            a_vec: r.3,
            b_vec: r.4,
            c_vec: r.5,
            num_constraints: r.6,
            num_variables: r.7,
            num_inputs: r.8,
        };
        assert(is_setup_of(
            again,
            constraints@,
            columns(program).len(),
            distinct(public_variables(program)).len(),
        ));
    }
    r
}

/// Whether `witness` has a value for every variable of `variables`.
pub open spec fn is_complete<T>(witness: Witness<T>, variables: Seq<Variable>) -> bool {
    forall|i: int|
        0 <= i < variables.len() ==> witness.values@.contains_key((#[trigger] variables[i]).id)
}

/// What a backend needs to generate a proof: the values of the public
/// variables and of the private variables, in the order of the columns.
pub struct Assignment {
    pub public_inputs_arr: Vec<[u8; 32]>,
    pub public_inputs_length: usize,
    /// The values of the private variables. It is never empty: where there
    /// is no private variable, it holds one zero.
    pub private_inputs_arr: Vec<[u8; 32]>,
    pub private_inputs_length: usize,
}

/// Whether `assignment` holds the values that `witness` gives to
/// `variables`, the first `public_variables_count` of which are public.
pub open spec fn is_assignment_of<T: Field>(
    assignment: Assignment,
    witness: Witness<T>,
    variables: Seq<Variable>,
    public_variables_count: nat,
) -> bool {
    &&& assignment.public_inputs_length == public_variables_count
    &&& assignment.public_inputs_arr@.len() == public_variables_count
    &&& assignment.private_inputs_length == variables.len() - public_variables_count
    &&& forall|i: int|
        0 <= i < public_variables_count ==> is_block(
            (#[trigger] assignment.public_inputs_arr@[i])@,
            witness.values@[variables[i].id].value(),
        )
    &&& if assignment.private_inputs_length == 0 {
        assignment.private_inputs_arr@.len() == 1 && assignment.private_inputs_arr@[0]@
            == zero_bytes(32)
    } else {
        assignment.private_inputs_arr@.len() == assignment.private_inputs_length
    }
    &&& forall|i: int|
        0 <= i < assignment.private_inputs_length ==> is_block(
            (#[trigger] assignment.private_inputs_arr@[i])@,
            witness.values@[variables[public_variables_count + i].id].value(),
        )
}

/// Lays out the values of a witness for a backend.
pub fn encode_assignment<T: Field>(
    variables: &Vec<Variable>,
    public_variables_count: usize,
    witness: &Witness<T>,
) -> (assignment: Assignment)
    requires
        public_variables_count <= variables@.len(),
        is_complete(*witness, variables@),
    ensures
        is_assignment_of(assignment, *witness, variables@, public_variables_count as nat),
{
    let mut public_inputs_arr: Vec<[u8; 32]> = Vec::new();
    let mut private_inputs_arr: Vec<[u8; 32]> = Vec::new();
    let mut index: usize = 0;
    while index < variables.len()
        invariant
            index <= variables@.len(),
            public_variables_count <= variables@.len(),
            is_complete(*witness, variables@),
            index <= public_variables_count ==> public_inputs_arr@.len() == index
                && private_inputs_arr@.len() == 0,
            index > public_variables_count ==> public_inputs_arr@.len() == public_variables_count
                && private_inputs_arr@.len() == index - public_variables_count,
            forall|i: int|
                0 <= i < public_inputs_arr@.len() ==> is_block(
                    (#[trigger] public_inputs_arr@[i])@,
                    witness.values@[variables@[i].id].value(),
                ),
            forall|i: int|
                0 <= i < private_inputs_arr@.len() ==> is_block(
                    (#[trigger] private_inputs_arr@[i])@,
                    witness.values@[variables@[public_variables_count + i].id].value(),
                ),
        decreases variables.len() - index,
    {
        let v = variables[index];
        assert(witness.values@.contains_key(variables@[index as int].id));
        let block = match witness.values.get(&v.id) {
            Some(value) => field_block(value),
            None => [0u8;32],
        };
        if index < public_variables_count {
            public_inputs_arr.push(block);
        } else {
            private_inputs_arr.push(block);
        }
        index = index + 1;
    }
    let public_inputs_length = public_inputs_arr.len();
    let private_inputs_length = private_inputs_arr.len();
    if private_inputs_length == 0 {
        let zero = [0u8;32];
        assert(zero@ =~= zero_bytes(32));
        private_inputs_arr.push(zero);
    }
    Assignment {
        public_inputs_arr,
        public_inputs_length,
        private_inputs_arr,
        private_inputs_length,
    }
}

/// Lowers a program to find the order of its variables, and lays out the
/// values of a witness in that order: the values of the public variables and
/// their number, the values of the private variables and their number.
pub fn prepare_generate_proof<T: Field>(program: Prog<T>, witness: Witness<T>) -> (r: (
    Vec<[u8; 32]>,
    usize,
    Vec<[u8; 32]>,
    usize,
))
    requires
        program.return_count <= isize::MAX,
        is_complete(witness, columns(program)),
    ensures
        is_assignment_of(
            (Assignment {
                public_inputs_arr: r.0,
                public_inputs_length: r.1,
                private_inputs_arr: r.2,
                private_inputs_length: r.3,
            }),
            witness,
            columns(program),
            distinct(public_variables(program)).len(),
        ),
{
    proof {
        lemma_one_is_public(program);
    }
    let (variables, public_variables_count, _) = r1cs_program(program);
    let a = encode_assignment(&variables, public_variables_count, &witness);
    (a.public_inputs_arr, a.public_inputs_length, a.private_inputs_arr, a.private_inputs_length)
}

} // verus!
