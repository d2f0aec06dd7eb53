//! The constraint program: what the flat program becomes once every
//! statement is a quadratic constraint or a directive.

use crate::common::{Parameter, RuntimeError, Solver, Variable};
use std::collections::HashMap;
use vstd::prelude::*;

verus! {

/// A linear combination of variables: the sum of `coefficient * variable`
/// over its terms.
#[derive(Debug, PartialEq)]
pub struct LinComb<T> {
    pub terms: Vec<(Variable, T)>,
}

/// The product of two linear combinations.
#[derive(Debug, PartialEq)]
pub struct QuadComb<T> {
    pub left: LinComb<T>,
    pub right: LinComb<T>,
}

#[derive(Debug, PartialEq)]
pub struct Directive<T> {
    pub inputs: Vec<QuadComb<T>>,
    pub outputs: Vec<Variable>,
    pub solver: Solver,
}

#[derive(Debug, PartialEq)]
pub enum Statement<T> {
    /// `quad.left * quad.right == lin`.
    Constraint(QuadComb<T>, LinComb<T>, Option<RuntimeError>),
    Directive(Directive<T>),
}

#[derive(Debug, PartialEq)]
pub struct Prog<T> {
    pub arguments: Vec<Parameter>,
    pub return_count: usize,
    pub statements: Vec<Statement<T>>,
}

/// A value for every variable of a program, by the number of the variable.
pub struct Witness<T> {
    pub values: HashMap<isize, T>,
}

/// The variables of the terms of `lc`, in order.
pub open spec fn variables_of<T>(lc: LinComb<T>) -> Seq<Variable> {
    Seq::new(lc.terms@.len(), |i: int| lc.terms@[i].0)
}

/// The variables that a statement constrains, in the order in which they are
/// met: left factor, right factor, linear side. A directive constrains none.
pub open spec fn statement_variables<T>(s: Statement<T>) -> Seq<Variable> {
    match s {
        Statement::Constraint(quad, lin, _) => variables_of(quad.left) + variables_of(quad.right)
            + variables_of(lin),
        Statement::Directive(_) => Seq::empty(),
    }
}

/// The variables that the first `n` statements constrain.
pub open spec fn body_variables<T>(statements: Seq<Statement<T>>, n: nat) -> Seq<Variable>
    decreases n,
{
    if n == 0 {
        Seq::empty()
    } else {
        body_variables(statements, (n - 1) as nat) + statement_variables(statements[n - 1])
    }
}

/// The variables of those of the first `n` arguments that are not private.
pub open spec fn public_arguments(arguments: Seq<Parameter>, n: nat) -> Seq<Variable>
    decreases n,
{
    if n == 0 {
        Seq::empty()
    } else if arguments[n - 1].private {
        public_arguments(arguments, (n - 1) as nat)
    } else {
        public_arguments(arguments, (n - 1) as nat).push(arguments[n - 1].id)
    }
}

/// The variables of the first `n` public outputs.
pub open spec fn public_outputs(n: nat) -> Seq<Variable> {
    Seq::new(n, |i: int| Variable::spec_public(i as usize))
}

/// The public variables of a program: the constant one, the arguments that
/// are not private, the outputs.
pub open spec fn public_variables<T>(prog: Prog<T>) -> Seq<Variable> {
    seq![Variable::spec_one()] + public_arguments(prog.arguments@, prog.arguments@.len())
        + public_outputs(prog.return_count as nat)
}

/// Every mention of a variable that decides the layout, in order: the public
/// variables, then the variables of the constraints.
pub open spec fn occurrences<T>(prog: Prog<T>) -> Seq<Variable> {
    public_variables(prog) + body_variables(prog.statements@, prog.statements@.len())
}

/// `s` without the repetitions: each variable stays where it is met first.
pub open spec fn distinct(s: Seq<Variable>) -> Seq<Variable>
    decreases s.len(),
{
    if s.len() == 0 {
        Seq::empty()
    } else {
        let before = distinct(s.drop_last());
        if before.contains(s.last()) {
            before
        } else {
            before.push(s.last())
        }
    }
}

/// The columns of the constraint matrices: the variables of the program,
/// each at the place where it is met first.
pub open spec fn columns<T>(prog: Prog<T>) -> Seq<Variable> {
    distinct(occurrences(prog))
}

pub proof fn lemma_distinct_push(s: Seq<Variable>, v: Variable)
    ensures
        distinct(s.push(v)) == if distinct(s).contains(v) {
            distinct(s)
        } else {
            distinct(s).push(v)
        },
{
    assert(s.push(v).drop_last() =~= s);
}

/// A sequence without repetitions holds exactly the variables of the
/// sequence it was made from.
pub proof fn lemma_distinct_contains(s: Seq<Variable>, v: Variable)
    ensures
        distinct(s).contains(v) <==> s.contains(v),
    decreases s.len(),
{
    if s.len() > 0 {
        let before = distinct(s.drop_last());
        lemma_distinct_contains(s.drop_last(), v);
        if s.contains(v) {
            let i = choose|i: int| 0 <= i < s.len() && s[i] == v;
            if i < s.len() - 1 {
                assert(s.drop_last()[i] == v);
                assert(before.contains(v));
                if !before.contains(s.last()) {
                    let j = choose|j: int| 0 <= j < before.len() && before[j] == v;
                    assert(before.push(s.last())[j] == v);
                }
            } else {
                if !before.contains(s.last()) {
                    assert(before.push(s.last())[before.len() as int] == v);
                }
            }
        }
        if distinct(s).contains(v) {
            let j = choose|j: int| 0 <= j < distinct(s).len() && distinct(s)[j] == v;
            if j < before.len() {
                assert(before[j] == v);
                assert(before.contains(v));
                let i = choose|i: int| 0 <= i < s.drop_last().len() && s.drop_last()[i] == v;
                assert(s[i] == v);
            } else {
                assert(s[s.len() - 1] == v);
            }
        }
    }
}

/// No variable is twice among the columns.
pub proof fn lemma_distinct_no_duplicates(s: Seq<Variable>)
    ensures
        distinct(s).no_duplicates(),
    decreases s.len(),
{
    if s.len() > 0 {
        lemma_distinct_no_duplicates(s.drop_last());
    }
}

/// What is met later does not move what was met before.
pub proof fn lemma_distinct_prefix(a: Seq<Variable>, b: Seq<Variable>)
    ensures
        distinct(a).len() <= distinct(a + b).len(),
        distinct(a + b).subrange(0, distinct(a).len() as int) == distinct(a),
    decreases b.len(),
{
    if b.len() == 0 {
        assert(a + b =~= a);
        assert(distinct(a).subrange(0, distinct(a).len() as int) =~= distinct(a));
    } else {
        lemma_distinct_prefix(a, b.drop_last());
        assert((a + b).drop_last() =~= a + b.drop_last());
        let before = distinct(a + b.drop_last());
        assert(distinct(a + b).subrange(0, distinct(a).len() as int) =~= before.subrange(
            0,
            distinct(a).len() as int,
        ));
    }
}

/// A sequence without repetitions is its own list of columns.
pub proof fn lemma_distinct_of_no_duplicates(s: Seq<Variable>)
    requires
        s.no_duplicates(),
    ensures
        distinct(s) == s,
    decreases s.len(),
{
    if s.len() > 0 {
        assert(s.drop_last().no_duplicates());
        lemma_distinct_of_no_duplicates(s.drop_last());
        lemma_distinct_contains(s.drop_last(), s.last());
        if s.drop_last().contains(s.last()) {
            let i = choose|i: int| 0 <= i < s.drop_last().len() && s.drop_last()[i] == s.last();
            assert(s[i] == s[s.len() - 1]);
        }
        assert(s.drop_last().push(s.last()) =~= s);
    } else {
        assert(s =~= Seq::<Variable>::empty());
    }
}

/// Column stability: the constant one is the first column. Where no public
/// variable is named twice, the public variables are the first columns, in
/// their order: the constant one, the arguments that are not private in the
/// order of the source, then the outputs in order.
pub proof fn lemma_public_variables_first<T>(prog: Prog<T>)
    ensures
        columns(prog).len() > 0,
        columns(prog)[0] == Variable::spec_one(),
        public_variables(prog).no_duplicates() ==> {
            let k = public_arguments(prog.arguments@, prog.arguments@.len());
            let n = public_variables(prog).len();
            &&& distinct(public_variables(prog)) == public_variables(prog)
            &&& n == 1 + k.len() + prog.return_count
            &&& n <= columns(prog).len()
            &&& columns(prog).subrange(0, n as int) == public_variables(prog)
            &&& forall|j: int| 1 <= j < 1 + k.len() ==> #[trigger] columns(prog)[j] == k[j - 1]
            &&& forall|j: int|
                1 + k.len() <= j < n ==> #[trigger] columns(prog)[j] == Variable::spec_public(
                    (j - 1 - k.len()) as usize,
                )
        },
{
    let one = seq![Variable::spec_one()];
    let k = public_arguments(prog.arguments@, prog.arguments@.len());
    let rest = k + public_outputs(prog.return_count as nat) + body_variables(
        prog.statements@,
        prog.statements@.len(),
    );
    assert(occurrences(prog) =~= one + rest);
    lemma_distinct_prefix(one, rest);
    assert(one.drop_last() =~= Seq::<Variable>::empty());
    assert(distinct(one.drop_last()) =~= Seq::<Variable>::empty());
    assert(distinct(one) =~= one);
    assert(columns(prog).subrange(0, 1)[0] == one[0]);
    if public_variables(prog).no_duplicates() {
        let p = public_variables(prog);
        lemma_distinct_of_no_duplicates(p);
        lemma_distinct_prefix(p, body_variables(prog.statements@, prog.statements@.len()));
        let n = p.len() as int;
        assert forall|j: int| 1 <= j < 1 + k.len() implies #[trigger] columns(prog)[j] == k[j
            - 1] by {
            assert(columns(prog).subrange(0, n)[j] == p[j]);
        }
        assert forall|j: int| 1 + k.len() <= j < n implies #[trigger] columns(prog)[j]
            == Variable::spec_public((j - 1 - k.len()) as usize) by {
            assert(columns(prog).subrange(0, n)[j] == p[j]);
        }
    }
}

} // verus!
