//! Removal of repeated directives.
//!
//! Two directives that run the same solver on the same inputs compute the
//! same outputs. The second one is dropped, and from there on its outputs are
//! read as the outputs of the first.

use crate::common::{Solver, Variable};
use crate::expressions::{BinaryExpression, IdentifierExpression, ValueExpression};
use crate::field::Field;
use crate::flat::{
    is_substituted, substitute_expressions, substitute_variables, substituted_expressions,
    substituted_variables, FlatDirective, FlatExpression, FlatStatement, Substitution,
};
use crate::common::same_span;
use std::collections::HashMap;
use vstd::prelude::*;

verus! {

impl<T: Field> FlatExpression<T> {
    /// Whether the two trees are the same tree.
    pub fn same(&self, other: &FlatExpression<T>) -> (r: bool)
        ensures
            r == (*self == *other),
        decreases *self,
    {
        match self {
            FlatExpression::Number(a) => match other {
                FlatExpression::Number(b) => same_span(&a.span, &b.span) && a.value.same(&b.value),
                _ => false,
            },
            FlatExpression::Identifier(a) => match other {
                FlatExpression::Identifier(b) => same_span(&a.span, &b.span) && a.id == b.id,
                _ => false,
            },
            FlatExpression::Add(a) => match other {
                FlatExpression::Add(b) => same_span(&a.span, &b.span) && a.left.same(&b.left)
                    && a.right.same(&b.right),
                _ => false,
            },
            FlatExpression::Sub(a) => match other {
                FlatExpression::Sub(b) => same_span(&a.span, &b.span) && a.left.same(&b.left)
                    && a.right.same(&b.right),
                _ => false,
            },
            FlatExpression::Mult(a) => match other {
                FlatExpression::Mult(b) => same_span(&a.span, &b.span) && a.left.same(&b.left)
                    && a.right.same(&b.right),
                _ => false,
            },
        }
    }
}

impl<T: Field> Clone for FlatExpression<T> {
    fn clone(&self) -> (r: Self)
        ensures
            r == *self,
        decreases *self,
    {
        match self {
            FlatExpression::Number(a) => FlatExpression::Number(
                ValueExpression { span: a.span, value: a.value },
            ),
            FlatExpression::Identifier(a) => FlatExpression::Identifier(
                IdentifierExpression::with_span(a.id, a.span),
            ),
            FlatExpression::Add(a) => FlatExpression::Add(
                BinaryExpression::with_span((*a.left).clone(), (*a.right).clone(), a.span),
            ),
            FlatExpression::Sub(a) => FlatExpression::Sub(
                BinaryExpression::with_span((*a.left).clone(), (*a.right).clone(), a.span),
            ),
            FlatExpression::Mult(a) => FlatExpression::Mult(
                BinaryExpression::with_span((*a.left).clone(), (*a.right).clone(), a.span),
            ),
        }
    }
}

/// Whether the two lists hold the same trees in the same order.
pub fn same_expressions<T: Field>(a: &Vec<FlatExpression<T>>, b: &Vec<FlatExpression<T>>) -> (r: bool)
    ensures
        r == (a@ == b@),
{
    if a.len() != b.len() {
        return false;
    }
    let mut i: usize = 0;
    while i < a.len()
        invariant
            i <= a.len(),
            a.len() == b.len(),
            forall|j: int| 0 <= j < i ==> a@[j] == b@[j],
        decreases a.len() - i,
    {
        if !a[i].same(&b[i]) {
            return false;
        }
        i = i + 1;
    }
    assert(a@ =~= b@);
    true
}

pub fn clone_expressions<T: Field>(a: &Vec<FlatExpression<T>>) -> (r: Vec<FlatExpression<T>>)
    ensures
        r@ == a@,
{
    let mut out: Vec<FlatExpression<T>> = Vec::new();
    let mut i: usize = 0;
    while i < a.len()
        invariant
            i <= a.len(),
            out@.len() == i,
            forall|j: int| 0 <= j < i ==> out@[j] == a@[j],
        decreases a.len() - i,
    {
        out.push(a[i].clone());
        i = i + 1;
    }
    assert(out@ =~= a@);
    out
}

pub fn clone_variables(a: &Vec<Variable>) -> (r: Vec<Variable>)
    ensures
        r@ == a@,
{
    let mut out: Vec<Variable> = Vec::new();
    let mut i: usize = 0;
    while i < a.len()
        invariant
            i <= a.len(),
            out@.len() == i,
            forall|j: int| 0 <= j < i ==> out@[j] == a@[j],
        decreases a.len() - i,
    {
        out.push(a[i]);
        i = i + 1;
    }
    assert(out@ =~= a@);
    out
}

/// A directive that was emitted: its solver and inputs, and the variables
/// that hold its outputs.
#[derive(Debug, PartialEq)]
pub struct SolverCall<T> {
    pub solver: Solver,
    pub inputs: Vec<FlatExpression<T>>,
    pub outputs: Vec<Variable>,
}

/// Whether `call` ran `solver` on `inputs`.
pub open spec fn same_call<T>(call: SolverCall<T>, solver: Solver, inputs: Seq<FlatExpression<T>>) -> bool {
    call.solver == solver && call.inputs@ == inputs
}

/// The position of the first call of `solver` on `inputs` among `calls`, or
/// the length of `calls` where there is none.
pub open spec fn first_call<T>(calls: Seq<SolverCall<T>>, solver: Solver, inputs: Seq<FlatExpression<T>>) -> int
    decreases calls.len(),
{
    if calls.len() == 0 {
        0
    } else if same_call(calls[0], solver, inputs) {
        0
    } else {
        1 + first_call(calls.drop_first(), solver, inputs)
    }
}

pub proof fn lemma_first_call<T>(calls: Seq<SolverCall<T>>, solver: Solver, inputs: Seq<FlatExpression<T>>)
    ensures
        0 <= first_call(calls, solver, inputs) <= calls.len(),
        first_call(calls, solver, inputs) < calls.len() ==> same_call(
            calls[first_call(calls, solver, inputs)],
            solver,
            inputs,
        ),
        forall|i: int|
            0 <= i < first_call(calls, solver, inputs) ==> !same_call(
                #[trigger] calls[i],
                solver,
                inputs,
            ),
    decreases calls.len(),
{
    if calls.len() > 0 && !same_call(calls[0], solver, inputs) {
        let rest = calls.drop_first();
        lemma_first_call(rest, solver, inputs);
        assert forall|i: int| 0 <= i < first_call(calls, solver, inputs) implies !same_call(
            #[trigger] calls[i],
            solver,
            inputs,
        ) by {
            if i > 0 {
                assert(calls[i] == rest[i - 1]);
            }
        }
    }
}

/// `substitution` after the first `n` variables of `from` have been renamed
/// to the variables of `to` at the same positions, one after the other.
pub open spec fn renamed(
    substitution: Map<isize, Variable>,
    from: Seq<Variable>,
    to: Seq<Variable>,
    n: nat,
) -> Map<isize, Variable>
    decreases n,
{
    if n == 0 {
        substitution
    } else {
        renamed(substitution, from, to, (n - 1) as nat).insert(from[n - 1].id, to[n - 1])
    }
}

/// The smaller of two lengths.
pub open spec fn shorter(a: nat, b: nat) -> nat {
    if a <= b {
        a
    } else {
        b
    }
}

/// The state of the pass.
pub struct DirectiveOptimizer<T> {
    /// The directives emitted so far.
    pub calls: Vec<SolverCall<T>>,
    /// The renaming of the outputs of the directives that were dropped.
    pub substitution: Substitution,
}

impl<T: Field> DirectiveOptimizer<T> {
    pub fn new() -> (r: Self)
        ensures
            r.calls@.len() == 0,
            r.substitution@ == Map::<isize, Variable>::empty(),
    {
        DirectiveOptimizer { calls: Vec::new(), substitution: HashMap::new() }
    }

    pub fn fold_variable(&self, v: Variable) -> (r: Variable)
        ensures
            r == crate::flat::substituted(self.substitution@, v),
    {
        v.apply_substitution(&self.substitution)
    }

    /// The position of the first emitted call of `solver` on `inputs`.
    pub fn find(&self, solver: Solver, inputs: &Vec<FlatExpression<T>>) -> (r: Option<usize>)
        ensures
            match r {
                Some(i) => i == first_call(self.calls@, solver, inputs@) && i < self.calls@.len(),
                None => first_call(self.calls@, solver, inputs@) == self.calls@.len(),
            },
    {
        proof {
            lemma_first_call(self.calls@, solver, inputs@);
        }
        let mut i: usize = 0;
        while i < self.calls.len()
            invariant
                i <= self.calls@.len(),
                i <= first_call(self.calls@, solver, inputs@) <= self.calls@.len(),
                first_call(self.calls@, solver, inputs@) < self.calls@.len() ==> same_call(
                    self.calls@[first_call(self.calls@, solver, inputs@)],
                    solver,
                    inputs@,
                ),
                forall|j: int|
                    0 <= j < first_call(self.calls@, solver, inputs@) ==> !same_call(
                        #[trigger] self.calls@[j],
                        solver,
                        inputs@,
                    ),
            decreases self.calls.len() - i,
        {
            if self.calls[i].solver == solver && same_expressions(&self.calls[i].inputs, inputs) {
                return Some(i);
            }
            i = i + 1;
        }
        None
    }

    /// Renames the outputs of a dropped directive to the outputs of the
    /// directive that was emitted for the same call.
    pub fn rename(&mut self, from: &Vec<Variable>, to: &Vec<Variable>)
        ensures
            final(self).calls == old(self).calls,
            final(self).substitution@ == renamed(
                old(self).substitution@,
                from@,
                to@,
                shorter(from@.len(), to@.len()),
            ),
    {
        let n = if from.len() <= to.len() {
            from.len()
        } else {
            to.len()
        };
        let mut i: usize = 0;
        while i < n
            invariant
                i <= n,
                n == shorter(from@.len(), to@.len()),
                self.calls == old(self).calls,
                self.substitution@ == renamed(old(self).substitution@, from@, to@, i as nat),
            decreases n - i,
        {
            self.substitution.insert(from[i].id, to[i]);
            i = i + 1;
        }
    }

    /// Rewrites one statement: its variables are renamed; a directive whose
    /// call was emitted before is dropped and its outputs are renamed to the
    /// outputs of that call; any other directive is emitted and remembered.
    pub fn fold_statement(&mut self, s: FlatStatement<T>) -> (r: Vec<FlatStatement<T>>)
        ensures
            match s {
                FlatStatement::Directive(d) => {
                    let inputs = substituted_expressions(d.inputs@, old(self).substitution@);
                    let outputs = substituted_variables(d.outputs@, old(self).substitution@);
                    let at = first_call(old(self).calls@, d.solver, inputs);
                    if at < old(self).calls@.len() {
                        &&& r@.len() == 0
                        &&& final(self).calls == old(self).calls
                        &&& final(self).substitution@ == renamed(
                            old(self).substitution@,
                            outputs,
                            old(self).calls@[at].outputs@,
                            shorter(outputs.len(), old(self).calls@[at].outputs@.len()),
                        )
                    } else {
                        &&& r@.len() == 1
                        &&& is_substituted(s, r@[0], old(self).substitution@)
                        &&& final(self).substitution@ == old(self).substitution@
                        &&& final(self).calls@.len() == old(self).calls@.len() + 1
                        &&& final(self).calls@.drop_last() == old(self).calls@
                        &&& same_call(final(self).calls@.last(), d.solver, inputs)
                        &&& final(self).calls@.last().outputs@ == outputs
                    }
                },
                _ => {
                    &&& r@.len() == 1
                    &&& is_substituted(s, r@[0], old(self).substitution@)
                    &&& final(self).calls == old(self).calls
                    &&& final(self).substitution@ == old(self).substitution@
                },
            },
    {
        match s {
            FlatStatement::Directive(d) => {
                let outputs = substitute_variables(&d.outputs, &self.substitution);
                let inputs = substitute_expressions(d.inputs, &self.substitution);
                match self.find(d.solver, &inputs) {
                    Some(at) => {
                        let previous = clone_variables(&self.calls[at].outputs);
                        self.rename(&outputs, &previous);
                        Vec::new()
                    },
                    None => {
                        self.calls.push(
                            SolverCall {
                                solver: d.solver,
                                inputs: clone_expressions(&inputs),
                                outputs: clone_variables(&outputs),
                            },
                        );
                        assert(self.calls@.drop_last() =~= old(self).calls@);
                        let mut out: Vec<FlatStatement<T>> = Vec::new();
                        out.push(
                            FlatStatement::Directive(
                                FlatDirective { span: d.span, inputs, outputs, solver: d.solver },
                            ),
                        );
                        out
                    },
                }
            },
            s => {
                let mut out: Vec<FlatStatement<T>> = Vec::new();
                out.push(s.apply_substitution(&self.substitution));
                out
            },
        }
    }
}


/// A remembered call as a value: its solver, its inputs, its outputs.
pub ghost struct Call<T> {
    pub solver: Solver,
    pub inputs: Seq<FlatExpression<T>>,
    pub outputs: Seq<Variable>,
}

/// The state of the pass as a value: the calls emitted so far, in order,
/// and the renaming of the outputs of the calls that were dropped.
pub ghost struct State<T> {
    pub calls: Seq<Call<T>>,
    pub substitution: Map<isize, Variable>,
}

impl<T> SolverCall<T> {
    pub open spec fn model(self) -> Call<T> {
        Call { solver: self.solver, inputs: self.inputs@, outputs: self.outputs@ }
    }
}

/// The remembered calls as values.
pub open spec fn models_of<T>(calls: Seq<SolverCall<T>>) -> Seq<Call<T>> {
    Seq::new(calls.len(), |i: int| calls[i].model())
}

/// The position of the first call of `solver` on `inputs` among `calls`, or
/// the length of `calls` where there is none.
pub open spec fn first_known<T>(calls: Seq<Call<T>>, solver: Solver, inputs: Seq<FlatExpression<T>>) -> int
    decreases calls.len(),
{
    if calls.len() == 0 {
        0
    } else if calls[0].solver == solver && calls[0].inputs == inputs {
        0
    } else {
        1 + first_known(calls.drop_first(), solver, inputs)
    }
}

pub proof fn lemma_first_known<T>(calls: Seq<SolverCall<T>>, solver: Solver, inputs: Seq<FlatExpression<T>>)
    ensures
        first_known(models_of(calls), solver, inputs) == first_call(calls, solver, inputs),
    decreases calls.len(),
{
    if calls.len() > 0 {
        assert(models_of(calls)[0] == calls[0].model());
        assert(models_of(calls).drop_first() =~= models_of(calls.drop_first()));
        lemma_first_known(calls.drop_first(), solver, inputs);
    }
}

/// The state after a statement: a directive whose call is known renames its
/// outputs to the outputs of that call; any other directive is remembered;
/// any other statement changes nothing.
pub open spec fn after_statement<T>(state: State<T>, s: FlatStatement<T>) -> State<T> {
    match s {
        FlatStatement::Directive(d) => {
            let inputs = substituted_expressions(d.inputs@, state.substitution);
            let outputs = substituted_variables(d.outputs@, state.substitution);
            let at = first_known(state.calls, d.solver, inputs);
            if at < state.calls.len() {
                State {
                    calls: state.calls,
                    substitution: renamed(
                        state.substitution,
                        outputs,
                        state.calls[at].outputs,
                        shorter(outputs.len(), state.calls[at].outputs.len()),
                    ),
                }
            } else {
                State {
                    calls: state.calls.push(Call { solver: d.solver, inputs, outputs }),
                    substitution: state.substitution,
                }
            }
        },
        _ => state,
    }
}

/// Whether the pass emits a statement: every statement but a directive
/// whose call is known.
pub open spec fn is_emitted<T>(state: State<T>, s: FlatStatement<T>) -> bool {
    match s {
        FlatStatement::Directive(d) => first_known(
            state.calls,
            d.solver,
            substituted_expressions(d.inputs@, state.substitution),
        ) == state.calls.len(),
        _ => true,
    }
}

/// The state of the pass after the first `n` statements.
pub open spec fn state_after<T>(statements: Seq<FlatStatement<T>>, n: nat) -> State<T>
    decreases n,
{
    if n == 0 {
        State { calls: Seq::empty(), substitution: Map::empty() }
    } else {
        after_statement(state_after(statements, (n - 1) as nat), statements[n - 1])
    }
}

/// How many of the first `n` statements the pass emits.
pub open spec fn emitted_count<T>(statements: Seq<FlatStatement<T>>, n: nat) -> nat
    decreases n,
{
    if n == 0 {
        0
    } else {
        emitted_count(statements, (n - 1) as nat) + if is_emitted(
            state_after(statements, (n - 1) as nat),
            statements[n - 1],
        ) {
            1nat
        } else {
            0nat
        }
    }
}

/// Whether `after` is what the pass makes of `before`: the statements that
/// the pass emits, in order, each with its variables renamed as the state
/// of the pass at that statement says.
pub open spec fn is_optimized<T>(before: Seq<FlatStatement<T>>, after: Seq<FlatStatement<T>>) -> bool {
    &&& after.len() == emitted_count(before, before.len())
    &&& forall|i: int|
        0 <= i < before.len() && is_emitted(state_after(before, i as nat), #[trigger] before[i])
            ==> is_substituted(
            before[i],
            after[emitted_count(before, i as nat) as int],
            state_after(before, i as nat).substitution,
        )
}

pub proof fn lemma_emitted_count_grows<T>(statements: Seq<FlatStatement<T>>, i: nat, n: nat)
    requires
        i < n,
    ensures
        emitted_count(statements, i) <= emitted_count(statements, n),
        is_emitted(state_after(statements, i), statements[i as int]) ==> emitted_count(
            statements,
            i,
        ) < emitted_count(statements, n),
    decreases n,
{
    if i < n - 1 {
        lemma_emitted_count_grows(statements, i, (n - 1) as nat);
    }
}

/// Whether the state of the pass is the state that the model gives.
pub open spec fn is_state<T>(calls: Seq<SolverCall<T>>, substitution: Map<isize, Variable>, state: State<T>) -> bool {
    models_of(calls) == state.calls && substitution == state.substitution
}

/// One statement takes the state of the pass to the state that the model
/// gives, where the pass has done what it promises for the statement.
pub proof fn lemma_state_step<T>(
    calls: Seq<SolverCall<T>>,
    substitution: Map<isize, Variable>,
    state: State<T>,
    s: FlatStatement<T>,
    calls2: Seq<SolverCall<T>>,
    substitution2: Map<isize, Variable>,
    emitted: bool,
)
    requires
        is_state(calls, substitution, state),
        match s {
            FlatStatement::Directive(d) => {
                let inputs = substituted_expressions(d.inputs@, substitution);
                let outputs = substituted_variables(d.outputs@, substitution);
                let at = first_call(calls, d.solver, inputs);
                if at < calls.len() {
                    &&& !emitted
                    &&& calls2 == calls
                    &&& substitution2 == renamed(
                        substitution,
                        outputs,
                        calls[at].outputs@,
                        shorter(outputs.len(), calls[at].outputs@.len()),
                    )
                } else {
                    &&& emitted
                    &&& substitution2 == substitution
                    &&& calls2.len() == calls.len() + 1
                    &&& calls2.drop_last() == calls
                    &&& same_call(calls2.last(), d.solver, inputs)
                    &&& calls2.last().outputs@ == outputs
                }
            },
            _ => emitted && calls2 == calls && substitution2 == substitution,
        },
    ensures
        is_state(calls2, substitution2, after_statement(state, s)),
        emitted == is_emitted(state, s),
{
    match s {
        FlatStatement::Directive(d) => {
            let inputs = substituted_expressions(d.inputs@, substitution);
            let outputs = substituted_variables(d.outputs@, substitution);
            lemma_first_known(calls, d.solver, inputs);
            lemma_first_call(calls, d.solver, inputs);
            let at = first_call(calls, d.solver, inputs);
            if at < calls.len() {
                assert(models_of(calls)[at] == calls[at].model());
            } else {
                let added = Call { solver: d.solver, inputs, outputs };
                assert(calls2.last().model() == added);
                assert forall|i: int| 0 <= i < calls.len() implies calls2[i] == calls[i] by {
                    assert(calls2.drop_last()[i] == calls2[i]);
                }
                assert(models_of(calls2) =~= state.calls.push(added));
            }
        },
        _ => {},
    }
}

/// Whether both statements are directives that run the same solver on the
/// same inputs.
pub open spec fn share_call<T>(a: FlatStatement<T>, b: FlatStatement<T>) -> bool {
    &&& a matches FlatStatement::Directive(d)
    &&& b matches FlatStatement::Directive(e)
    &&& d.solver == e.solver
    &&& d.inputs@ == e.inputs@
}

/// Whether no two statements are directives for the same call.
pub open spec fn no_repeated_call<T>(statements: Seq<FlatStatement<T>>) -> bool {
    forall|i: int, j: int|
        0 <= i < j < statements.len() ==> !share_call(
            #[trigger] statements[i],
            #[trigger] statements[j],
        )
}

/// Whether `after` is `before` with its variables renamed in some way.
pub open spec fn is_renamed<T>(before: FlatStatement<T>, after: FlatStatement<T>) -> bool {
    exists|substitution: Map<isize, Variable>| is_substituted(before, after, substitution)
}

/// Whether `source` tells where each statement of `after` comes from in
/// `before`: the statements of `after` are statements of `before` with their
/// variables renamed, in the same order, and none but directives are missing.
pub open spec fn is_selection<T>(
    before: Seq<FlatStatement<T>>,
    after: Seq<FlatStatement<T>>,
    source: Seq<int>,
) -> bool {
    &&& source.len() == after.len()
    &&& forall|k: int|
        0 <= k < source.len() ==> 0 <= #[trigger] source[k] < before.len() && is_renamed(
            before[source[k]],
            after[k],
        )
    &&& forall|k: int, l: int| 0 <= k < l < source.len() ==> source[k] < source[l]
    &&& forall|i: int|
        0 <= i < before.len() && !(#[trigger] before[i] is Directive) ==> source.contains(i)
}

impl<T: Field> DirectiveOptimizer<T> {
    /// Rewrites the statements in order. No two directives of the result run
    /// the same solver on the same inputs.
    pub fn optimize(statements: Vec<FlatStatement<T>>) -> (r: Vec<FlatStatement<T>>)
        ensures
            is_optimized(statements@, r@),
            no_repeated_call(r@),
            exists|source: Seq<int>| is_selection(statements@, r@, source),
    {
        let ghost before = statements@;
        let mut optimizer: DirectiveOptimizer<T> = DirectiveOptimizer::new();
        let mut rest = crate::vectors::reversed(statements);
        let mut out: Vec<FlatStatement<T>> = Vec::new();
        let ghost mut source: Seq<int> = Seq::empty();
        let ghost mut emitted: Seq<int> = Seq::empty();
        let ghost mut done: int = 0;
        proof {
            assert(models_of(optimizer.calls@) =~= Seq::<Call<T>>::empty());
        }
        while rest.len() > 0
            invariant
                0 <= done <= before.len(),
                rest@.len() == before.len() - done,
                // the state is the state of the model
                is_state(
                    optimizer.calls@,
                    optimizer.substitution@,
                    state_after(before, done as nat),
                ),
                out@.len() == emitted_count(before, done as nat),
                forall|i: int|
                    0 <= i < done && is_emitted(state_after(before, i as nat), #[trigger] before[i])
                        ==> is_substituted(
                        before[i],
                        out@[emitted_count(before, i as nat) as int],
                        state_after(before, i as nat).substitution,
                    ),
                forall|i: int| 0 <= i < rest@.len() ==> rest@[i] == before[before.len() - 1 - i],
                // where the statements emitted so far come from
                source.len() == out@.len(),
                forall|k: int|
                    0 <= k < source.len() ==> 0 <= #[trigger] source[k] < done && is_renamed(
                        before[source[k]],
                        out@[k],
                    ),
                forall|k: int, l: int| 0 <= k < l < source.len() ==> source[k] < source[l],
                forall|i: int|
                    0 <= i < done && !(#[trigger] before[i] is Directive) ==> source.contains(i),
                // the calls remembered are the directives emitted, one for one
                emitted.len() == optimizer.calls@.len(),
                forall|c: int|
                    0 <= c < emitted.len() ==> 0 <= #[trigger] emitted[c] < out@.len() && (
                    out@[emitted[c]] matches FlatStatement::Directive(e) && same_call(
                        optimizer.calls@[c],
                        e.solver,
                        e.inputs@,
                    )),
                forall|k: int|
                    0 <= k < out@.len() && #[trigger] out@[k] is Directive ==> emitted.contains(k),
                forall|c: int, d: int|
                    0 <= c < d < emitted.len() ==> !same_call(
                        #[trigger] optimizer.calls@[c],
                        (#[trigger] optimizer.calls@[d]).solver,
                        optimizer.calls@[d].inputs@,
                    ),
            decreases rest.len(),
        {
            let s = rest.pop().unwrap();
            assert(s == before[done]);
            let ghost calls_before = optimizer.calls@;
            let ghost substitution = optimizer.substitution@;
            let ghost out_before = out@;
            let ghost old_source = source;
            let ghost old_emitted = emitted;
            let mut new = optimizer.fold_statement(s);
            proof {
                lemma_state_step(
                    calls_before,
                    substitution,
                    state_after(before, done as nat),
                    s,
                    optimizer.calls@,
                    optimizer.substitution@,
                    new@.len() == 1,
                );
                if new@.len() == 1 {
                    assert(is_renamed(before[done], new@[0]));
                    if s is Directive {
                        let d = s->Directive_0;
                        let inputs = substituted_expressions(d.inputs@, substitution);
                        lemma_first_call(calls_before, d.solver, inputs);
                        assert(optimizer.calls@.drop_last() == calls_before);
                        assert forall|c: int| 0 <= c < calls_before.len() implies optimizer.calls@[c]
                            == calls_before[c] by {
                            assert(optimizer.calls@.drop_last()[c] == optimizer.calls@[c]);
                        }
                        emitted = emitted.push(out_before.len() as int);
                        assert forall|c: int, e: int| 0 <= c < e < emitted.len() implies !same_call(
                            #[trigger] optimizer.calls@[c],
                            (#[trigger] optimizer.calls@[e]).solver,
                            optimizer.calls@[e].inputs@,
                        ) by {
                            if e == emitted.len() - 1 {
                                assert(optimizer.calls@[e] == optimizer.calls@.last());
                                assert(same_call(optimizer.calls@[e], d.solver, inputs));
                                assert(optimizer.calls@[c] == calls_before[c]);
                                assert(!same_call(calls_before[c], d.solver, inputs));
                            } else {
                                assert(optimizer.calls@[e] == calls_before[e]);
                                assert(optimizer.calls@[c] == calls_before[c]);
                            }
                        }
                    } else {
                        assert(optimizer.calls@ == calls_before);
                    }
                    source = source.push(done);
                } else {
                    assert(optimizer.calls@ == calls_before);
                }
            }
            let ghost first = new@;
            if new.len() == 1 {
                let x = new.pop().unwrap();
                out.push(x);
            }
            proof {
                assert forall|i: int|
                    0 <= i < done + 1 && is_emitted(
                        state_after(before, i as nat),
                        #[trigger] before[i],
                    ) implies is_substituted(
                    before[i],
                    out@[emitted_count(before, i as nat) as int],
                    state_after(before, i as nat).substitution,
                ) by {
                    if i < done {
                        lemma_emitted_count_grows(before, i as nat, done as nat);
                        assert(out@[emitted_count(before, i as nat) as int] == out_before[emitted_count(
                            before,
                            i as nat,
                        ) as int]);
                    } else {
                        assert(out@[out_before.len() as int] == first[0]);
                    }
                }
                assert forall|i: int| 0 <= i < done + 1 && !(#[trigger] before[i]
                    is Directive) implies source.contains(i) by {
                    if i < done {
                        assert(old_source.contains(i));
                        let k = choose|k: int| 0 <= k < old_source.len() && old_source[k] == i;
                        assert(source[k] == i);
                    } else {
                        assert(source[source.len() - 1] == i);
                    }
                }
                assert forall|k: int| 0 <= k < out@.len() && #[trigger] out@[k]
                    is Directive implies emitted.contains(k) by {
                    if k < out_before.len() {
                        assert(out_before[k] == out@[k]);
                        assert(old_emitted.contains(k));
                        let c = choose|c: int| 0 <= c < old_emitted.len() && old_emitted[c] == k;
                        assert(emitted[c] == k);
                    } else {
                        assert(emitted[emitted.len() - 1] == k);
                    }
                }
                done = done + 1;
            }
        }
        proof {
            assert(is_optimized(before, out@));
            assert(is_selection(before, out@, source));
            assert forall|i: int, j: int| 0 <= i < j < out@.len() implies !share_call(
                #[trigger] out@[i],
                #[trigger] out@[j],
            ) by {
                if out@[i] is Directive && out@[j] is Directive {
                    let c = choose|c: int| 0 <= c < emitted.len() && emitted[c] == i;
                    let d = choose|d: int| 0 <= d < emitted.len() && emitted[d] == j;
                    assert(emitted.contains(i));
                    assert(emitted.contains(j));
                    if c < d {
                        assert(!same_call(
                            optimizer.calls@[c],
                            optimizer.calls@[d].solver,
                            optimizer.calls@[d].inputs@,
                        ));
                    } else {
                        assert(!same_call(
                            optimizer.calls@[d],
                            optimizer.calls@[c].solver,
                            optimizer.calls@[c].inputs@,
                        ));
                    }
                }
            }
        }
        out
    }
}

} // verus!
