//! What both intermediate representations share: source spans, the variables
//! of the flat program, solvers and run-time error tags.

use vstd::prelude::*;

verus! {

#[derive(Clone, Copy, PartialEq, Eq, Structural, Debug, Hash)]
pub struct Position {
    pub line: usize,
    pub col: usize,
}

/// A region of a source file, kept for diagnostics only.
#[derive(Clone, Copy, PartialEq, Eq, Structural, Debug, Hash)]
pub struct Span {
    pub file: u64,
    pub from: Position,
    pub to: Position,
}

/// Whether two optional spans are the same.
pub fn same_span(a: &Option<Span>, b: &Option<Span>) -> (r: bool)
    ensures
        r == (*a == *b),
{
    match (a, b) {
        (None, None) => true,
        (Some(x), Some(y)) => *x == *y,
        _ => false,
    }
}

/// A node that remembers where in the source it came from.
pub trait WithSpan: Sized {
    spec fn spec_span(&self) -> Option<Span>;

    /// The same node, attributed to `span`.
    fn span(self, span: Option<Span>) -> (r: Self)
        ensures
            r.spec_span() == span,
    ;

    fn get_span(&self) -> (r: Option<Span>)
        ensures
            r == self.spec_span(),
    ;
}

/// A wire of the flat program. Identifier 0 is the wire that carries the
/// constant one, the negative identifiers are the public outputs, the positive
/// ones everything else.
#[derive(Clone, Copy, PartialEq, Eq, Structural, PartialOrd, Ord, Debug, Hash)]
pub struct Variable {
    pub id: isize,
}

impl Variable {
    pub open spec fn spec_new(id: usize) -> Variable {
        Variable { id: (1 + id) as isize }
    }

    pub open spec fn spec_one() -> Variable {
        Variable { id: 0 }
    }

    pub open spec fn spec_public(id: usize) -> Variable {
        Variable { id: (-(id as int) - 1) as isize }
    }

    /// The `id`-th ordinary wire.
    #[verifier::when_used_as_spec(spec_new)]
    pub fn new(id: usize) -> (r: Variable)
        requires
            id < isize::MAX,
        ensures
            r == Variable::spec_new(id),
    {
        Variable { id: 1 + id as isize }
    }

    /// The wire that carries the constant one.
    #[verifier::when_used_as_spec(spec_one)]
    pub fn one() -> (r: Variable)
        ensures
            r == Variable::spec_one(),
    {
        Variable { id: 0 }
    }

    /// The wire of the `id`-th public output.
    #[verifier::when_used_as_spec(spec_public)]
    pub fn public(id: usize) -> (r: Variable)
        requires
            id <= isize::MAX,
        ensures
            r == Variable::spec_public(id),
    {
        Variable { id: -(id as isize) - 1 }
    }

    pub fn is_output(&self) -> (r: bool)
        ensures
            r == (self.id < 0),
    {
        self.id < 0
    }
}

/// An argument of the flat program's entry point.
#[derive(Clone, Copy, PartialEq, Eq, Structural, Debug, Hash)]
pub struct Parameter {
    pub id: Variable,
    pub private: bool,
}

impl Parameter {
    pub fn public(v: Variable) -> (r: Parameter)
        ensures
            r == (Parameter { id: v, private: false }),
    {
        Parameter { id: v, private: false }
    }

    pub fn private(v: Variable) -> (r: Parameter)
        ensures
            r == (Parameter { id: v, private: true }),
    {
        Parameter { id: v, private: true }
    }
}

/// Why a constraint exists, reported when a witness violates it.
#[derive(Clone, Copy, PartialEq, Eq, Structural, Debug, Hash)]
pub enum RuntimeError {
    Bitness,
    Sum,
    Equal,
    Le,
    BranchIsolation,
    ConstantLtBitness,
    ConstantLtSum,
    LtFinalSum,
    Or,
    Xor,
    Inverse,
    Euclidean,
    ShaXor,
    Division,
    /// An assertion of the source program, by the number of its message.
    SourceAssertion(u64),
    ArgumentBitness,
    SelectRangeCheck,
}

/// A procedure that the prover runs to fill in witness values.
#[derive(Clone, Copy, PartialEq, Eq, Structural, Debug, Hash)]
pub enum Solver {
    ConditionEq,
    Bits(usize),
    Div,
    Xor,
    Or,
    ShaAndXorAndXorAnd,
    ShaCh,
    EuclideanDiv,
}

impl Solver {
    /// How many inputs the solver takes and how many outputs it gives.
    pub open spec fn signature(self) -> (usize, usize) {
        match self {
            Solver::ConditionEq => (1, 2),
            Solver::Bits(bit_width) => (1, bit_width),
            Solver::Div => (2, 1),
            Solver::Xor => (2, 1),
            Solver::Or => (2, 1),
            Solver::ShaAndXorAndXorAnd => (3, 1),
            Solver::ShaCh => (3, 1),
            Solver::EuclideanDiv => (2, 2),
        }
    }

    pub fn get_signature(&self) -> (r: (usize, usize))
        ensures
            r == self.signature(),
    {
        match self {
            Solver::ConditionEq => (1, 2),
            Solver::Bits(bit_width) => (1, *bit_width),
            Solver::Div => (2, 1),
            Solver::Xor => (2, 1),
            Solver::Or => (2, 1),
            Solver::ShaAndXorAndXorAnd => (3, 1),
            Solver::ShaCh => (3, 1),
            Solver::EuclideanDiv => (2, 2),
        }
    }
}

/// The text of a log statement, cut at its placeholders.
#[derive(Clone, Debug, PartialEq)]
pub struct FormatString {
    pub parts: Vec<String>,
}

} // verus!
