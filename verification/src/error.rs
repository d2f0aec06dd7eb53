//! Why constant propagation gives up on a program.

use crate::common::RuntimeError;
use crate::types::Type;
use vstd::prelude::*;

verus! {

/// Two types that had to be the same and are not.
#[derive(Debug, PartialEq)]
pub enum TypeMismatch {
    /// A value of type `found` assigned to a place of type `expected`.
    Assignment { expected: Type, found: Type },
    /// An equality between a `left` and a `right` of different types.
    Comparison { left: Type, right: Type },
    /// The member `id` of a struct literal.
    StructMember { id: u64, expected: Type, found: Type },
    /// The element `index` of a tuple literal.
    TupleElement { index: u32, expected: Type, found: Type },
}

#[derive(Debug, PartialEq)]
pub enum Error {
    Type(TypeMismatch),
    /// The assertion with this tag is known to fail.
    AssertionFailed(RuntimeError),
    /// The value does not fit in this many bits.
    ValueTooLarge(u32),
    /// The index, and the length of the array that it is out of.
    OutOfBounds(u128, u128),
    NonConstantExponent,
}

} // verus!
