//! Tags that tell apart nodes of the same shape.

use vstd::prelude::*;

verus! {

#[derive(Clone, Copy, PartialEq, Eq, Structural, Debug, Hash)]
pub struct OpAdd;

#[derive(Clone, Copy, PartialEq, Eq, Structural, Debug, Hash)]
pub struct OpSub;

#[derive(Clone, Copy, PartialEq, Eq, Structural, Debug, Hash)]
pub struct OpFloorSub;

#[derive(Clone, Copy, PartialEq, Eq, Structural, Debug, Hash)]
pub struct OpMul;

#[derive(Clone, Copy, PartialEq, Eq, Structural, Debug, Hash)]
pub struct OpDiv;

#[derive(Clone, Copy, PartialEq, Eq, Structural, Debug, Hash)]
pub struct OpRem;

#[derive(Clone, Copy, PartialEq, Eq, Structural, Debug, Hash)]
pub struct OpPow;

#[derive(Clone, Copy, PartialEq, Eq, Structural, Debug, Hash)]
pub struct OpEq;

#[derive(Clone, Copy, PartialEq, Eq, Structural, Debug, Hash)]
pub struct OpLt;

#[derive(Clone, Copy, PartialEq, Eq, Structural, Debug, Hash)]
pub struct OpLe;

#[derive(Clone, Copy, PartialEq, Eq, Structural, Debug, Hash)]
pub struct OpXor;

#[derive(Clone, Copy, PartialEq, Eq, Structural, Debug, Hash)]
pub struct OpOr;

#[derive(Clone, Copy, PartialEq, Eq, Structural, Debug, Hash)]
pub struct OpAnd;

#[derive(Clone, Copy, PartialEq, Eq, Structural, Debug, Hash)]
pub struct OpLsh;

#[derive(Clone, Copy, PartialEq, Eq, Structural, Debug, Hash)]
pub struct OpRsh;

#[derive(Clone, Copy, PartialEq, Eq, Structural, Debug, Hash)]
pub struct OpNot;

#[derive(Clone, Copy, PartialEq, Eq, Structural, Debug, Hash)]
pub struct OpNeg;

#[derive(Clone, Copy, PartialEq, Eq, Structural, Debug, Hash)]
pub struct OpPos;

} // verus!
