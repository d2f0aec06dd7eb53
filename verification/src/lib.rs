//! Intermediate representations of a circuit compiler and the passes between
//! them: constant propagation over the typed tree, flat arithmetic, directive
//! deduplication and the lowering to rank-1 constraint matrices.

pub mod aggregate_rules;
pub mod assignee;
pub mod bigint;
pub mod bls12_377;
pub mod bls12_381;
pub mod bn128;
pub mod boolean_rules;
pub mod cloning;
pub mod common;
pub mod constant;
pub mod directive;
pub mod embed;
pub mod equality;
pub mod error;
pub mod expressions;
pub mod field;
pub mod field_rules;
pub mod fixpoint;
pub mod flat;
pub mod folding;
pub mod idempotence;
pub mod ir;
pub mod limbs;
pub mod list;
pub mod operators;
pub mod outcome;
pub mod propagation;
pub mod r1cs;
pub mod record;
pub mod regular;
pub mod repetition;
pub mod second_pass;
pub mod semantics;
pub mod serialization;
pub mod soundness;
pub mod steps;
pub mod statements;
pub mod typed;
pub mod types;
pub mod uint_rules;
pub mod vectors;
pub mod witness;
