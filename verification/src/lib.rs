//! Ambient-overload consistency checking for statement sequences.
//!
//! In the checked language a function may be declared several times without a
//! body (overload signatures); such a run must end with exactly one
//! implementation of the same name, unless the surrounding context is marked
//! `declare` (ambient). The checker walks a statement sequence, carries the
//! single pending body-less signature as its only state, and reports a
//! diagnostic wherever a pending signature is abandoned or an implementation
//! name does not match it.

pub mod ast;
pub mod checker;
pub mod laws;
