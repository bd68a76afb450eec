//! A single-owner mutable memory cell whose read-by-copy operation works for
//! types that are not bitwise-copyable, provided their duplicate operation is
//! trusted not to reach back into the cell it is reading from.
//!
//! The crate has three parts:
//! - [`cell::Cell`], the single-slot container with `get`/`set`/`replace`/
//!   `swap`/`take` operations;
//! - [`clone::PureClone`], the capability marker that `Cell::get` requires,
//!   together with its base compliance set of implementations;
//! - [`generate`], a model of the code generator that grants the capability to
//!   user-defined aggregate types, with the contract such a generator must
//!   uphold.

pub mod cell;
pub mod clone;
pub mod generate;
