//! Composition layer for block-payload builders.
//!
//! A payload builder turns a description of a requested block (its parent,
//! timestamp, fee recipient, randomness and withdrawals) into a sealed
//! candidate block. Deployments run more than one building strategy at a
//! time, so this crate provides the combinator that chains two builders into
//! one: [`builder_stack::PayloadBuilderStack`]. Two builders over one shared
//! attribute type are tried left to right, falling back on error; two
//! builders over unrelated attribute types are unified under the
//! [`either::Either`] sum type and addressed exclusively by the tag of the
//! incoming attributes.
//!
//! Every operation of the stack carries a contract that pins its result down
//! to the results of the two inner builders, and the fallback laws are stated
//! and proved as lemmas beside the implementation.

pub mod types;
pub mod attributes;
pub mod payload;
pub mod outcome;
pub mod either;
pub mod builder_stack;
pub mod fixed;
pub mod transaction;
