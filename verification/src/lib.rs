//! Constraint-based box layout: the sizing core.
//!
//! Each node of a tree has a style that asks for a size by three tiers per
//! axis: a size to aim for, a lower and an upper bound. The library
//! resolves them against the space that a parent offers, sizes the leaves,
//! remembers per node what it has computed, and forgets it along the path
//! to the root when a node changes. Lengths are fixed-point numbers; every
//! function is verified against a contract over them.

pub mod axis;
pub mod compute;
pub mod data;
pub mod error;
pub mod geometry;
pub mod layout;
pub mod math;
pub mod node;
pub mod prelude;
pub mod resolve;
pub mod scalar;
pub mod style;
pub mod tree;
