//! Figures that the node data is laid out by.

use vstd::prelude::*;

verus! {

/// The number of cache entries kept for each node.
pub const CACHE_SIZE: usize = 7;

} // verus!
