//! What a call on a tree can fail with.

use crate::node::Node;
use vstd::prelude::*;

verus! {

/// A misuse of a tree.
#[derive(Clone, Copy, Debug, PartialEq, Eq)]
pub enum TaffyError {
    /// The parent has fewer children than the index asks for.
    ChildIndexOutOfBounds { parent: Node, child_index: usize, child_count: usize },
    /// The node named as a parent is not in the tree.
    InvalidParentNode(Node),
    /// The node named as a child is not in the tree.
    InvalidChildNode(Node),
    /// The node is not in the tree.
    InvalidInputNode(Node),
    /// The node has children, and the pass that places them has left no
    /// size for the request.
    UnsizedContainer(Node),
}

/// What a call on a tree gives back.
pub type TaffyResult<T> = Result<T, TaffyError>;

} // verus!
