//! Sizing a node: from its cache where the request was answered before,
//! from its style and content where it is a leaf. A node with children is
//! sized by the pass that places them, which is the caller's: it asks here
//! for the size of each child and leaves the size of the container here.

pub mod leaf;

use crate::compute::leaf::leaf_size_in;
use crate::error::TaffyError;
use crate::geometry::{Point, Size};
use crate::layout::{AvailableSpace, Cache, Layout, RunMode, SizingMode};
use crate::node::{lemma_empty_answers_nothing, lemma_store_then_lookup, Node};
use crate::scalar::Scalar;
use crate::tree::{dirtied, same_nodes, LayoutTree, TreeModel};
use vstd::prelude::*;

verus! {

/// Whether two states of a store differ at most in the cache of `node`.
pub open spec fn same_but_cache<T: TreeModel>(before: &T, after: &T, node: Node) -> bool {
    &&& same_nodes(before, after)
    &&& forall|other: Node| #[trigger]
        before.contains(other) ==> {
            &&& after.spec_layout(other) == before.spec_layout(other)
            &&& other != node ==> after.spec_cache(other) == before.spec_cache(other)
        }
}

/// What the cache of `node` remembers for a request.
pub open spec fn cached_size<T: TreeModel>(
    tree: &T,
    node: Node,
    known_dimensions: Size<Option<Scalar>>,
    available_space: Size<AvailableSpace>,
    run_mode: RunMode,
    sizing_mode: SizingMode,
) -> Option<Size<Scalar>> {
    tree.spec_cache(node).spec_lookup(known_dimensions, available_space, run_mode, sizing_mode)
}

/// The size that a request on `node` comes to without the pass for
/// containers: what the cache remembers for it; else, for a leaf, the size
/// of the leaf; else none.
pub open spec fn node_size<T: LayoutTree>(
    tree: &T,
    node: Node,
    known_dimensions: Size<Option<Scalar>>,
    available_space: Size<AvailableSpace>,
    run_mode: RunMode,
    sizing_mode: SizingMode,
) -> Option<Size<Scalar>> {
    let cached = cached_size(tree, node, known_dimensions, available_space, run_mode, sizing_mode);
    if cached is Some {
        cached
    } else if tree.spec_children(node).len() == 0 {
        Some(leaf_size_in(tree, node, known_dimensions, available_space, sizing_mode))
    } else {
        None
    }
}

/// The slots of the cache of `node` after a request on it: with the size
/// of the leaf remembered where the cache had no answer; else as before.
pub open spec fn node_cache_after<T: LayoutTree>(
    tree: &T,
    node: Node,
    known_dimensions: Size<Option<Scalar>>,
    available_space: Size<AvailableSpace>,
    run_mode: RunMode,
    sizing_mode: SizingMode,
) -> Seq<Option<Cache>> {
    let cache = tree.spec_cache(node);
    if cache.spec_lookup(known_dimensions, available_space, run_mode, sizing_mode) is None
        && tree.spec_children(node).len() == 0 {
        cache.spec_store(
            Cache {
                known_dimensions,
                available_space,
                run_mode,
                sizing_mode,
                cached_size: leaf_size_in(
                    tree,
                    node,
                    known_dimensions,
                    available_space,
                    sizing_mode,
                ),
            },
        )
    } else {
        cache@
    }
}

/// Looks a request up in the cache of a node.
pub fn compute_from_cache<T: LayoutTree>(
    tree: &mut T,
    node: Node,
    known_dimensions: Size<Option<Scalar>>,
    available_space: Size<AvailableSpace>,
    run_mode: RunMode,
    sizing_mode: SizingMode,
) -> (r: Option<Size<Scalar>>)
    requires
        old(tree).wf(),
        old(tree).contains(node),
    ensures
        r == cached_size(
            old(tree),
            node,
            known_dimensions,
            available_space,
            run_mode,
            sizing_mode,
        ),
        final(tree).wf(),
        same_but_cache(old(tree), final(tree), node),
        final(tree).spec_cache(node) == old(tree).spec_cache(node),
{
    let cache = tree.cache_mut(node);
    cache.lookup(known_dimensions, available_space, run_mode, sizing_mode)
}

/// Leaves the size that the pass for containers has computed for a request
/// in the cache of the node.
pub fn cache_node_layout<T: LayoutTree>(
    tree: &mut T,
    node: Node,
    known_dimensions: Size<Option<Scalar>>,
    available_space: Size<AvailableSpace>,
    run_mode: RunMode,
    sizing_mode: SizingMode,
    size: Size<Scalar>,
)
    requires
        old(tree).wf(),
        old(tree).contains(node),
    ensures
        final(tree).wf(),
        same_but_cache(old(tree), final(tree), node),
        final(tree).spec_cache(node)@ == old(tree).spec_cache(node).spec_store(
            Cache { known_dimensions, available_space, run_mode, sizing_mode, cached_size: size },
        ),
{
    let cache = tree.cache_mut(node);
    cache.store(
        Cache { known_dimensions, available_space, run_mode, sizing_mode, cached_size: size },
    );
}

/// Answers a sizing request on a node: from the cache where it holds an
/// entry for the same inputs, and only then; else, for a leaf, by sizing
/// the leaf, and the answer is remembered. For a node with children that has
/// no entry the answer is none, and nothing changes: the caller runs the
/// pass for containers and hands its result to `cache_node_layout`.
pub fn compute_node_layout<T: LayoutTree>(
    tree: &mut T,
    node: Node,
    known_dimensions: Size<Option<Scalar>>,
    available_space: Size<AvailableSpace>,
    run_mode: RunMode,
    sizing_mode: SizingMode,
) -> (r: Option<Size<Scalar>>)
    requires
        old(tree).wf(),
        old(tree).contains(node),
    ensures
        r == node_size(old(tree), node, known_dimensions, available_space, run_mode, sizing_mode),
        final(tree).wf(),
        same_but_cache(old(tree), final(tree), node),
        final(tree).spec_cache(node)@ == node_cache_after(
            old(tree),
            node,
            known_dimensions,
            available_space,
            run_mode,
            sizing_mode,
        ),
{
    let ghost before = *tree;
    if let Some(cached) = compute_from_cache(
        tree,
        node,
        known_dimensions,
        available_space,
        run_mode,
        sizing_mode,
    ) {
        return Some(cached);
    }
    if !tree.is_childless(node) {
        return None;
    }
    let size = leaf::compute(tree, node, known_dimensions, available_space, run_mode, sizing_mode);
    cache_node_layout(
        tree,
        node,
        known_dimensions,
        available_space,
        run_mode,
        sizing_mode,
        size,
    );
    Some(size)
}

/// The layout of a root of the given size.
pub open spec fn root_layout(size: Size<Scalar>) -> Layout {
    Layout { order: 0, size, location: Point { x: Scalar(0), y: Scalar(0) } }
}

/// The size that a layout pass gives to `root`: no dimension is known
/// beforehand, the node is laid out for good, and its style's constraints
/// are resolved against the available space.
pub open spec fn root_size<T: LayoutTree>(
    tree: &T,
    root: Node,
    available_space: Size<AvailableSpace>,
) -> Option<Size<Scalar>> {
    node_size(
        tree,
        root,
        Size { width: None, height: None },
        available_space,
        RunMode::PerformLayout,
        SizingMode::InherentSize,
    )
}

/// What a layout pass from `root` turns `before` into, where it succeeds:
/// the root has its size at the origin, its cache has the answer, and
/// nothing else has changed.
pub open spec fn laid_out<T: LayoutTree>(
    before: &T,
    after: &T,
    root: Node,
    available_space: Size<AvailableSpace>,
) -> bool {
    &&& root_size(before, root, available_space) is Some
    &&& same_nodes(before, after)
    &&& after.spec_layout(root) == root_layout(root_size(before, root, available_space)->Some_0)
    &&& after.spec_cache(root)@ == node_cache_after(
        before,
        root,
        Size { width: None, height: None },
        available_space,
        RunMode::PerformLayout,
        SizingMode::InherentSize,
    )
    &&& forall|other: Node| #[trigger]
        before.contains(other) && other != root ==> {
            &&& after.spec_layout(other) == before.spec_layout(other)
            &&& after.spec_cache(other) == before.spec_cache(other)
        }
}

/// Lays out the tree below `root` in the available space.
///
/// The root is sized as `compute_node_layout` sizes it and placed at the
/// origin. Where the root has children and no pass has left its size for
/// this request, nothing is written and the call fails.
pub fn compute_layout<T: LayoutTree>(
    tree: &mut T,
    root: Node,
    available_space: Size<AvailableSpace>,
) -> (r: Result<(), TaffyError>)
    requires
        old(tree).wf(),
        old(tree).contains(root),
    ensures
        final(tree).wf(),
        r is Ok <==> root_size(old(tree), root, available_space) is Some,
        r is Ok ==> laid_out(old(tree), final(tree), root, available_space),
        r is Err ==> r == Err::<(), TaffyError>(TaffyError::UnsizedContainer(root))
            && same_but_cache(old(tree), final(tree), root) && final(tree).spec_cache(root)@ == old(
            tree,
        ).spec_cache(root)@,
{
    match compute_node_layout(
        tree,
        root,
        Size::<Option<Scalar>>::none(),
        available_space,
        RunMode::PerformLayout,
        SizingMode::InherentSize,
    ) {
        Some(size) => {
            let layout = tree.layout_mut(root);
            *layout = Layout { order: 0, size, location: Point::<Scalar>::zero() };
            Ok(())
        },
        None => Err(TaffyError::UnsizedContainer(root)),
    }
}

/// A layout pass that follows another, on a tree that nobody has touched in
/// between and in the same available space, is answered from the cache: it
/// succeeds, and it leaves every layout and every cache as the first pass
/// left them, whatever measuring the content would give now.
pub proof fn lemma_second_pass_is_cached<T: LayoutTree>(
    first: &T,
    second: &T,
    third: &T,
    root: Node,
    available_space: Size<AvailableSpace>,
)
    requires
        first.contains(root),
        laid_out(first, second, root, available_space),
        laid_out(second, third, root, available_space),
    ensures
        cached_size(
            second,
            root,
            Size { width: None, height: None },
            available_space,
            RunMode::PerformLayout,
            SizingMode::InherentSize,
        ) == root_size(first, root, available_space),
        root_size(second, root, available_space) == root_size(first, root, available_space),
        forall|node: Node| #[trigger]
            first.contains(node) ==> {
                &&& third.spec_layout(node) == second.spec_layout(node)
                &&& third.spec_cache(node)@ == second.spec_cache(node)@
            },
{
    let known_dimensions = Size { width: None::<Scalar>, height: None::<Scalar> };
    let size = root_size(first, root, available_space)->Some_0;
    let entry = Cache {
        known_dimensions,
        available_space,
        run_mode: RunMode::PerformLayout,
        sizing_mode: SizingMode::InherentSize,
        cached_size: size,
    };
    if cached_size(
        first,
        root,
        known_dimensions,
        available_space,
        RunMode::PerformLayout,
        SizingMode::InherentSize,
    ) is None {
        lemma_store_then_lookup(first.spec_cache(root)@, entry);
    }
    assert(first.contains(root) == second.contains(root));
}

/// A node that was marked dirty has no answer left: the next request on it
/// is computed anew.
pub proof fn lemma_dirty_forgets<T: TreeModel>(
    before: &T,
    after: &T,
    node: Node,
    known_dimensions: Size<Option<Scalar>>,
    available_space: Size<AvailableSpace>,
    run_mode: RunMode,
    sizing_mode: SizingMode,
)
    requires
        before.contains(node),
        dirtied(before, after, node),
    ensures
        cached_size(after, node, known_dimensions, available_space, run_mode, sizing_mode) is None,
{
    lemma_empty_answers_nothing(
        after.spec_cache(node)@,
        known_dimensions,
        available_space,
        run_mode,
        sizing_mode,
    );
}

} // verus!
