//! What the sizing core asks of the store that owns the nodes.

use crate::error::TaffyResult;
use crate::geometry::Size;
use crate::layout::{AvailableSpace, Layout};
use crate::node::{Node, SizeCache};
use crate::scalar::Scalar;
use crate::style::Style;
use vstd::prelude::*;

verus! {

/// What a store of nodes holds, as contracts speak of it. Each node has a
/// style, a layout, a cache, at most one parent and a list of children; a
/// leaf may have something that measures its content. The parents form no
/// cycle: `depth` grows from each node to its children.
pub trait TreeModel: Sized {
    /// What the store keeps true of itself.
    spec fn wf(&self) -> bool;

    /// Whether the handle names a node of the store.
    spec fn contains(&self, node: Node) -> bool;

    spec fn spec_parent(&self, node: Node) -> Option<Node>;

    spec fn spec_children(&self, node: Node) -> Seq<Node>;

    spec fn spec_style(&self, node: Node) -> Style;

    spec fn spec_layout(&self, node: Node) -> Layout;

    spec fn spec_cache(&self, node: Node) -> SizeCache;

    /// Whether the node is sized by measuring its content.
    spec fn spec_needs_measure(&self, node: Node) -> bool;

    /// What measuring the node's content gives for a request.
    spec fn spec_measure(
        &self,
        node: Node,
        known_dimensions: Size<Option<Scalar>>,
        available_space: Size<AvailableSpace>,
    ) -> Size<Scalar>;

    /// How far the node is below a root, or more.
    spec fn depth(&self, node: Node) -> nat;

    /// A parent is in the store and less deep than its child.
    proof fn lemma_parent(&self, node: Node)
        requires
            self.wf(),
            self.contains(node),
            self.spec_parent(node) is Some,
        ensures
            self.contains(self.spec_parent(node)->Some_0),
            self.depth(self.spec_parent(node)->Some_0) < self.depth(node),
    ;

}

/// Whether two states of a store hold the same nodes with the same styles,
/// parents, children and measures: they differ in layouts and caches at most.
pub open spec fn same_nodes<T: TreeModel>(before: &T, after: &T) -> bool {
    forall|node: Node|
        #![trigger before.contains(node)]
        #![trigger after.contains(node)]
        before.contains(node) == after.contains(node) && (before.contains(node) ==> {
            &&& after.spec_parent(node) == before.spec_parent(node)
            &&& after.spec_children(node) == before.spec_children(node)
            &&& after.spec_style(node) == before.spec_style(node)
            &&& after.spec_needs_measure(node) == before.spec_needs_measure(node)
            &&& after.depth(node) == before.depth(node)
            &&& forall|known_dimensions: Size<Option<Scalar>>, available_space: Size<AvailableSpace>|
                #[trigger] after.spec_measure(node, known_dimensions, available_space)
                    == before.spec_measure(node, known_dimensions, available_space)
        })
}

/// Whether `ancestor` is `node` or stands above it.
pub open spec fn is_ancestor_or_self<T: TreeModel>(tree: &T, ancestor: Node, node: Node) -> bool
    decreases tree.depth(node),
{
    ancestor == node || match tree.spec_parent(node) {
        Some(parent) => tree.depth(parent) < tree.depth(node) && is_ancestor_or_self(
            tree,
            ancestor,
            parent,
        ),
        None => false,
    }
}

/// What marking `node` dirty comes to: the cache of `node` and of each of
/// its ancestors is empty, every other cache is as it was, and so is every
/// layout.
pub open spec fn dirtied<T: TreeModel>(before: &T, after: &T, node: Node) -> bool {
    forall|other: Node| #[trigger]
        before.contains(other) ==> {
            &&& after.spec_layout(other) == before.spec_layout(other)
            &&& is_ancestor_or_self(before, other, node) ==> after.spec_cache(other).spec_is_empty()
            &&& !is_ancestor_or_self(before, other, node) ==> after.spec_cache(other)
                == before.spec_cache(other)
        }
}

/// The operations that the sizing core asks of a store.
pub trait LayoutTree: TreeModel {
    /// The children of a node, in their order.
    fn children(&self, node: Node) -> (r: Vec<Node>)
        requires
            self.wf(),
            self.contains(node),
        ensures
            r@ == self.spec_children(node),
    ;

    fn child_count(&self, node: Node) -> (r: usize)
        requires
            self.wf(),
            self.contains(node),
        ensures
            r == self.spec_children(node).len(),
    ;

    fn is_childless(&self, node: Node) -> (r: bool)
        requires
            self.wf(),
            self.contains(node),
        ensures
            r == (self.spec_children(node).len() == 0),
    ;

    /// The child at place `index`.
    fn child(&self, node: Node, index: usize) -> (r: Node)
        requires
            self.wf(),
            self.contains(node),
            index < self.spec_children(node).len(),
        ensures
            r == self.spec_children(node)[index as int],
    ;

    fn parent(&self, node: Node) -> (r: Option<Node>)
        requires
            self.wf(),
            self.contains(node),
        ensures
            r == self.spec_parent(node),
    ;

    fn style(&self, node: Node) -> (r: &Style)
        requires
            self.wf(),
            self.contains(node),
        ensures
            *r == self.spec_style(node),
    ;

    fn layout(&self, node: Node) -> (r: &Layout)
        requires
            self.wf(),
            self.contains(node),
        ensures
            *r == self.spec_layout(node),
    ;

    /// The node's layout, to be written.
    fn layout_mut(&mut self, node: Node) -> (r: &mut Layout)
        requires
            old(self).wf(),
            old(self).contains(node),
        ensures
            *r == old(self).spec_layout(node),
            final(self).wf(),
            same_nodes(old(self), final(self)),
            forall|other: Node|
                old(self).contains(other) ==> (#[trigger] final(self).spec_cache(other))
                    == old(self).spec_cache(other),
            forall|other: Node|
                old(self).contains(other) && other != node ==> (#[trigger] final(self).spec_layout(
                    other,
                )) == old(self).spec_layout(other),
            final(self).spec_layout(node) == *final(r),
    ;

    /// The node's cache, to be written.
    fn cache_mut(&mut self, node: Node) -> (r: &mut SizeCache)
        requires
            old(self).wf(),
            old(self).contains(node),
        ensures
            *r == old(self).spec_cache(node),
            final(self).wf(),
            same_nodes(old(self), final(self)),
            forall|other: Node|
                old(self).contains(other) ==> (#[trigger] final(self).spec_layout(other))
                    == old(self).spec_layout(other),
            forall|other: Node|
                old(self).contains(other) && other != node ==> (#[trigger] final(self).spec_cache(
                    other,
                )) == old(self).spec_cache(other),
            final(self).spec_cache(node) == *final(r),
    ;

    /// Whether the node is sized by measuring its content.
    fn needs_measure(&self, node: Node) -> (r: bool)
        requires
            self.wf(),
            self.contains(node),
        ensures
            r == self.spec_needs_measure(node),
    ;

    /// Measures the content of a node that is sized so.
    fn measure_node(
        &self,
        node: Node,
        known_dimensions: Size<Option<Scalar>>,
        available_space: Size<AvailableSpace>,
    ) -> (r: Size<Scalar>)
        requires
            self.wf(),
            self.contains(node),
            self.spec_needs_measure(node),
        ensures
            r == self.spec_measure(node, known_dimensions, available_space),
    ;
}

/// An ancestor is no deeper than the node.
pub proof fn lemma_ancestor_depth<T: TreeModel>(tree: &T, ancestor: Node, node: Node)
    requires
        is_ancestor_or_self(tree, ancestor, node),
    ensures
        tree.depth(ancestor) <= tree.depth(node),
    decreases tree.depth(node),
{
    if ancestor != node {
        lemma_ancestor_depth(tree, ancestor, tree.spec_parent(node)->Some_0);
    }
}

/// The parent of an ancestor is an ancestor.
pub proof fn lemma_ancestor_parent<T: TreeModel>(tree: &T, ancestor: Node, node: Node)
    requires
        tree.wf(),
        tree.contains(node),
        is_ancestor_or_self(tree, ancestor, node),
        tree.spec_parent(ancestor) is Some,
    ensures
        tree.contains(ancestor),
        is_ancestor_or_self(tree, tree.spec_parent(ancestor)->Some_0, node),
    decreases tree.depth(node),
{
    if ancestor == node {
        tree.lemma_parent(node);
        assert(is_ancestor_or_self(
            tree,
            tree.spec_parent(node)->Some_0,
            tree.spec_parent(node)->Some_0,
        ));
    } else {
        tree.lemma_parent(node);
        lemma_ancestor_parent(tree, ancestor, tree.spec_parent(node)->Some_0);
    }
}

/// Marks a node dirty: walks from the node to its root and empties the
/// cache of each node on the way.
pub fn mark_dirty_internal<T: LayoutTree>(tree: &mut T, node: Node) -> (r: TaffyResult<()>)
    requires
        old(tree).wf(),
        old(tree).contains(node),
    ensures
        r is Ok,
        final(tree).wf(),
        same_nodes(old(tree), final(tree)),
        dirtied(old(tree), final(tree), node),
{
    let ghost before = *tree;
    let mut current = node;
    loop
        invariant_except_break
            forall|other: Node| #[trigger]
                before.contains(other) ==> {
                    &&& is_ancestor_or_self(&before, other, node) && !is_ancestor_or_self(
                        &before,
                        other,
                        current,
                    ) ==> tree.spec_cache(other).spec_is_empty()
                    &&& !is_ancestor_or_self(&before, other, node) || is_ancestor_or_self(
                        &before,
                        other,
                        current,
                    ) ==> tree.spec_cache(other) == before.spec_cache(other)
                },
        invariant
            before.wf(),
            before.contains(node),
            tree.wf(),
            same_nodes(&before, tree),
            before.contains(current),
            is_ancestor_or_self(&before, current, node),
            forall|other: Node| #[trigger]
                before.contains(other) ==> tree.spec_layout(other) == before.spec_layout(other),
        ensures
            dirtied(&before, tree, node),
        decreases tree.depth(current),
    {
        let cache = tree.cache_mut(current);
        cache.clear();
        let parent = tree.parent(current);
        proof {
            assert forall|other: Node| #[trigger] before.contains(other) implies (
            is_ancestor_or_self(&before, other, current) <==> other == current || (parent is Some
                && is_ancestor_or_self(&before, other, parent->Some_0))) by {
                if parent is Some {
                    before.lemma_parent(current);
                }
            }
        }
        match parent {
            Some(parent) => {
                proof {
                    before.lemma_parent(current);
                    lemma_ancestor_parent(&before, current, node);
                    if is_ancestor_or_self(&before, current, parent) {
                        lemma_ancestor_depth(&before, current, parent);
                    }
                }
                current = parent;
            },
            None => {
                break ;
            },
        }
    }
    Ok(())
}

/// Marking a node dirty empties the cache of its parent, and so of every
/// ancestor up to the root.
pub proof fn lemma_dirty_reaches_ancestors<T: TreeModel>(
    before: &T,
    after: &T,
    node: Node,
    ancestor: Node,
)
    requires
        before.wf(),
        before.contains(node),
        dirtied(before, after, node),
        is_ancestor_or_self(before, ancestor, node),
    ensures
        after.spec_cache(ancestor).spec_is_empty(),
        before.spec_parent(ancestor) is Some ==> after.spec_cache(
            before.spec_parent(ancestor)->Some_0,
        ).spec_is_empty(),
{
    if before.spec_parent(ancestor) is Some {
        lemma_ancestor_parent(before, ancestor, node);
        before.lemma_parent(ancestor);
    } else if ancestor != node {
        lemma_ancestor_contained(before, ancestor, node);
    }
}

/// An ancestor of a node of the store is in the store.
pub proof fn lemma_ancestor_contained<T: TreeModel>(tree: &T, ancestor: Node, node: Node)
    requires
        tree.wf(),
        tree.contains(node),
        is_ancestor_or_self(tree, ancestor, node),
    ensures
        tree.contains(ancestor),
    decreases tree.depth(node),
{
    if ancestor != node {
        tree.lemma_parent(node);
        lemma_ancestor_contained(tree, ancestor, tree.spec_parent(node)->Some_0);
    }
}

/// Marking a node dirty leaves the cache of each of its siblings as it was.
pub proof fn lemma_dirty_spares_siblings<T: TreeModel>(
    before: &T,
    after: &T,
    node: Node,
    sibling: Node,
)
    requires
        before.wf(),
        before.contains(node),
        before.contains(sibling),
        dirtied(before, after, node),
        sibling != node,
        before.spec_parent(sibling) is Some,
        before.spec_parent(sibling) == before.spec_parent(node),
    ensures
        after.spec_cache(sibling) == before.spec_cache(sibling),
{
    if is_ancestor_or_self(before, sibling, node) {
        let parent = before.spec_parent(node)->Some_0;
        before.lemma_parent(sibling);
        lemma_ancestor_depth(before, sibling, parent);
    }
}

/// Marking a node dirty leaves the cache of each of its children as it was.
pub proof fn lemma_dirty_spares_children<T: TreeModel>(
    before: &T,
    after: &T,
    node: Node,
    child: Node,
)
    requires
        before.wf(),
        before.contains(node),
        before.contains(child),
        dirtied(before, after, node),
        before.spec_parent(child) == Some(node),
    ensures
        after.spec_cache(child) == before.spec_cache(child),
{
    if is_ancestor_or_self(before, child, node) {
        before.lemma_parent(child);
        lemma_ancestor_depth(before, child, node);
    }
}

/// Whether a node has the same style, layout and measure in two states of
/// a store.
pub open spec fn same_content<T: TreeModel>(before: &T, after: &T, node: Node) -> bool {
    &&& after.spec_style(node) == before.spec_style(node)
    &&& after.spec_layout(node) == before.spec_layout(node)
    &&& after.spec_needs_measure(node) == before.spec_needs_measure(node)
    &&& forall|known_dimensions: Size<Option<Scalar>>, available_space: Size<AvailableSpace>|
        #[trigger] after.spec_measure(node, known_dimensions, available_space)
            == before.spec_measure(node, known_dimensions, available_space)
}

/// What a change at `node` does to the caches of the nodes that stay: that
/// of `node` and of each of its ancestors in the tree as it is afterwards
/// is empty, and every other cache is as it was.
pub open spec fn dirty_from<T: TreeModel>(before: &T, after: &T, node: Node) -> bool {
    forall|other: Node|
        #![trigger after.spec_cache(other)]
        before.contains(other) && after.contains(other) ==> {
            &&& is_ancestor_or_self(after, other, node) ==> after.spec_cache(other).spec_is_empty()
            &&& !is_ancestor_or_self(after, other, node) ==> after.spec_cache(other)
                == before.spec_cache(other)
        }
}

/// Where the nodes from `node` up to its root have the same parents in two
/// states of a store, `node` has the same ancestors in both.
pub proof fn lemma_same_ancestors<T: TreeModel>(
    before: &T,
    after: &T,
    ancestor: Node,
    node: Node,
)
    requires
        before.wf(),
        after.wf(),
        before.contains(node),
        forall|above: Node| #[trigger]
            is_ancestor_or_self(before, above, node) ==> after.contains(above)
                && after.spec_parent(above) == before.spec_parent(above),
    ensures
        is_ancestor_or_self(after, ancestor, node) == is_ancestor_or_self(before, ancestor, node),
    decreases before.depth(node),
{
    assert(is_ancestor_or_self(before, node, node));
    if before.spec_parent(node) is Some {
        let parent = before.spec_parent(node)->Some_0;
        before.lemma_parent(node);
        after.lemma_parent(node);
        assert forall|above: Node| #[trigger]
            is_ancestor_or_self(before, above, parent) implies after.contains(above)
            && after.spec_parent(above) == before.spec_parent(above) by {
            assert(is_ancestor_or_self(before, above, node));
        }
        lemma_same_ancestors(before, after, ancestor, parent);
    }
}

/// Marking dirty after a change: the caches are as `dirty_from` says of
/// the tree before the change.
pub proof fn lemma_dirtied_after_change<T: TreeModel>(
    before: &T,
    changed: &T,
    after: &T,
    node: Node,
)
    requires
        changed.wf(),
        after.wf(),
        changed.contains(node),
        same_nodes(changed, after),
        dirtied(changed, after, node),
        forall|other: Node| #[trigger]
            changed.contains(other) && before.contains(other) ==> changed.spec_cache(other)
                == before.spec_cache(other),
    ensures
        dirty_from(before, after, node),
{
    assert forall|other: Node|
        #![trigger after.spec_cache(other)]
        before.contains(other) && after.contains(other) implies ({
        &&& is_ancestor_or_self(after, other, node) ==> after.spec_cache(other).spec_is_empty()
        &&& !is_ancestor_or_self(after, other, node) ==> after.spec_cache(other)
            == before.spec_cache(other)
    }) by {
        assert(changed.contains(other));
        assert forall|above: Node| #[trigger]
            is_ancestor_or_self(changed, above, node) implies after.contains(above)
            && after.spec_parent(above) == changed.spec_parent(above) by {
            lemma_ancestor_contained(changed, above, node);
        }
        lemma_same_ancestors(changed, after, other, node);
    }
}

} // verus!
