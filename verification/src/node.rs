//! Nodes, what is kept for each of them, and a tree that keeps it.

use crate::data::CACHE_SIZE;
use crate::geometry::Size;
use crate::layout::{AvailableSpace, Cache, RunMode, SizingMode};
use crate::error::{TaffyError, TaffyResult};
use crate::layout::Layout;
use crate::scalar::Scalar;
use crate::style::Style;
use crate::compute::{compute_layout, laid_out, root_size};
use crate::tree::{
    dirtied, dirty_from, is_ancestor_or_self, lemma_ancestor_contained, lemma_ancestor_depth,
    lemma_dirtied_after_change, lemma_same_ancestors, mark_dirty_internal, same_content,
    same_nodes, LayoutTree, TreeModel,
};
use vstd::prelude::*;

verus! {

/// The handle of a node in a tree.
#[derive(Clone, Copy, Debug, PartialEq, Eq, Structural, PartialOrd, Ord, Hash)]
pub struct Node(pub u64);

/// What computes the size of a leaf from its content. It answers from its
/// two arguments alone: the same request gets the same size.
pub trait Measurable {
    /// The size of the content for a request.
    spec fn spec_measure(
        &self,
        known_dimensions: Size<Option<Scalar>>,
        available_space: Size<AvailableSpace>,
    ) -> Size<Scalar>;

    fn measure(
        &self,
        known_dimensions: Size<Option<Scalar>>,
        available_space: Size<AvailableSpace>,
    ) -> (r: Size<Scalar>)
        ensures
            r == self.spec_measure(known_dimensions, available_space),
    ;
}

/// Content of a size of its own: it measures as that size, whatever is known
/// and whatever room there is.
impl Measurable for Size<Scalar> {
    open spec fn spec_measure(
        &self,
        known_dimensions: Size<Option<Scalar>>,
        available_space: Size<AvailableSpace>,
    ) -> Size<Scalar> {
        *self
    }

    fn measure(
        &self,
        known_dimensions: Size<Option<Scalar>>,
        available_space: Size<AvailableSpace>,
    ) -> (r: Size<Scalar>) {
        *self
    }
}

/// The answers that a node remembers, one slot for each.
#[derive(Clone, Copy, Debug, PartialEq, Eq)]
pub struct SizeCache(pub [Option<Cache>; CACHE_SIZE]);

/// The first slot from `from` on that answers the request, if any.
pub open spec fn find_match(
    slots: Seq<Option<Cache>>,
    from: int,
    known_dimensions: Size<Option<Scalar>>,
    available_space: Size<AvailableSpace>,
    run_mode: RunMode,
    sizing_mode: SizingMode,
) -> Option<int>
    decreases slots.len() - from,
{
    if from < 0 || from >= slots.len() {
        None
    } else if slots[from] is Some && slots[from]->Some_0.spec_matches(
        known_dimensions,
        available_space,
        run_mode,
        sizing_mode,
    ) {
        Some(from)
    } else {
        find_match(slots, from + 1, known_dimensions, available_space, run_mode, sizing_mode)
    }
}

/// The first empty slot from `from` on, if any.
pub open spec fn find_free(slots: Seq<Option<Cache>>, from: int) -> Option<int>
    decreases slots.len() - from,
{
    if from < 0 || from >= slots.len() {
        None
    } else if slots[from] is None {
        Some(from)
    } else {
        find_free(slots, from + 1)
    }
}

/// The slot that an answer to the request is written to: the one that
/// answers the same request already; else the first empty one; else the
/// first one.
pub open spec fn slot_for(
    slots: Seq<Option<Cache>>,
    known_dimensions: Size<Option<Scalar>>,
    available_space: Size<AvailableSpace>,
    run_mode: RunMode,
    sizing_mode: SizingMode,
) -> int {
    match find_match(slots, 0, known_dimensions, available_space, run_mode, sizing_mode) {
        Some(slot) => slot,
        None => match find_free(slots, 0) {
            Some(slot) => slot,
            None => 0,
        },
    }
}

/// The size that the slots remember for a request, if any.
pub open spec fn lookup_in(
    slots: Seq<Option<Cache>>,
    known_dimensions: Size<Option<Scalar>>,
    available_space: Size<AvailableSpace>,
    run_mode: RunMode,
    sizing_mode: SizingMode,
) -> Option<Size<Scalar>> {
    match find_match(slots, 0, known_dimensions, available_space, run_mode, sizing_mode) {
        Some(slot) => Some(slots[slot]->Some_0.cached_size),
        None => None,
    }
}

/// The slots after `entry` is remembered.
pub open spec fn store_in(slots: Seq<Option<Cache>>, entry: Cache) -> Seq<Option<Cache>> {
    slots.update(
        slot_for(
            slots,
            entry.known_dimensions,
            entry.available_space,
            entry.run_mode,
            entry.sizing_mode,
        ),
        Some(entry),
    )
}

/// Whether the slot at `at` answers the request.
pub open spec fn answers(
    slots: Seq<Option<Cache>>,
    at: int,
    known_dimensions: Size<Option<Scalar>>,
    available_space: Size<AvailableSpace>,
    run_mode: RunMode,
    sizing_mode: SizingMode,
) -> bool {
    slots[at] is Some && slots[at]->Some_0.spec_matches(
        known_dimensions,
        available_space,
        run_mode,
        sizing_mode,
    )
}

/// What `find_match` finds is the first slot that answers the request, and
/// it finds none only where none answers.
pub proof fn lemma_find_match(
    slots: Seq<Option<Cache>>,
    from: int,
    known_dimensions: Size<Option<Scalar>>,
    available_space: Size<AvailableSpace>,
    run_mode: RunMode,
    sizing_mode: SizingMode,
)
    requires
        0 <= from,
    ensures
        match find_match(slots, from, known_dimensions, available_space, run_mode, sizing_mode) {
            Some(slot) => {
                &&& from <= slot < slots.len()
                &&& answers(slots, slot, known_dimensions, available_space, run_mode, sizing_mode)
                &&& forall|i: int|
                    from <= i < slot ==> !answers(
                        slots,
                        i,
                        known_dimensions,
                        available_space,
                        run_mode,
                        sizing_mode,
                    )
            },
            None => forall|i: int|
                from <= i < slots.len() ==> !answers(
                    slots,
                    i,
                    known_dimensions,
                    available_space,
                    run_mode,
                    sizing_mode,
                ),
        },
    decreases slots.len() - from,
{
    if from < slots.len() && !answers(
        slots,
        from,
        known_dimensions,
        available_space,
        run_mode,
        sizing_mode,
    ) {
        lemma_find_match(
            slots,
            from + 1,
            known_dimensions,
            available_space,
            run_mode,
            sizing_mode,
        );
    }
}

/// The first slot that answers the request is what `find_match` finds.
pub proof fn lemma_first_match(
    slots: Seq<Option<Cache>>,
    from: int,
    slot: int,
    known_dimensions: Size<Option<Scalar>>,
    available_space: Size<AvailableSpace>,
    run_mode: RunMode,
    sizing_mode: SizingMode,
)
    requires
        0 <= from <= slot < slots.len(),
        answers(slots, slot, known_dimensions, available_space, run_mode, sizing_mode),
        forall|i: int|
            from <= i < slot ==> !answers(
                slots,
                i,
                known_dimensions,
                available_space,
                run_mode,
                sizing_mode,
            ),
    ensures
        find_match(slots, from, known_dimensions, available_space, run_mode, sizing_mode) == Some(
            slot,
        ),
    decreases slot - from,
{
    if from < slot {
        assert(!answers(
            slots,
            from,
            known_dimensions,
            available_space,
            run_mode,
            sizing_mode,
        ));
        lemma_first_match(
            slots,
            from + 1,
            slot,
            known_dimensions,
            available_space,
            run_mode,
            sizing_mode,
        );
    }
}

/// The slot that an entry is written to exists.
pub proof fn lemma_slot_for(
    slots: Seq<Option<Cache>>,
    known_dimensions: Size<Option<Scalar>>,
    available_space: Size<AvailableSpace>,
    run_mode: RunMode,
    sizing_mode: SizingMode,
)
    requires
        slots.len() > 0,
    ensures
        0 <= slot_for(slots, known_dimensions, available_space, run_mode, sizing_mode)
            < slots.len(),
{
    lemma_find_match(slots, 0, known_dimensions, available_space, run_mode, sizing_mode);
    lemma_find_free(slots, 0);
}

/// What `find_free` finds is a slot.
pub proof fn lemma_find_free(slots: Seq<Option<Cache>>, from: int)
    requires
        0 <= from,
    ensures
        find_free(slots, from) matches Some(slot) ==> from <= slot < slots.len(),
    decreases slots.len() - from,
{
    if from < slots.len() && slots[from] is Some {
        lemma_find_free(slots, from + 1);
    }
}

/// What is remembered is found again: after an entry is stored, a request
/// with its inputs is answered with its size, and storing it once more
/// changes nothing.
pub proof fn lemma_store_then_lookup(slots: Seq<Option<Cache>>, entry: Cache)
    requires
        slots.len() > 0,
    ensures
        lookup_in(
            store_in(slots, entry),
            entry.known_dimensions,
            entry.available_space,
            entry.run_mode,
            entry.sizing_mode,
        ) == Some(entry.cached_size),
        store_in(store_in(slots, entry), entry) == store_in(slots, entry),
{
    let slot = slot_for(
        slots,
        entry.known_dimensions,
        entry.available_space,
        entry.run_mode,
        entry.sizing_mode,
    );
    let stored = store_in(slots, entry);
    lemma_slot_for(
        slots,
        entry.known_dimensions,
        entry.available_space,
        entry.run_mode,
        entry.sizing_mode,
    );
    lemma_find_match(
        slots,
        0,
        entry.known_dimensions,
        entry.available_space,
        entry.run_mode,
        entry.sizing_mode,
    );
    assert forall|i: int| 0 <= i < slot implies !answers(
        stored,
        i,
        entry.known_dimensions,
        entry.available_space,
        entry.run_mode,
        entry.sizing_mode,
    ) by {
        assert(stored[i] == slots[i]);
        assert(!answers(
            slots,
            i,
            entry.known_dimensions,
            entry.available_space,
            entry.run_mode,
            entry.sizing_mode,
        ));
    }
    lemma_first_match(
        stored,
        0,
        slot,
        entry.known_dimensions,
        entry.available_space,
        entry.run_mode,
        entry.sizing_mode,
    );
    assert(store_in(stored, entry) =~= stored);
}

/// A cache of which every slot is empty answers no request.
pub proof fn lemma_empty_answers_nothing(
    slots: Seq<Option<Cache>>,
    known_dimensions: Size<Option<Scalar>>,
    available_space: Size<AvailableSpace>,
    run_mode: RunMode,
    sizing_mode: SizingMode,
)
    requires
        forall|i: int| 0 <= i < slots.len() ==> (#[trigger] slots[i]) is None,
    ensures
        lookup_in(slots, known_dimensions, available_space, run_mode, sizing_mode) is None,
{
    lemma_find_match(slots, 0, known_dimensions, available_space, run_mode, sizing_mode);
}

impl SizeCache {
    /// The slots in their order.
    pub open spec fn view(&self) -> Seq<Option<Cache>> {
        self.0@
    }

    /// Whether every slot is empty: the node is dirty.
    pub open spec fn spec_is_empty(&self) -> bool {
        forall|i: int| 0 <= i < CACHE_SIZE ==> (#[trigger] self@[i]) is None
    }

    /// The size remembered for a request, if any.
    pub open spec fn spec_lookup(
        &self,
        known_dimensions: Size<Option<Scalar>>,
        available_space: Size<AvailableSpace>,
        run_mode: RunMode,
        sizing_mode: SizingMode,
    ) -> Option<Size<Scalar>> {
        lookup_in(self@, known_dimensions, available_space, run_mode, sizing_mode)
    }

    /// The slots after `entry` is remembered.
    pub open spec fn spec_store(&self, entry: Cache) -> Seq<Option<Cache>> {
        store_in(self@, entry)
    }

    /// A cache that remembers nothing.
    pub fn new() -> (r: SizeCache)
        ensures
            r.spec_is_empty(),
    {
        SizeCache([None, None, None, None, None, None, None])
    }

    #[verifier::when_used_as_spec(spec_is_empty)]
    pub fn is_empty(&self) -> (r: bool)
        ensures
            r == self.spec_is_empty(),
    {
        let mut i: usize = 0;
        while i < CACHE_SIZE
            invariant
                i <= CACHE_SIZE,
                forall|j: int| 0 <= j < i ==> (#[trigger] self@[j]) is None,
            decreases CACHE_SIZE - i,
        {
            if self.0[i].is_some() {
                return false;
            }
            i += 1;
        }
        true
    }

    /// Forgets every answer.
    pub fn clear(&mut self)
        ensures
            final(self).spec_is_empty(),
    {
        self.0 = [None, None, None, None, None, None, None];
    }

    #[verifier::when_used_as_spec(spec_lookup)]
    pub fn lookup(
        &self,
        known_dimensions: Size<Option<Scalar>>,
        available_space: Size<AvailableSpace>,
        run_mode: RunMode,
        sizing_mode: SizingMode,
    ) -> (r: Option<Size<Scalar>>)
        ensures
            r == self.spec_lookup(known_dimensions, available_space, run_mode, sizing_mode),
    {
        match self.find(known_dimensions, available_space, run_mode, sizing_mode) {
            Some(slot) => match self.0[slot] {
                Some(entry) => Some(entry.cached_size),
                None => None,
            },
            None => None,
        }
    }

    /// Remembers `entry`: in the slot that answers the same request already;
    /// else in the first empty slot; else in the first slot.
    pub fn store(&mut self, entry: Cache)
        ensures
            final(self)@ == old(self).spec_store(entry),
    {
        let slot = match self.find(
            entry.known_dimensions,
            entry.available_space,
            entry.run_mode,
            entry.sizing_mode,
        ) {
            Some(slot) => slot,
            None => match self.free() {
                Some(slot) => slot,
                None => 0,
            },
        };
        self.0[slot] = Some(entry);
    }

    fn find(
        &self,
        known_dimensions: Size<Option<Scalar>>,
        available_space: Size<AvailableSpace>,
        run_mode: RunMode,
        sizing_mode: SizingMode,
    ) -> (r: Option<usize>)
        ensures
            match find_match(self@, 0, known_dimensions, available_space, run_mode, sizing_mode) {
                Some(slot) => r == Some(slot as usize) && 0 <= slot < CACHE_SIZE && self@[slot] is Some,
                None => r is None,
            },
    {
        let mut i: usize = 0;
        while i < CACHE_SIZE
            invariant
                i <= CACHE_SIZE,
                self@.len() == CACHE_SIZE,
                find_match(self@, 0, known_dimensions, available_space, run_mode, sizing_mode)
                    == find_match(
                    self@,
                    i as int,
                    known_dimensions,
                    available_space,
                    run_mode,
                    sizing_mode,
                ),
            decreases CACHE_SIZE - i,
        {
            match self.0[i] {
                Some(entry) => {
                    if entry.matches(known_dimensions, available_space, run_mode, sizing_mode) {
                        return Some(i);
                    }
                },
                None => {},
            }
            i += 1;
        }
        None
    }

    fn free(&self) -> (r: Option<usize>)
        ensures
            match find_free(self@, 0) {
                Some(slot) => r == Some(slot as usize) && 0 <= slot < CACHE_SIZE,
                None => r is None,
            },
    {
        let mut i: usize = 0;
        while i < CACHE_SIZE
            invariant
                i <= CACHE_SIZE,
                self@.len() == CACHE_SIZE,
                find_free(self@, 0) == find_free(self@, i as int),
            decreases CACHE_SIZE - i,
        {
            if self.0[i].is_none() {
                return Some(i);
            }
            i += 1;
        }
        None
    }
}

impl Default for SizeCache {
    fn default() -> (r: SizeCache)
        ensures
            r.spec_is_empty(),
    {
        SizeCache::new()
    }
}

/// What the tree keeps for one node.
pub struct NodeData<M> {
    style: Style,
    layout: Layout,
    cache: SizeCache,
    /// What measures the content, for a leaf that is sized so.
    measure: Option<M>,
    parent: Option<Node>,
    children: Vec<Node>,
}

/// A tree of nodes kept in one vector: a node's handle is its place in it.
/// A node that is removed keeps its place, so that no handle is ever given
/// out twice.
pub struct Taffy<M: Measurable> {
    nodes: Vec<NodeData<M>>,
    /// For each place, whether its node has not been removed.
    alive: Vec<bool>,
    /// For each place, a number that is larger than that of the parent.
    depth: Ghost<Seq<nat>>,
}

impl<M: Measurable> TreeModel for Taffy<M> {
    closed spec fn wf(&self) -> bool {
        &&& self.nodes@.len() <= usize::MAX
        &&& self.alive@.len() == self.nodes@.len()
        &&& self.depth@.len() == self.nodes@.len()
        &&& forall|i: int|
            0 <= i < self.nodes@.len() && self.alive@[i] && (#[trigger] self.nodes@[i]).parent
                is Some ==> {
                let parent = self.nodes@[i].parent->Some_0;
                &&& parent.0 < self.nodes@.len()
                &&& self.alive@[parent.0 as int]
                &&& self.depth@[parent.0 as int] < self.depth@[i]
            }
    }

    closed spec fn contains(&self, node: Node) -> bool {
        node.0 < self.nodes@.len() && self.alive@[node.0 as int]
    }

    closed spec fn spec_parent(&self, node: Node) -> Option<Node> {
        self.nodes@[node.0 as int].parent
    }

    closed spec fn spec_children(&self, node: Node) -> Seq<Node> {
        self.nodes@[node.0 as int].children@
    }

    closed spec fn spec_style(&self, node: Node) -> Style {
        self.nodes@[node.0 as int].style
    }

    closed spec fn spec_layout(&self, node: Node) -> Layout {
        self.nodes@[node.0 as int].layout
    }

    closed spec fn spec_cache(&self, node: Node) -> SizeCache {
        self.nodes@[node.0 as int].cache
    }

    closed spec fn spec_needs_measure(&self, node: Node) -> bool {
        self.nodes@[node.0 as int].measure is Some
    }

    closed spec fn spec_measure(
        &self,
        node: Node,
        known_dimensions: Size<Option<Scalar>>,
        available_space: Size<AvailableSpace>,
    ) -> Size<Scalar> {
        self.nodes@[node.0 as int].measure->Some_0.spec_measure(known_dimensions, available_space)
    }

    closed spec fn depth(&self, node: Node) -> nat {
        self.depth@[node.0 as int]
    }

    proof fn lemma_parent(&self, node: Node) {
    }
}

impl<M: Measurable> Taffy<M> {
    /// The place of a node in the vector.
    fn slot(&self, node: Node) -> (slot: usize)
        requires
            self.contains(node),
        ensures
            slot == node.0,
            slot < self.nodes@.len(),
    {
        let len = self.nodes.len();
        node.0 as usize
    }

    /// Whether the handle names a node of the tree: one that was added and
    /// has not been removed.
    pub fn live(&self, node: Node) -> (r: bool)
        requires
            self.wf(),
        ensures
            r == self.contains(node),
    {
        let len = self.alive.len();
        if node.0 < len as u64 {
            self.alive[node.0 as usize]
        } else {
            false
        }
    }

    /// An empty tree.
    pub fn new() -> (r: Self)
        ensures
            r.wf(),
            forall|node: Node| !r.contains(node),
    {
        Taffy { nodes: Vec::new(), alive: Vec::new(), depth: Ghost(Seq::empty()) }
    }

    /// An empty tree with room for `capacity` nodes.
    pub fn with_capacity(capacity: usize) -> (r: Self)
        ensures
            r.wf(),
            forall|node: Node| !r.contains(node),
    {
        Taffy {
            nodes: Vec::with_capacity(capacity),
            alive: Vec::with_capacity(capacity),
            depth: Ghost(Seq::empty()),
        }
    }

    /// Adds a node of its own: no parent, no children, nothing remembered.
    fn insert(&mut self, style: Style, measure: Option<M>) -> (node: Node)
        requires
            old(self).wf(),
        ensures
            final(self).wf(),
            !old(self).contains(node),
            forall|other: Node| #[trigger]
                final(self).contains(other) == (old(self).contains(other) || other == node),
            final(self).nodes@ == old(self).nodes@.push(final(self).nodes@[node.0 as int]),
            final(self).nodes@[node.0 as int].style == style,
            final(self).nodes@[node.0 as int].measure == measure,
            final(self).nodes@[node.0 as int].layout == Layout::spec_with_order(0),
            final(self).nodes@[node.0 as int].cache.spec_is_empty(),
            final(self).nodes@[node.0 as int].parent is None,
            final(self).nodes@[node.0 as int].children@.len() == 0,
            final(self).depth@ == old(self).depth@.push(0),
            final(self).alive@ == old(self).alive@.push(true),
    {
        let len = self.nodes.len();
        let node = Node(len as u64);
        self.nodes.push(
            NodeData {
                style,
                layout: Layout::new(),
                cache: SizeCache::new(),
                measure,
                parent: None,
                children: Vec::new(),
            },
        );
        self.alive.push(true);
        proof {
            self.depth@ = self.depth@.push(0);
        }
        let count = self.nodes.len();
        node
    }

    /// Adds a leaf of its own to the tree: no parent, no children, nothing
    /// remembered, and sized without measuring.
    pub fn new_leaf(&mut self, style: Style) -> (r: TaffyResult<Node>)
        requires
            old(self).wf(),
        ensures
            final(self).wf(),
            r is Ok,
            added(old(self), final(self), r->Ok_0),
            final(self).spec_style(r->Ok_0) == style,
            !final(self).spec_needs_measure(r->Ok_0),
    {
        Ok(self.insert(style, None))
    }

    /// Adds a leaf of its own that is sized by measuring its content.
    pub fn new_leaf_with_measure(&mut self, style: Style, measure: M) -> (r: TaffyResult<Node>)
        requires
            old(self).wf(),
        ensures
            final(self).wf(),
            r is Ok,
            added(old(self), final(self), r->Ok_0),
            final(self).spec_style(r->Ok_0) == style,
            final(self).spec_needs_measure(r->Ok_0),
            forall|known_dimensions: Size<Option<Scalar>>, available_space: Size<AvailableSpace>|
                #[trigger] final(self).spec_measure(r->Ok_0, known_dimensions, available_space)
                    == measure.spec_measure(known_dimensions, available_space),
    {
        Ok(self.insert(style, Some(measure)))
    }

    /// The number of children of a node.
    pub fn child_count(&self, parent: Node) -> (r: TaffyResult<usize>)
        requires
            self.wf(),
        ensures
            self.contains(parent) ==> r == Ok::<usize, TaffyError>(
                self.spec_children(parent).len() as usize,
            ),
            !self.contains(parent) ==> r == Err::<usize, TaffyError>(
                TaffyError::InvalidParentNode(parent),
            ),
    {
        if !self.live(parent) {
            return Err(TaffyError::InvalidParentNode(parent));
        }
        Ok(LayoutTree::child_count(self, parent))
    }

    /// The children of a node, in their order.
    pub fn children_list(&self, parent: Node) -> (r: TaffyResult<Vec<Node>>)
        requires
            self.wf(),
        ensures
            self.contains(parent) ==> r is Ok && r->Ok_0@ == self.spec_children(parent),
            !self.contains(parent) ==> r == Err::<Vec<Node>, TaffyError>(
                TaffyError::InvalidParentNode(parent),
            ),
    {
        if !self.live(parent) {
            return Err(TaffyError::InvalidParentNode(parent));
        }
        Ok(LayoutTree::children(self, parent))
    }

    /// The child at place `child_index` among the children of a node.
    pub fn child_at_index(&self, parent: Node, child_index: usize) -> (r: TaffyResult<Node>)
        requires
            self.wf(),
        ensures
            r == if !self.contains(parent) {
                Err::<Node, TaffyError>(TaffyError::InvalidParentNode(parent))
            } else if child_index >= self.spec_children(parent).len() {
                Err::<Node, TaffyError>(
                    TaffyError::ChildIndexOutOfBounds {
                        parent,
                        child_index,
                        child_count: self.spec_children(parent).len() as usize,
                    },
                )
            } else {
                Ok::<Node, TaffyError>(self.spec_children(parent)[child_index as int])
            },
    {
        if !self.live(parent) {
            return Err(TaffyError::InvalidParentNode(parent));
        }
        let child_count = LayoutTree::child_count(self, parent);
        if child_index >= child_count {
            return Err(TaffyError::ChildIndexOutOfBounds { parent, child_index, child_count });
        }
        Ok(LayoutTree::child(self, parent, child_index))
    }

    /// The style of a node.
    pub fn style(&self, node: Node) -> (r: TaffyResult<&Style>)
        requires
            self.wf(),
        ensures
            self.contains(node) ==> r is Ok && *r->Ok_0 == self.spec_style(node),
            !self.contains(node) ==> r == Err::<&Style, TaffyError>(
                TaffyError::InvalidInputNode(node),
            ),
    {
        if !self.live(node) {
            return Err(TaffyError::InvalidInputNode(node));
        }
        Ok(LayoutTree::style(self, node))
    }

    /// Where the last layout pass has put a node.
    pub fn layout(&self, node: Node) -> (r: TaffyResult<&Layout>)
        requires
            self.wf(),
        ensures
            self.contains(node) ==> r is Ok && *r->Ok_0 == self.spec_layout(node),
            !self.contains(node) ==> r == Err::<&Layout, TaffyError>(
                TaffyError::InvalidInputNode(node),
            ),
    {
        if !self.live(node) {
            return Err(TaffyError::InvalidInputNode(node));
        }
        Ok(LayoutTree::layout(self, node))
    }

    /// Whether a node is dirty: its cache remembers nothing, so that the
    /// next request on it is computed anew.
    pub fn dirty(&self, node: Node) -> (r: TaffyResult<bool>)
        requires
            self.wf(),
        ensures
            self.contains(node) ==> r == Ok::<bool, TaffyError>(
                self.spec_cache(node).spec_is_empty(),
            ),
            !self.contains(node) ==> r == Err::<bool, TaffyError>(
                TaffyError::InvalidInputNode(node),
            ),
    {
        if !self.live(node) {
            return Err(TaffyError::InvalidInputNode(node));
        }
        let slot = self.slot(node);
        Ok(self.nodes[slot].cache.is_empty())
    }

    /// Marks a node dirty: empties its cache and that of each of its
    /// ancestors.
    pub fn mark_dirty(&mut self, node: Node) -> (r: TaffyResult<()>)
        requires
            old(self).wf(),
        ensures
            final(self).wf(),
            old(self).contains(node) ==> r is Ok && same_nodes(old(self), final(self)) && dirtied(
                old(self),
                final(self),
                node,
            ),
            !old(self).contains(node) ==> r == Err::<(), TaffyError>(
                TaffyError::InvalidInputNode(node),
            ) && *final(self) == *old(self),
    {
        if !self.live(node) {
            return Err(TaffyError::InvalidInputNode(node));
        }
        mark_dirty_internal(self, node)
    }

    /// Lays out the tree below `root` in the available space: see
    /// `compute::compute_layout`.
    pub fn compute_layout(&mut self, root: Node, available_space: Size<AvailableSpace>) -> (r:
        Result<(), TaffyError>)
        requires
            old(self).wf(),
        ensures
            final(self).wf(),
            !old(self).contains(root) ==> r == Err::<(), TaffyError>(
                TaffyError::InvalidInputNode(root),
            ) && *final(self) == *old(self),
            old(self).contains(root) ==> {
                &&& r is Ok <==> root_size(old(self), root, available_space) is Some
                &&& r is Ok ==> laid_out(old(self), final(self), root, available_space)
                &&& r is Err ==> r == Err::<(), TaffyError>(TaffyError::UnsizedContainer(root))
            },
    {
        if !self.live(root) {
            return Err(TaffyError::InvalidInputNode(root));
        }
        compute_layout(self, root, available_space)
    }

    /// Whether `ancestor` is `node` or stands above it.
    pub fn is_ancestor(&self, ancestor: Node, node: Node) -> (r: bool)
        requires
            self.wf(),
            self.contains(node),
        ensures
            r == is_ancestor_or_self(self, ancestor, node),
    {
        let mut current = node;
        loop
            invariant
                self.wf(),
                self.contains(current),
                is_ancestor_or_self(self, ancestor, node) == is_ancestor_or_self(
                    self,
                    ancestor,
                    current,
                ),
            decreases self.depth(current),
        {
            if current.0 == ancestor.0 {
                return true;
            }
            let slot = self.slot(current);
            match self.nodes[slot].parent {
                Some(parent) => {
                    current = parent;
                },
                None => {
                    return false;
                },
            }
        }
    }

    /// The depths after `child`, with all that is below it, has moved under
    /// `parent`.
    #[verifier::opaque]
    spec fn moved_depths(&self, parent: Node, child: Node) -> Seq<nat> {
        Seq::new(
            self.depth@.len(),
            |i: int|
                if is_ancestor_or_self(self, child, Node(i as u64)) {
                    self.depth@[i] + self.depth@[parent.0 as int] + 1
                } else {
                    self.depth@[i]
                },
        )
    }

    /// Whether `after` is `self` but for the parent of `child`, and every
    /// node that is not below `child` has the ancestors it had.
    spec fn reparented(&self, after: &Self, child: Node, parent: Option<Node>) -> bool {
        &&& after.wf()
        &&& after.nodes@.len() == self.nodes@.len()
        &&& after.nodes@[child.0 as int].parent == parent
        &&& after.alive@ == self.alive@
        &&& after.nodes@[child.0 as int].style == self.nodes@[child.0 as int].style
        &&& after.nodes@[child.0 as int].layout == self.nodes@[child.0 as int].layout
        &&& after.nodes@[child.0 as int].cache == self.nodes@[child.0 as int].cache
        &&& after.nodes@[child.0 as int].measure == self.nodes@[child.0 as int].measure
        &&& after.nodes@[child.0 as int].children == self.nodes@[child.0 as int].children
        &&& forall|i: int|
            0 <= i < self.nodes@.len() && i != child.0 ==> #[trigger] after.nodes@[i]
                == self.nodes@[i]
        &&& forall|node: Node, above: Node|
            #![trigger is_ancestor_or_self(after, above, node)]
            self.contains(node) && !is_ancestor_or_self(self, child, node)
                ==> is_ancestor_or_self(after, above, node) == is_ancestor_or_self(
                self,
                above,
                node,
            )
    }

    /// The nodes that are not below `child` keep their ancestors when only
    /// the parent of `child` changes.
    proof fn lemma_reparented(&self, after: &Self, child: Node)
        requires
            self.wf(),
            after.wf(),
            forall|node: Node| #[trigger] after.contains(node) == self.contains(node),
            forall|node: Node|
                self.contains(node) && node != child ==> #[trigger] after.spec_parent(node)
                    == self.spec_parent(node),
        ensures
            forall|node: Node, above: Node|
                #![trigger is_ancestor_or_self(after, above, node)]
                self.contains(node) && !is_ancestor_or_self(self, child, node)
                    ==> is_ancestor_or_self(after, above, node) == is_ancestor_or_self(
                    self,
                    above,
                    node,
                ),
    {
        assert forall|node: Node, above: Node|
            #![trigger is_ancestor_or_self(after, above, node)]
            self.contains(node) && !is_ancestor_or_self(self, child, node) implies is_ancestor_or_self(
            after,
            above,
            node,
        ) == is_ancestor_or_self(self, above, node) by {
            assert forall|m: Node| #[trigger]
                is_ancestor_or_self(self, m, node) implies after.contains(m) && after.spec_parent(m)
                == self.spec_parent(m) by {
                lemma_ancestor_contained(self, m, node);
            }
            lemma_same_ancestors(self, after, above, node);
        }
    }

    /// What `moved_depths` holds for a node.
    proof fn lemma_moved_depth(&self, parent: Node, child: Node, node: Node)
        requires
            self.wf(),
            self.contains(node),
        ensures
            self.moved_depths(parent, child)[node.0 as int] == if is_ancestor_or_self(
                self,
                child,
                node,
            ) {
                self.depth(node) + self.depth@[parent.0 as int] + 1
            } else {
                self.depth(node)
            },
    {
        reveal(Taffy::moved_depths);
        assert(Node(node.0 as int as u64) == node);
    }

    /// After the move a node that is not `child` is still deeper than its
    /// parent.
    proof fn lemma_moved_step(&self, parent: Node, child: Node, node: Node)
        requires
            self.wf(),
            self.contains(node),
            node != child,
            self.spec_parent(node) is Some,
        ensures
            self.moved_depths(parent, child)[self.spec_parent(node)->Some_0.0 as int]
                < self.moved_depths(parent, child)[node.0 as int],
    {
        let above = self.spec_parent(node)->Some_0;
        self.lemma_parent(node);
        self.lemma_moved_depth(parent, child, node);
        self.lemma_moved_depth(parent, child, above);
        assert(is_ancestor_or_self(self, child, node) == is_ancestor_or_self(self, child, above));
    }

    /// After the move `child` is deeper than `parent`.
    proof fn lemma_moved_child(&self, parent: Node, child: Node)
        requires
            self.wf(),
            self.contains(parent),
            self.contains(child),
            !is_ancestor_or_self(self, child, parent),
        ensures
            self.moved_depths(parent, child)[parent.0 as int] < self.moved_depths(
                parent,
                child,
            )[child.0 as int],
    {
        self.lemma_moved_depth(parent, child, parent);
        self.lemma_moved_depth(parent, child, child);
        assert(is_ancestor_or_self(self, child, child));
    }

    /// Moving `child` under a node that is not below it leaves no cycle.
    proof fn lemma_attach_wf(&self, after: &Self, parent: Node, child: Node)
        requires
            self.wf(),
            self.contains(parent),
            self.contains(child),
            !is_ancestor_or_self(self, child, parent),
            after.nodes@.len() == self.nodes@.len(),
            after.alive@ == self.alive@,
            after.depth@ == self.moved_depths(parent, child),
            after.depth@.len() == self.depth@.len(),
            after.nodes@[child.0 as int].parent == Some(parent),
            forall|i: int|
                0 <= i < self.nodes@.len() && i != child.0 ==> (#[trigger] after.nodes@[i]).parent
                    == self.nodes@[i].parent,
        ensures
            after.wf(),
    {
        assert forall|i: int|
            0 <= i < after.nodes@.len() && after.alive@[i] && (#[trigger] after.nodes@[i]).parent
                is Some implies ({
            let above = after.nodes@[i].parent->Some_0;
            &&& above.0 < after.nodes@.len()
            &&& after.alive@[above.0 as int]
            &&& after.depth@[above.0 as int] < after.depth@[i]
        }) by {
            let node = Node(i as u64);
            assert(node.0 == i);
            assert(self.contains(node));
            if i != child.0 {
                assert(self.spec_parent(node) == after.nodes@[i].parent);
                self.lemma_parent(node);
                self.lemma_moved_step(parent, child, node);
            } else {
                assert(node == child);
                self.lemma_moved_child(parent, child);
            }
        }
    }

    /// Puts `child`, with all that is below it, under `parent`.
    fn attach(&mut self, parent: Node, child: Node)
        requires
            old(self).wf(),
            old(self).contains(parent),
            old(self).contains(child),
            !is_ancestor_or_self(old(self), child, parent),
        ensures
            old(self).reparented(final(self), child, Some(parent)),
    {
        let ghost before = *self;
        let slot = self.slot(child);
        self.nodes[slot].parent = Some(parent);
        self.depth = Ghost(before.moved_depths(parent, child));
        proof {
            assert(self.depth@.len() == before.depth@.len()) by {
                reveal(Taffy::moved_depths);
            }
            before.lemma_kept(self, child);
            before.lemma_attach_wf(self, parent, child);
            before.lemma_reparented(self, child);
        }
    }

    /// The nodes other than `child` have the parent they had where only the
    /// place of `child` has changed.
    proof fn lemma_kept(&self, after: &Self, child: Node)
        requires
            after.nodes@.len() == self.nodes@.len(),
            after.alive@ == self.alive@,
            forall|i: int|
                0 <= i < self.nodes@.len() && i != child.0 ==> (#[trigger] after.nodes@[i]).parent
                    == self.nodes@[i].parent,
        ensures
            forall|node: Node| #[trigger] after.contains(node) == self.contains(node),
            forall|node: Node|
                self.contains(node) && node != child ==> #[trigger] after.spec_parent(node)
                    == self.spec_parent(node),
    {
        assert forall|node: Node| self.contains(node) && node != child implies #[trigger]
            after.spec_parent(node) == self.spec_parent(node) by {
            assert(after.nodes@[node.0 as int].parent == self.nodes@[node.0 as int].parent);
        }
    }

    /// Takes `child` from under its parent.
    fn detach(&mut self, child: Node)
        requires
            old(self).wf(),
            old(self).contains(child),
        ensures
            old(self).reparented(final(self), child, None),
    {
        let ghost before = *self;
        let slot = self.slot(child);
        self.nodes[slot].parent = None;
        proof {
            before.lemma_kept(self, child);
            before.lemma_reparented(self, child);
        }
    }

    /// Where every node has the parent it had, every node has the
    /// ancestors it had.
    proof fn lemma_links_kept(&self, after: &Self)
        requires
            self.wf(),
            after.wf(),
            forall|node: Node| #[trigger] after.contains(node) == self.contains(node),
            forall|node: Node|
                self.contains(node) ==> #[trigger] after.spec_parent(node) == self.spec_parent(
                    node,
                ),
        ensures
            forall|node: Node, above: Node|
                #![trigger is_ancestor_or_self(after, above, node)]
                self.contains(node) ==> is_ancestor_or_self(after, above, node)
                    == is_ancestor_or_self(self, above, node),
    {
        assert forall|node: Node, above: Node|
            #![trigger is_ancestor_or_self(after, above, node)]
            self.contains(node) implies is_ancestor_or_self(after, above, node)
            == is_ancestor_or_self(self, above, node) by {
            assert forall|m: Node| #[trigger]
                is_ancestor_or_self(self, m, node) implies after.contains(m) && after.spec_parent(m)
                == self.spec_parent(m) by {
                lemma_ancestor_contained(self, m, node);
            }
            lemma_same_ancestors(self, after, above, node);
        }
    }

    /// Whether `after` is `self` but for the list of children of `parent`.
    spec fn relisted(&self, after: &Self, parent: Node, list: Seq<Node>) -> bool {
        &&& after.wf()
        &&& after.nodes@.len() == self.nodes@.len()
        &&& after.alive@ == self.alive@
        &&& after.depth@ == self.depth@
        &&& after.nodes@[parent.0 as int].children@ == list
        &&& after.nodes@[parent.0 as int].parent == self.nodes@[parent.0 as int].parent
        &&& after.nodes@[parent.0 as int].style == self.nodes@[parent.0 as int].style
        &&& after.nodes@[parent.0 as int].layout == self.nodes@[parent.0 as int].layout
        &&& after.nodes@[parent.0 as int].cache == self.nodes@[parent.0 as int].cache
        &&& after.nodes@[parent.0 as int].measure == self.nodes@[parent.0 as int].measure
        &&& forall|i: int|
            0 <= i < self.nodes@.len() && i != parent.0 ==> #[trigger] after.nodes@[i]
                == self.nodes@[i]
        &&& forall|node: Node, above: Node|
            #![trigger is_ancestor_or_self(after, above, node)]
            self.contains(node) ==> is_ancestor_or_self(after, above, node)
                == is_ancestor_or_self(self, above, node)
    }

    /// Puts `child` at the end of the list of children of `parent`.
    fn list_push(&mut self, parent: Node, child: Node)
        requires
            old(self).wf(),
            old(self).contains(parent),
        ensures
            old(self).relisted(final(self), parent, old(self).spec_children(parent).push(child)),
    {
        let ghost before = *self;
        let slot = self.slot(parent);
        self.nodes[slot].children.push(child);
        proof {
            before.lemma_links_kept(self);
        }
    }

    /// Takes the child at place `index` from the list of children of
    /// `parent`.
    fn list_remove(&mut self, parent: Node, index: usize) -> (child: Node)
        requires
            old(self).wf(),
            old(self).contains(parent),
            index < old(self).spec_children(parent).len(),
        ensures
            child == old(self).spec_children(parent)[index as int],
            old(self).relisted(
                final(self),
                parent,
                old(self).spec_children(parent).remove(index as int),
            ),
    {
        let ghost before = *self;
        let slot = self.slot(parent);
        let child = self.nodes[slot].children.remove(index);
        proof {
            before.lemma_links_kept(self);
        }
        child
    }

    /// Puts `child` in the place `index` of the list of children of
    /// `parent`.
    fn list_set(&mut self, parent: Node, index: usize, child: Node)
        requires
            old(self).wf(),
            old(self).contains(parent),
            index < old(self).spec_children(parent).len(),
        ensures
            old(self).relisted(
                final(self),
                parent,
                old(self).spec_children(parent).update(index as int, child),
            ),
    {
        let ghost before = *self;
        let slot = self.slot(parent);
        self.nodes[slot].children[index] = child;
        proof {
            before.lemma_links_kept(self);
        }
    }

    /// Puts `list` in place of the list of children of `parent`.
    fn list_replace(&mut self, parent: Node, list: Vec<Node>)
        requires
            old(self).wf(),
            old(self).contains(parent),
        ensures
            old(self).relisted(final(self), parent, list@),
    {
        let ghost before = *self;
        let slot = self.slot(parent);
        self.nodes[slot].children = list;
        proof {
            before.lemma_links_kept(self);
        }
    }

    /// What a change of links followed by marking `parent` dirty comes to.
    proof fn lemma_relinked(
        &self,
        changed: &Self,
        after: &Self,
        parent: Node,
        moved: Set<Node>,
    )
        requires
            changed.wf(),
            after.wf(),
            changed.contains(parent),
            changed.nodes@.len() == self.nodes@.len(),
            changed.alive@ == self.alive@,
            forall|i: int|
                0 <= i < self.nodes@.len() ==> {
                    &&& (#[trigger] changed.nodes@[i]).style == self.nodes@[i].style
                    &&& changed.nodes@[i].layout == self.nodes@[i].layout
                    &&& changed.nodes@[i].measure == self.nodes@[i].measure
                    &&& changed.nodes@[i].cache == self.nodes@[i].cache
                    &&& i != parent.0 ==> changed.nodes@[i].children == self.nodes@[i].children
                    &&& !moved.contains(Node(i as u64)) ==> changed.nodes@[i].parent
                        == self.nodes@[i].parent
                },
            same_nodes(changed, after),
            dirtied(changed, after, parent),
        ensures
            relinked(self, after, parent, moved),
            dirty_from(self, after, parent),
            after.spec_children(parent) == changed.spec_children(parent),
            forall|node: Node|
                changed.contains(node) ==> #[trigger] after.spec_parent(node)
                    == changed.spec_parent(node),
    {
        assert forall|node: Node| #[trigger] self.contains(node) implies ({
            &&& same_content(self, after, node)
            &&& node != parent ==> after.spec_children(node) == self.spec_children(node)
            &&& !moved.contains(node) ==> after.spec_parent(node) == self.spec_parent(node)
        }) by {
            assert(changed.contains(node));
            assert(Node(node.0 as int as u64) == node);
            let i = node.0 as int;
            assert(changed.nodes@[i].style == self.nodes@[i].style);
        }
        assert forall|node: Node| #[trigger] after.contains(node) == self.contains(node) by {
            assert(changed.contains(node) == self.contains(node));
        }
        assert forall|node: Node| changed.contains(node) implies #[trigger] after.spec_parent(node)
            == changed.spec_parent(node) by {
        }
        assert forall|other: Node| #[trigger]
            changed.contains(other) && self.contains(other) implies changed.spec_cache(other)
            == self.spec_cache(other) by {
            let i = other.0 as int;
            assert(changed.nodes@[i].cache == self.nodes@[i].cache);
        }
        lemma_dirtied_after_change(self, changed, after, parent);
    }

    /// Puts `child`, with all that is below it, under `parent`, as its last
    /// child, and marks `parent` dirty. A node cannot be put under itself
    /// or under a node that is below it.
    pub fn add_child(&mut self, parent: Node, child: Node) -> (r: TaffyResult<()>)
        requires
            old(self).wf(),
        ensures
            final(self).wf(),
            r == if !old(self).contains(parent) {
                Err::<(), TaffyError>(TaffyError::InvalidParentNode(parent))
            } else if !old(self).contains(child) || is_ancestor_or_self(old(self), child, parent) {
                Err::<(), TaffyError>(TaffyError::InvalidChildNode(child))
            } else {
                Ok::<(), TaffyError>(())
            },
            r is Err ==> *final(self) == *old(self),
            r is Ok ==> {
                &&& relinked(old(self), final(self), parent, set![child])
                &&& final(self).spec_children(parent) == old(self).spec_children(parent).push(
                    child,
                )
                &&& final(self).spec_parent(child) == Some(parent)
                &&& dirty_from(old(self), final(self), parent)
            },
    {
        if !self.live(parent) {
            return Err(TaffyError::InvalidParentNode(parent));
        }
        if !self.live(child) || self.is_ancestor(child, parent) {
            return Err(TaffyError::InvalidChildNode(child));
        }
        let ghost before = *self;
        self.attach(parent, child);
        let ghost attached = *self;
        self.list_push(parent, child);
        let ghost changed = *self;
        let _ = mark_dirty_internal(self, parent);
        proof {
            assert forall|i: int| 0 <= i < before.nodes@.len() implies ({
                &&& (#[trigger] changed.nodes@[i]).style == before.nodes@[i].style
                &&& changed.nodes@[i].layout == before.nodes@[i].layout
                &&& changed.nodes@[i].measure == before.nodes@[i].measure
                &&& changed.nodes@[i].cache == before.nodes@[i].cache
                &&& i != parent.0 ==> changed.nodes@[i].children == before.nodes@[i].children
                &&& !set![child].contains(Node(i as u64)) ==> changed.nodes@[i].parent
                    == before.nodes@[i].parent
            }) by {
                assert(attached.nodes@[i].style == before.nodes@[i].style);
            }
            before.lemma_relinked(&changed, self, parent, set![child]);
        }
        Ok(())
    }

    /// Takes the child at place `child_index` from under `parent`, and
    /// marks `parent` dirty. The child stays in the tree, as a node of its
    /// own.
    pub fn remove_child_at_index(&mut self, parent: Node, child_index: usize) -> (r: TaffyResult<
        Node,
    >)
        requires
            old(self).wf(),
        ensures
            final(self).wf(),
            r == if !old(self).contains(parent) {
                Err::<Node, TaffyError>(TaffyError::InvalidParentNode(parent))
            } else if child_index >= old(self).spec_children(parent).len() {
                Err::<Node, TaffyError>(
                    TaffyError::ChildIndexOutOfBounds {
                        parent,
                        child_index,
                        child_count: old(self).spec_children(parent).len() as usize,
                    },
                )
            } else {
                Ok::<Node, TaffyError>(old(self).spec_children(parent)[child_index as int])
            },
            r is Err ==> *final(self) == *old(self),
            r is Ok ==> {
                &&& relinked(old(self), final(self), parent, set![r->Ok_0])
                &&& final(self).spec_children(parent) == old(self).spec_children(parent).remove(
                    child_index as int,
                )
                &&& old(self).contains(r->Ok_0) ==> final(self).spec_parent(r->Ok_0) == if old(self).spec_parent(r->Ok_0) == Some(parent) {
                    None
                } else {
                    old(self).spec_parent(r->Ok_0)
                }
                &&& dirty_from(old(self), final(self), parent)
            },
    {
        if !self.live(parent) {
            return Err(TaffyError::InvalidParentNode(parent));
        }
        let child_count = LayoutTree::child_count(self, parent);
        if child_index >= child_count {
            return Err(TaffyError::ChildIndexOutOfBounds { parent, child_index, child_count });
        }
        let ghost before = *self;
        let child = self.list_remove(parent, child_index);
        let ghost listed = *self;
        self.detach_from(parent, child);
        let ghost changed = *self;
        let _ = mark_dirty_internal(self, parent);
        proof {
            assert forall|i: int| 0 <= i < before.nodes@.len() implies ({
                &&& (#[trigger] changed.nodes@[i]).style == before.nodes@[i].style
                &&& changed.nodes@[i].layout == before.nodes@[i].layout
                &&& changed.nodes@[i].measure == before.nodes@[i].measure
                &&& changed.nodes@[i].cache == before.nodes@[i].cache
                &&& i != parent.0 ==> changed.nodes@[i].children == before.nodes@[i].children
                &&& !set![child].contains(Node(i as u64)) ==> changed.nodes@[i].parent
                    == before.nodes@[i].parent
            }) by {
                assert(listed.nodes@[i].style == before.nodes@[i].style);
            }
            before.lemma_relinked(&changed, self, parent, set![child]);
        }
        Ok(child)
    }

    /// Takes `child` from under `parent`, where it is found first among
    /// the children, and marks `parent` dirty. The child stays in the tree,
    /// as a node of its own.
    pub fn remove_child(&mut self, parent: Node, child: Node) -> (r: TaffyResult<Node>)
        requires
            old(self).wf(),
        ensures
            final(self).wf(),
            r == if !old(self).contains(parent) {
                Err::<Node, TaffyError>(TaffyError::InvalidParentNode(parent))
            } else if first_place(old(self).spec_children(parent), child, 0) is None {
                Err::<Node, TaffyError>(TaffyError::InvalidChildNode(child))
            } else {
                Ok::<Node, TaffyError>(child)
            },
            r is Err ==> *final(self) == *old(self),
            r is Ok ==> {
                &&& relinked(old(self), final(self), parent, set![child])
                &&& final(self).spec_children(parent) == old(self).spec_children(parent).remove(
                    first_place(old(self).spec_children(parent), child, 0)->Some_0,
                )
                &&& old(self).contains(child) ==> final(self).spec_parent(child) == if old(self).spec_parent(child) == Some(parent) {
                    None
                } else {
                    old(self).spec_parent(child)
                }
                &&& dirty_from(old(self), final(self), parent)
            },
    {
        if !self.live(parent) {
            return Err(TaffyError::InvalidParentNode(parent));
        }
        let slot = self.slot(parent);
        let found = find_place(&self.nodes[slot].children, child);
        match found {
            Some(index) => {
                assert(first_place(self.spec_children(parent), child, 0) == Some(index as int));
                assert(self.spec_children(parent)[index as int] == child);
                self.remove_child_at_index(parent, index)
            },
            None => Err(TaffyError::InvalidChildNode(child)),
        }
    }

    /// Puts `new_child` in the place `child_index` among the children of
    /// `parent`, and marks `parent` dirty. The child that stood there stays
    /// in the tree, as a node of its own, and is handed back.
    pub fn replace_child_at_index(&mut self, parent: Node, child_index: usize, new_child: Node) -> (r:
        TaffyResult<Node>)
        requires
            old(self).wf(),
        ensures
            final(self).wf(),
            r == if !old(self).contains(parent) {
                Err::<Node, TaffyError>(TaffyError::InvalidParentNode(parent))
            } else if child_index >= old(self).spec_children(parent).len() {
                Err::<Node, TaffyError>(
                    TaffyError::ChildIndexOutOfBounds {
                        parent,
                        child_index,
                        child_count: old(self).spec_children(parent).len() as usize,
                    },
                )
            } else if !old(self).contains(new_child) || is_ancestor_or_self(
                old(self),
                new_child,
                parent,
            ) {
                Err::<Node, TaffyError>(TaffyError::InvalidChildNode(new_child))
            } else {
                Ok::<Node, TaffyError>(old(self).spec_children(parent)[child_index as int])
            },
            r is Err ==> *final(self) == *old(self),
            r is Ok ==> {
                &&& relinked(old(self), final(self), parent, set![r->Ok_0, new_child])
                &&& final(self).spec_children(parent) == old(self).spec_children(parent).update(
                    child_index as int,
                    new_child,
                )
                &&& final(self).spec_parent(new_child) == Some(parent)
                &&& r->Ok_0 != new_child && old(self).contains(r->Ok_0) ==> final(self).spec_parent(r->Ok_0) == if old(self).spec_parent(r->Ok_0) == Some(parent) {
                    None
                } else {
                    old(self).spec_parent(r->Ok_0)
                }
                &&& dirty_from(old(self), final(self), parent)
            },
    {
        if !self.live(parent) {
            return Err(TaffyError::InvalidParentNode(parent));
        }
        let child_count = LayoutTree::child_count(self, parent);
        if child_index >= child_count {
            return Err(TaffyError::ChildIndexOutOfBounds { parent, child_index, child_count });
        }
        if !self.live(new_child) || self.is_ancestor(new_child, parent) {
            return Err(TaffyError::InvalidChildNode(new_child));
        }
        let ghost before = *self;
        let old_child = LayoutTree::child(self, parent, child_index);
        self.detach_from(parent, old_child);
        let ghost detached = *self;
        self.attach(parent, new_child);
        let ghost attached = *self;
        self.list_set(parent, child_index, new_child);
        let ghost changed = *self;
        let _ = mark_dirty_internal(self, parent);
        proof {
            assert forall|i: int| 0 <= i < before.nodes@.len() implies ({
                &&& (#[trigger] changed.nodes@[i]).style == before.nodes@[i].style
                &&& changed.nodes@[i].layout == before.nodes@[i].layout
                &&& changed.nodes@[i].measure == before.nodes@[i].measure
                &&& changed.nodes@[i].cache == before.nodes@[i].cache
                &&& i != parent.0 ==> changed.nodes@[i].children == before.nodes@[i].children
                &&& !set![old_child, new_child].contains(Node(i as u64))
                    ==> changed.nodes@[i].parent == before.nodes@[i].parent
            }) by {
                assert(attached.nodes@[i].style == detached.nodes@[i].style);
                assert(detached.nodes@[i].style == before.nodes@[i].style);
            }
            before.lemma_relinked(&changed, self, parent, set![old_child, new_child]);
        }
        Ok(old_child)
    }

    /// Gives a node another style, and marks the node dirty.
    pub fn set_style(&mut self, node: Node, style: Style) -> (r: TaffyResult<()>)
        requires
            old(self).wf(),
        ensures
            final(self).wf(),
            r == if old(self).contains(node) {
                Ok::<(), TaffyError>(())
            } else {
                Err::<(), TaffyError>(TaffyError::InvalidInputNode(node))
            },
            r is Err ==> *final(self) == *old(self),
            r is Ok ==> {
                &&& restyled(old(self), final(self), node)
                &&& final(self).spec_style(node) == style
                &&& final(self).spec_needs_measure(node) == old(self).spec_needs_measure(node)
                &&& forall|known_dimensions: Size<Option<Scalar>>, available_space: Size<AvailableSpace>|
                    #[trigger] final(self).spec_measure(node, known_dimensions, available_space)
                        == old(self).spec_measure(node, known_dimensions, available_space)
                &&& dirty_from(old(self), final(self), node)
            },
    {
        if !self.live(node) {
            return Err(TaffyError::InvalidInputNode(node));
        }
        let ghost before = *self;
        let slot = self.slot(node);
        self.nodes[slot].style = style;
        let ghost changed = *self;
        proof {
            before.lemma_links_kept(&changed);
        }
        let _ = mark_dirty_internal(self, node);
        proof {
            before.lemma_restyled(&changed, self, node);
        }
        Ok(())
    }

    /// Gives a node something that measures its content, or takes it away,
    /// and marks the node dirty.
    pub fn set_measure(&mut self, node: Node, measure: Option<M>) -> (r: TaffyResult<()>)
        requires
            old(self).wf(),
        ensures
            final(self).wf(),
            r == if old(self).contains(node) {
                Ok::<(), TaffyError>(())
            } else {
                Err::<(), TaffyError>(TaffyError::InvalidInputNode(node))
            },
            r is Err ==> *final(self) == *old(self),
            r is Ok ==> {
                &&& restyled(old(self), final(self), node)
                &&& final(self).spec_style(node) == old(self).spec_style(node)
                &&& final(self).spec_needs_measure(node) == (measure is Some)
                &&& measure is Some ==> forall|
                    known_dimensions: Size<Option<Scalar>>,
                    available_space: Size<AvailableSpace>,
                |
                    #[trigger] final(self).spec_measure(node, known_dimensions, available_space)
                        == measure->Some_0.spec_measure(known_dimensions, available_space)
                &&& dirty_from(old(self), final(self), node)
            },
    {
        if !self.live(node) {
            return Err(TaffyError::InvalidInputNode(node));
        }
        let ghost before = *self;
        let slot = self.slot(node);
        self.nodes[slot].measure = measure;
        let ghost changed = *self;
        proof {
            before.lemma_links_kept(&changed);
        }
        let _ = mark_dirty_internal(self, node);
        proof {
            before.lemma_restyled(&changed, self, node);
        }
        Ok(())
    }

    /// What a change of the style or the measure of `node` followed by
    /// marking it dirty comes to.
    proof fn lemma_restyled(&self, changed: &Self, after: &Self, node: Node)
        requires
            changed.wf(),
            after.wf(),
            changed.contains(node),
            changed.nodes@.len() == self.nodes@.len(),
            changed.alive@ == self.alive@,
            forall|i: int|
                0 <= i < self.nodes@.len() ==> {
                    &&& (#[trigger] changed.nodes@[i]).layout == self.nodes@[i].layout
                    &&& changed.nodes@[i].cache == self.nodes@[i].cache
                    &&& changed.nodes@[i].children == self.nodes@[i].children
                    &&& changed.nodes@[i].parent == self.nodes@[i].parent
                    &&& i != node.0 ==> changed.nodes@[i].style == self.nodes@[i].style
                        && changed.nodes@[i].measure == self.nodes@[i].measure
                },
            same_nodes(changed, after),
            dirtied(changed, after, node),
        ensures
            restyled(self, after, node),
            dirty_from(self, after, node),
            after.spec_style(node) == changed.spec_style(node),
            after.spec_needs_measure(node) == changed.spec_needs_measure(node),
            forall|known_dimensions: Size<Option<Scalar>>, available_space: Size<AvailableSpace>|
                #[trigger] after.spec_measure(node, known_dimensions, available_space)
                    == changed.spec_measure(node, known_dimensions, available_space),
    {
        assert forall|other: Node| #[trigger] self.contains(other) implies ({
            &&& after.spec_layout(other) == self.spec_layout(other)
            &&& after.spec_parent(other) == self.spec_parent(other)
            &&& after.spec_children(other) == self.spec_children(other)
            &&& other != node ==> same_content(self, after, other)
        }) by {
            assert(changed.contains(other));
            let i = other.0 as int;
            assert(changed.nodes@[i].layout == self.nodes@[i].layout);
        }
        assert forall|other: Node| #[trigger] after.contains(other) == self.contains(other) by {
            assert(changed.contains(other) == self.contains(other));
        }
        assert forall|other: Node| #[trigger]
            changed.contains(other) && self.contains(other) implies changed.spec_cache(other)
            == self.spec_cache(other) by {
            let i = other.0 as int;
            assert(changed.nodes@[i].cache == self.nodes@[i].cache);
        }
        lemma_dirtied_after_change(self, changed, after, node);
    }

    /// Whether `self` is `start` after the first `upto` of `children` were
    /// put under `parent`.
    spec fn adopted(&self, start: &Self, parent: Node, children: Seq<Node>, upto: int) -> bool {
        &&& self.wf()
        &&& self.nodes@.len() == start.nodes@.len()
        &&& self.alive@ == start.alive@
        &&& forall|i: int|
            0 <= i < self.nodes@.len() ==> {
                &&& (#[trigger] self.nodes@[i]).style == start.nodes@[i].style
                &&& self.nodes@[i].layout == start.nodes@[i].layout
                &&& self.nodes@[i].measure == start.nodes@[i].measure
                &&& self.nodes@[i].cache == start.nodes@[i].cache
                &&& self.nodes@[i].children == start.nodes@[i].children
                &&& self.nodes@[i].parent == if children.subrange(0, upto).contains(
                    Node(i as u64),
                ) {
                    Some(parent)
                } else {
                    start.nodes@[i].parent
                }
            }
        &&& forall|above: Node|
            is_ancestor_or_self(self, above, parent) == is_ancestor_or_self(start, above, parent)
    }

    /// Puts each of `children` under `parent`.
    fn adopt(&mut self, parent: Node, children: &[Node])
        requires
            old(self).wf(),
            old(self).contains(parent),
            forall|k: int|
                0 <= k < children@.len() ==> old(self).contains(#[trigger] children@[k])
                    && !is_ancestor_or_self(old(self), children@[k], parent),
        ensures
            final(self).adopted(old(self), parent, children@, children@.len() as int),
    {
        let ghost start = *self;
        let mut k: usize = 0;
        assert(children@.subrange(0, 0) =~= Seq::<Node>::empty());
        while k < children.len()
            invariant
                k <= children@.len(),
                start.wf(),
                start.contains(parent),
                forall|j: int|
                    0 <= j < children@.len() ==> start.contains(#[trigger] children@[j])
                        && !is_ancestor_or_self(&start, children@[j], parent),
                self.adopted(&start, parent, children@, k as int),
            decreases children@.len() - k,
        {
            let child = children[k];
            let ghost before = *self;
            assert(start.contains(children@[k as int]));
            assert(!is_ancestor_or_self(&start, child, parent));
            self.attach(parent, child);
            proof {
                lemma_one_more(children@, k as int);
                assert forall|i: int| 0 <= i < self.nodes@.len() implies ({
                    &&& (#[trigger] self.nodes@[i]).style == start.nodes@[i].style
                    &&& self.nodes@[i].layout == start.nodes@[i].layout
                    &&& self.nodes@[i].measure == start.nodes@[i].measure
                    &&& self.nodes@[i].cache == start.nodes@[i].cache
                    &&& self.nodes@[i].children == start.nodes@[i].children
                    &&& self.nodes@[i].parent == if children@.subrange(0, k + 1).contains(
                        Node(i as u64),
                    ) {
                        Some(parent)
                    } else {
                        start.nodes@[i].parent
                    }
                }) by {
                    assert(before.nodes@[i].style == start.nodes@[i].style);
                    if i != child.0 {
                        assert(self.nodes@[i] == before.nodes@[i]);
                        assert(Node(i as u64) != child);
                    } else {
                        assert(Node(i as u64) == child);
                    }
                }
            }
            k += 1;
        }
    }

    /// Adds a node of its own with the given children, each of which is
    /// moved under it with all that is below it.
    pub fn new_with_children(&mut self, style: Style, children: &[Node]) -> (r: TaffyResult<Node>)
        requires
            old(self).wf(),
        ensures
            final(self).wf(),
            r is Err <==> exists|k: int|
                0 <= k < children@.len() && !old(self).contains(#[trigger] children@[k]),
            r is Err ==> *final(self) == *old(self) && exists|k: int|
                0 <= k < children@.len() && !old(self).contains(#[trigger] children@[k]) && r
                    == Err::<Node, TaffyError>(TaffyError::InvalidChildNode(children@[k])),
            r is Ok ==> {
                let node = r->Ok_0;
                &&& !old(self).contains(node)
                &&& forall|other: Node| #[trigger]
                    final(self).contains(other) == (old(self).contains(other) || other == node)
                &&& final(self).spec_style(node) == style
                &&& !final(self).spec_needs_measure(node)
                &&& final(self).spec_parent(node) is None
                &&& final(self).spec_children(node) == children@
                &&& final(self).spec_layout(node) == Layout::spec_with_order(0)
                &&& final(self).spec_cache(node).spec_is_empty()
                &&& forall|other: Node| #[trigger]
                    old(self).contains(other) ==> {
                        &&& same_content(old(self), final(self), other)
                        &&& final(self).spec_children(other) == old(self).spec_children(other)
                        &&& final(self).spec_cache(other) == old(self).spec_cache(other)
                        &&& final(self).spec_parent(other) == if children@.contains(other) {
                            Some(node)
                        } else {
                            old(self).spec_parent(other)
                        }
                    }
            },
    {
        let mut k: usize = 0;
        while k < children.len()
            invariant
                k <= children@.len(),
                self.wf(),
                forall|j: int| 0 <= j < k ==> self.contains(#[trigger] children@[j]),
            decreases children@.len() - k,
        {
            if !self.live(children[k]) {
                return Err(TaffyError::InvalidChildNode(children[k]));
            }
            k += 1;
        }
        let ghost before = *self;
        let node = self.insert(style, None);
        let ghost inserted = *self;
        proof {
            assert forall|j: int| 0 <= j < children@.len() implies inserted.contains(
                #[trigger] children@[j],
            ) && !is_ancestor_or_self(&inserted, children@[j], node) by {
                assert(before.contains(children@[j]));
            }
        }
        assert(inserted.contains(node));
        self.adopt(node, children);
        let ghost adopted = *self;
        assert(adopted.alive@ == inserted.alive@);
        assert(adopted.contains(node));
        let list = copy_list(children);
        self.list_replace(node, list);
        proof {
            assert(children@.subrange(0, children@.len() as int) =~= children@);
            assert forall|other: Node| #[trigger] before.contains(other) implies ({
                &&& same_content(&before, self, other)
                &&& self.spec_children(other) == before.spec_children(other)
                &&& self.spec_cache(other) == before.spec_cache(other)
                &&& self.spec_parent(other) == if children@.contains(other) {
                    Some(node)
                } else {
                    before.spec_parent(other)
                }
            }) by {
                let i = other.0 as int;
                assert(Node(i as u64) == other);
                assert(adopted.nodes@[i].style == inserted.nodes@[i].style);
                assert(inserted.nodes@[i] == before.nodes@[i]);
                assert(self.nodes@[i] == adopted.nodes@[i]);
            }
            assert(!children@.contains(node)) by {
                if children@.contains(node) {
                    let j = choose|j: int| 0 <= j < children@.len() && children@[j] == node;
                    assert(before.contains(children@[j]));
                }
            }
            assert(Node(node.0 as int as u64) == node);
            assert(adopted.nodes@[node.0 as int].style == inserted.nodes@[node.0 as int].style);
        }
        Ok(node)
    }

    /// Whether `self` is `start` after the first `upto` of `list` were taken
    /// from under `parent`, as far as they stood under it.
    spec fn released(&self, start: &Self, parent: Node, list: Seq<Node>, upto: int) -> bool {
        &&& self.wf()
        &&& self.nodes@.len() == start.nodes@.len()
        &&& self.alive@ == start.alive@
        &&& forall|i: int|
            0 <= i < self.nodes@.len() ==> {
                &&& (#[trigger] self.nodes@[i]).style == start.nodes@[i].style
                &&& self.nodes@[i].layout == start.nodes@[i].layout
                &&& self.nodes@[i].measure == start.nodes@[i].measure
                &&& self.nodes@[i].cache == start.nodes@[i].cache
                &&& self.nodes@[i].children == start.nodes@[i].children
                &&& self.nodes@[i].parent == if list.subrange(0, upto).contains(Node(i as u64))
                    && start.alive@[i] && start.nodes@[i].parent == Some(parent) {
                    None
                } else {
                    start.nodes@[i].parent
                }
            }
        &&& forall|above: Node|
            is_ancestor_or_self(self, above, parent) == is_ancestor_or_self(start, above, parent)
    }

    /// Takes each of `list` from under `parent`, as far as it stands under
    /// it.
    fn release(&mut self, parent: Node, list: &Vec<Node>)
        requires
            old(self).wf(),
            old(self).contains(parent),
        ensures
            final(self).released(old(self), parent, list@, list@.len() as int),
    {
        let ghost start = *self;
        let mut k: usize = 0;
        assert(list@.subrange(0, 0) =~= Seq::<Node>::empty());
        while k < list.len()
            invariant
                k <= list@.len(),
                start.wf(),
                start.contains(parent),
                self.contains(parent),
                self.released(&start, parent, list@, k as int),
            decreases list@.len() - k,
        {
            let child = list[k];
            let ghost before = *self;
            self.detach_from(parent, child);
            proof {
                lemma_one_more(list@, k as int);
                assert forall|i: int| 0 <= i < self.nodes@.len() implies ({
                    &&& (#[trigger] self.nodes@[i]).style == start.nodes@[i].style
                    &&& self.nodes@[i].layout == start.nodes@[i].layout
                    &&& self.nodes@[i].measure == start.nodes@[i].measure
                    &&& self.nodes@[i].cache == start.nodes@[i].cache
                    &&& self.nodes@[i].children == start.nodes@[i].children
                    &&& self.nodes@[i].parent == if list@.subrange(0, k + 1).contains(
                        Node(i as u64),
                    ) && start.alive@[i] && start.nodes@[i].parent == Some(parent) {
                        None
                    } else {
                        start.nodes@[i].parent
                    }
                }) by {
                    assert(before.nodes@[i].style == start.nodes@[i].style);
                    if i != child.0 {
                        assert(self.nodes@[i] == before.nodes@[i]);
                        assert(Node(i as u64) != child);
                    } else {
                        assert(Node(i as u64) == child);
                    }
                }
            }
            k += 1;
        }
    }

    /// Puts `children` in place of the children of `parent`, and marks
    /// `parent` dirty. The children that `parent` had stay in the tree, each
    /// as a node of its own unless it is among the new ones. None of
    /// `children` may be `parent` or stand above it.
    pub fn set_children(&mut self, parent: Node, children: &[Node]) -> (r: TaffyResult<()>)
        requires
            old(self).wf(),
        ensures
            final(self).wf(),
            !old(self).contains(parent) ==> r == Err::<(), TaffyError>(
                TaffyError::InvalidParentNode(parent),
            ),
            old(self).contains(parent) ==> (r is Err <==> exists|k: int|
                0 <= k < children@.len() && cannot_adopt(old(self), parent, #[trigger] children@[k])),
            r is Err ==> *final(self) == *old(self),
            r is Err && old(self).contains(parent) ==> exists|k: int|
                0 <= k < children@.len() && cannot_adopt(old(self), parent, #[trigger] children@[k])
                    && r == Err::<(), TaffyError>(TaffyError::InvalidChildNode(children@[k])),
            r is Ok ==> {
                &&& final(self).spec_children(parent) == children@
                &&& forall|other: Node| #[trigger] final(self).contains(other) == old(self).contains(other)
                &&& forall|other: Node| #[trigger]
                    old(self).contains(other) ==> {
                        &&& same_content(old(self), final(self), other)
                        &&& other != parent ==> final(self).spec_children(other) == old(self).spec_children(other)
                        &&& final(self).spec_parent(other) == if children@.contains(other) {
                            Some(parent)
                        } else if old(self).spec_children(parent).contains(other) && old(self).spec_parent(other) == Some(parent) {
                            None
                        } else {
                            old(self).spec_parent(other)
                        }
                    }
                &&& dirty_from(old(self), final(self), parent)
            },
    {
        if !self.live(parent) {
            return Err(TaffyError::InvalidParentNode(parent));
        }
        let mut k: usize = 0;
        while k < children.len()
            invariant
                k <= children@.len(),
                self.wf(),
                self.contains(parent),
                forall|j: int| 0 <= j < k ==> !cannot_adopt(self, parent, #[trigger] children@[j]),
            decreases children@.len() - k,
        {
            if !self.live(children[k]) || self.is_ancestor(children[k], parent) {
                return Err(TaffyError::InvalidChildNode(children[k]));
            }
            k += 1;
        }
        let ghost before = *self;
        let old_list = LayoutTree::children(self, parent);
        self.release(parent, &old_list);
        let ghost released = *self;
        proof {
            assert forall|j: int| 0 <= j < children@.len() implies released.contains(
                #[trigger] children@[j],
            ) && !is_ancestor_or_self(&released, children@[j], parent) by {
                assert(!cannot_adopt(&before, parent, children@[j]));
            }
        }
        self.adopt(parent, children);
        let ghost adopted = *self;
        let list = copy_list(children);
        self.list_replace(parent, list);
        let ghost changed = *self;
        let _ = mark_dirty_internal(self, parent);
        proof {
            let moved = Set::new(|n: Node| old_list@.contains(n) || children@.contains(n));
            assert(children@.subrange(0, children@.len() as int) =~= children@);
            assert(old_list@.subrange(0, old_list@.len() as int) =~= old_list@);
            assert forall|i: int| 0 <= i < before.nodes@.len() implies ({
                &&& (#[trigger] changed.nodes@[i]).style == before.nodes@[i].style
                &&& changed.nodes@[i].layout == before.nodes@[i].layout
                &&& changed.nodes@[i].measure == before.nodes@[i].measure
                &&& changed.nodes@[i].cache == before.nodes@[i].cache
                &&& i != parent.0 ==> changed.nodes@[i].children == before.nodes@[i].children
                &&& !moved.contains(Node(i as u64)) ==> changed.nodes@[i].parent
                    == before.nodes@[i].parent
            }) by {
                assert(adopted.nodes@[i].style == released.nodes@[i].style);
                assert(released.nodes@[i].style == before.nodes@[i].style);
            }
            before.lemma_relinked(&changed, self, parent, moved);
            assert forall|other: Node| #[trigger] before.contains(other) implies self.spec_parent(
                other,
            ) == if children@.contains(other) {
                Some(parent)
            } else if before.spec_children(parent).contains(other) && before.spec_parent(other)
                == Some(parent) {
                None
            } else {
                before.spec_parent(other)
            } by {
                let i = other.0 as int;
                assert(Node(i as u64) == other);
                assert(changed.contains(other));
                assert(self.spec_parent(other) == changed.spec_parent(other));
                assert(adopted.nodes@[i].style == released.nodes@[i].style);
                assert(released.nodes@[i].style == before.nodes@[i].style);
            }
        }
        Ok(())
    }

    /// Whether `self` is `start` after each node below place `upto` that
    /// stood under `node` was taken from under it.
    spec fn orphaned(&self, start: &Self, node: Node, upto: int) -> bool {
        &&& self.wf()
        &&& self.nodes@.len() == start.nodes@.len()
        &&& self.alive@ == start.alive@
        &&& self.depth@ == start.depth@
        &&& forall|i: int|
            0 <= i < self.nodes@.len() ==> {
                &&& (#[trigger] self.nodes@[i]).style == start.nodes@[i].style
                &&& self.nodes@[i].layout == start.nodes@[i].layout
                &&& self.nodes@[i].measure == start.nodes@[i].measure
                &&& self.nodes@[i].cache == start.nodes@[i].cache
                &&& self.nodes@[i].children == start.nodes@[i].children
                &&& self.nodes@[i].parent == if i < upto && start.alive@[i]
                    && start.nodes@[i].parent == Some(node) {
                    None
                } else {
                    start.nodes@[i].parent
                }
            }
    }

    /// Takes every node that stands under `node` from under it.
    fn orphan(&mut self, node: Node)
        requires
            old(self).wf(),
        ensures
            final(self).orphaned(old(self), node, old(self).nodes@.len() as int),
    {
        let ghost start = *self;
        let count = self.nodes.len();
        let mut i: usize = 0;
        while i < count
            invariant
                i <= count,
                count == start.nodes@.len(),
                start.wf(),
                self.orphaned(&start, node, i as int),
            decreases count - i,
        {
            let ghost before = *self;
            let stands_under = self.alive[i] && match self.nodes[i].parent {
                Some(above) => above.0 == node.0,
                None => false,
            };
            if stands_under {
                self.nodes[i].parent = None;
            }
            proof {
                assert forall|j: int|
                    0 <= j < self.nodes@.len() && self.alive@[j] && (#[trigger] self.nodes@[j]).parent
                        is Some implies ({
                    let above = self.nodes@[j].parent->Some_0;
                    &&& above.0 < self.nodes@.len()
                    &&& self.alive@[above.0 as int]
                    &&& self.depth@[above.0 as int] < self.depth@[j]
                }) by {
                    assert(before.nodes@[j].parent == self.nodes@[j].parent);
                }
            }
            i += 1;
        }
    }

    /// Takes a node out of the tree and marks the parent that it had dirty.
    /// The nodes that stood under it stay in the tree, each as a node of its
    /// own.
    pub fn remove(&mut self, node: Node) -> (r: TaffyResult<Node>)
        requires
            old(self).wf(),
        ensures
            final(self).wf(),
            r == if old(self).contains(node) {
                Ok::<Node, TaffyError>(node)
            } else {
                Err::<Node, TaffyError>(TaffyError::InvalidInputNode(node))
            },
            r is Err ==> *final(self) == *old(self),
            r is Ok ==> {
                &&& !final(self).contains(node)
                &&& forall|other: Node|
                    other != node ==> #[trigger] final(self).contains(other) == old(self).contains(
                        other,
                    )
                &&& forall|other: Node| #[trigger]
                    old(self).contains(other) && other != node ==> {
                        &&& same_content(old(self), final(self), other)
                        &&& final(self).spec_parent(other) == if old(self).spec_parent(other)
                            == Some(node) {
                            None
                        } else {
                            old(self).spec_parent(other)
                        }
                        &&& final(self).spec_children(other) == if old(self).spec_parent(node)
                            == Some(other) && first_place(old(self).spec_children(other), node, 0)
                            is Some {
                            old(self).spec_children(other).remove(
                                first_place(old(self).spec_children(other), node, 0)->Some_0,
                            )
                        } else {
                            old(self).spec_children(other)
                        }
                    }
                &&& old(self).spec_parent(node) is Some ==> dirty_from(
                    old(self),
                    final(self),
                    old(self).spec_parent(node)->Some_0,
                )
                &&& old(self).spec_parent(node) is None ==> forall|other: Node| #[trigger]
                    old(self).contains(other) && other != node ==> final(self).spec_cache(other)
                        == old(self).spec_cache(other)
            },
    {
        if !self.live(node) {
            return Err(TaffyError::InvalidInputNode(node));
        }
        let ghost before = *self;
        self.orphan(node);
        let ghost orphaned = *self;
        let slot = self.slot(node);
        let parent = self.nodes[slot].parent;
        match parent {
            Some(above) => {
                proof {
                    self.lemma_parent(node);
                }
                let above_slot = self.slot(above);
                let found = find_place(&self.nodes[above_slot].children, node);
                match found {
                    Some(place) => {
                        let _ = self.list_remove(above, place);
                    },
                    None => {},
                }
            },
            None => {},
        }
        let ghost listed = *self;
        self.alive[slot] = false;
        let ghost changed = *self;
        proof {
            assert forall|j: int|
                0 <= j < self.nodes@.len() && self.alive@[j] && (#[trigger] self.nodes@[j]).parent
                    is Some implies ({
                let up = self.nodes@[j].parent->Some_0;
                &&& up.0 < self.nodes@.len()
                &&& self.alive@[up.0 as int]
                &&& self.depth@[up.0 as int] < self.depth@[j]
            }) by {
                assert(listed.nodes@[j].parent == orphaned.nodes@[j].parent);
                assert(orphaned.nodes@[j].style == before.nodes@[j].style);
                assert(listed.alive@[j]);
            }
        }
        match parent {
            Some(above) => {
                let _ = mark_dirty_internal(self, above);
                proof {
                    assert forall|other: Node| #[trigger]
                        changed.contains(other) && before.contains(other) implies changed.spec_cache(
                        other,
                    ) == before.spec_cache(other) by {
                        let i = other.0 as int;
                        assert(listed.nodes@[i].cache == orphaned.nodes@[i].cache);
                        assert(orphaned.nodes@[i].cache == before.nodes@[i].cache);
                    }
                    lemma_dirtied_after_change(&before, &changed, self, above);
                }
            },
            None => {},
        }
        proof {
            assert forall|other: Node| #[trigger]
                before.contains(other) && other != node implies ({
                &&& self.contains(other)
                &&& same_content(&before, self, other)
                &&& self.spec_parent(other) == if before.spec_parent(other) == Some(node) {
                    None
                } else {
                    before.spec_parent(other)
                }
                &&& self.spec_children(other) == if before.spec_parent(node) == Some(other)
                    && first_place(before.spec_children(other), node, 0) is Some {
                    before.spec_children(other).remove(
                        first_place(before.spec_children(other), node, 0)->Some_0,
                    )
                } else {
                    before.spec_children(other)
                }
                &&& parent is None ==> self.spec_cache(other) == before.spec_cache(other)
            }) by {
                let i = other.0 as int;
                assert(changed.contains(other));
                assert(listed.nodes@[i].style == orphaned.nodes@[i].style);
                assert(orphaned.nodes@[i].style == before.nodes@[i].style);
                assert(changed.nodes@[i] == listed.nodes@[i]);
            }
        }
        Ok(node)
    }

    /// Takes every node out of the tree.
    pub fn clear_nodes(&mut self)
        requires
            old(self).wf(),
        ensures
            final(self).wf(),
            forall|node: Node| !final(self).contains(node),
    {
        let count = self.alive.len();
        let mut i: usize = 0;
        while i < count
            invariant
                i <= count,
                count == self.alive@.len(),
                self.nodes@.len() == count,
                self.depth@.len() == count,
                self.nodes@.len() <= usize::MAX,
                forall|j: int| 0 <= j < i ==> !(#[trigger] self.alive@[j]),
            decreases count - i,
        {
            self.alive[i] = false;
            i += 1;
        }
    }

    /// Takes `child` from under its parent where that is `parent`.
    fn detach_from(&mut self, parent: Node, child: Node)
        requires
            old(self).wf(),
            old(self).contains(parent),
        ensures
            old(self).contains(child) && old(self).spec_parent(child) == Some(parent) ==> old(self).reparented(final(self), child, None),
            !(old(self).contains(child) && old(self).spec_parent(child) == Some(parent))
                ==> *final(self) == *old(self),
            forall|above: Node|
                is_ancestor_or_self(final(self), above, parent) == is_ancestor_or_self(
                    old(self),
                    above,
                    parent,
                ),
    {
        if self.live(child) {
            let slot = self.slot(child);
            let is_child = match self.nodes[slot].parent {
                Some(above) => above.0 == parent.0,
                None => false,
            };
            if is_child {
                proof {
                    if is_ancestor_or_self(self, child, parent) {
                        self.lemma_parent(child);
                        lemma_ancestor_depth(self, child, parent);
                    }
                }
                self.detach(child);
            }
        }
    }
}

/// A list made of the first `upto + 1` of `list` holds what the first
/// `upto` hold, and the one after them.
proof fn lemma_one_more(list: Seq<Node>, upto: int)
    requires
        0 <= upto < list.len(),
    ensures
        forall|node: Node|
            #![trigger list.subrange(0, upto + 1).contains(node)]
            list.subrange(0, upto + 1).contains(node) == (list.subrange(0, upto).contains(node)
                || list[upto] == node),
{
    assert forall|node: Node|
        #![trigger list.subrange(0, upto + 1).contains(node)]
        list.subrange(0, upto + 1).contains(node) == (list.subrange(0, upto).contains(node)
            || list[upto] == node) by {
        let longer = list.subrange(0, upto + 1);
        let shorter = list.subrange(0, upto);
        if longer.contains(node) {
            let j = choose|j: int| 0 <= j < longer.len() && longer[j] == node;
            if j < upto {
                assert(shorter[j] == node);
            }
        }
        if shorter.contains(node) {
            let j = choose|j: int| 0 <= j < shorter.len() && shorter[j] == node;
            assert(longer[j] == node);
        }
        if list[upto] == node {
            assert(longer[upto] == node);
        }
    }
}

fn copy_list(list: &[Node]) -> (r: Vec<Node>)
    ensures
        r@ == list@,
{
    let mut r: Vec<Node> = Vec::new();
    let mut i: usize = 0;
    while i < list.len()
        invariant
            i <= list@.len(),
            r@ == list@.subrange(0, i as int),
        decreases list@.len() - i,
    {
        r.push(list[i]);
        assert(list@.subrange(0, i as int).push(list@[i as int]) =~= list@.subrange(0, i + 1));
        i += 1;
    }
    assert(list@.subrange(0, list@.len() as int) =~= list@);
    r
}

/// The first place from `from` on at which `node` stands in `list`, if any.
pub open spec fn first_place(list: Seq<Node>, node: Node, from: int) -> Option<int>
    decreases list.len() - from,
{
    if from < 0 || from >= list.len() {
        None
    } else if list[from] == node {
        Some(from)
    } else {
        first_place(list, node, from + 1)
    }
}

fn find_place(list: &Vec<Node>, node: Node) -> (r: Option<usize>)
    ensures
        r is None <==> first_place(list@, node, 0) is None,
        r is Some ==> first_place(list@, node, 0) == Some(r->Some_0 as int) && r->Some_0
            < list@.len() && list@[r->Some_0 as int] == node,
{
    let mut i: usize = 0;
    while i < list.len()
        invariant
            i <= list.len(),
            first_place(list@, node, 0) == first_place(list@, node, i as int),
        decreases list.len() - i,
    {
        if list[i].0 == node.0 {
            return Some(i);
        }
        i += 1;
    }
    None
}

/// Whether `child` cannot be put under `parent`: it is not in the tree, or
/// it is `parent` or stands above it.
pub open spec fn cannot_adopt<T: TreeModel>(tree: &T, parent: Node, child: Node) -> bool {
    !tree.contains(child) || is_ancestor_or_self(tree, child, parent)
}

/// Whether `after` holds the nodes of `before`, each with the parent, the
/// children and the layout it had, and each but `node` with the style and
/// the measure it had.
pub open spec fn restyled<T: TreeModel>(before: &T, after: &T, node: Node) -> bool {
    &&& forall|other: Node| #[trigger] after.contains(other) == before.contains(other)
    &&& forall|other: Node| #[trigger]
        before.contains(other) ==> {
            &&& after.spec_layout(other) == before.spec_layout(other)
            &&& after.spec_parent(other) == before.spec_parent(other)
            &&& after.spec_children(other) == before.spec_children(other)
            &&& other != node ==> same_content(before, after, other)
        }
}

/// Whether `after` holds the nodes of `before`, each with the style, layout
/// and measure it had, with the children it had unless it is `parent`, and
/// with the parent it had unless it is one of `moved`.
pub open spec fn relinked<T: TreeModel>(
    before: &T,
    after: &T,
    parent: Node,
    moved: Set<Node>,
) -> bool {
    &&& forall|node: Node| #[trigger] after.contains(node) == before.contains(node)
    &&& forall|node: Node| #[trigger]
        before.contains(node) ==> {
            &&& same_content(before, after, node)
            &&& node != parent ==> after.spec_children(node) == before.spec_children(node)
            &&& !moved.contains(node) ==> after.spec_parent(node) == before.spec_parent(node)
        }
}

/// Whether `after` is `before` with the one node `node` added: a node of
/// its own, with nothing remembered and laid out nowhere yet. Every other
/// node is as it was.
pub open spec fn added<T: TreeModel>(before: &T, after: &T, node: Node) -> bool {
    &&& !before.contains(node)
    &&& forall|other: Node| #[trigger]
        after.contains(other) == (before.contains(other) || other == node)
    &&& after.spec_parent(node) is None
    &&& after.spec_children(node).len() == 0
    &&& after.spec_layout(node) == Layout::spec_with_order(0)
    &&& after.spec_cache(node).spec_is_empty()
    &&& forall|other: Node| #[trigger]
        before.contains(other) ==> {
            &&& same_content(before, after, other)
            &&& after.spec_parent(other) == before.spec_parent(other)
            &&& after.spec_children(other) == before.spec_children(other)
            &&& after.spec_cache(other) == before.spec_cache(other)
        }
}

impl<M: Measurable> Default for Taffy<M> {
    fn default() -> (r: Self)
        ensures
            r.wf(),
            forall|node: Node| !r.contains(node),
    {
        Taffy::new()
    }
}

impl<M: Measurable> LayoutTree for Taffy<M> {
    fn children(&self, node: Node) -> (r: Vec<Node>) {
        let list = &self.nodes[self.slot(node)].children;
        let mut r: Vec<Node> = Vec::new();
        let mut i: usize = 0;
        while i < list.len()
            invariant
                i <= list.len(),
                r@ == list@.subrange(0, i as int),
            decreases list.len() - i,
        {
            r.push(list[i]);
            assert(list@.subrange(0, i as int).push(list@[i as int]) =~= list@.subrange(
                0,
                i + 1,
            ));
            i += 1;
        }
        assert(list@.subrange(0, list@.len() as int) =~= list@);
        r
    }

    fn child_count(&self, node: Node) -> (r: usize) {
        self.nodes[self.slot(node)].children.len()
    }

    fn is_childless(&self, node: Node) -> (r: bool) {
        self.nodes[self.slot(node)].children.len() == 0
    }

    fn child(&self, node: Node, index: usize) -> (r: Node) {
        self.nodes[self.slot(node)].children[index]
    }

    fn parent(&self, node: Node) -> (r: Option<Node>) {
        self.nodes[self.slot(node)].parent
    }

    fn style(&self, node: Node) -> (r: &Style) {
        &self.nodes[self.slot(node)].style
    }

    fn layout(&self, node: Node) -> (r: &Layout) {
        &self.nodes[self.slot(node)].layout
    }

    fn layout_mut(&mut self, node: Node) -> (r: &mut Layout) {
        let slot = self.slot(node);
        &mut self.nodes[slot].layout
    }

    fn cache_mut(&mut self, node: Node) -> (r: &mut SizeCache) {
        let slot = self.slot(node);
        &mut self.nodes[slot].cache
    }

    fn needs_measure(&self, node: Node) -> (r: bool) {
        self.nodes[self.slot(node)].measure.is_some()
    }

    fn measure_node(
        &self,
        node: Node,
        known_dimensions: Size<Option<Scalar>>,
        available_space: Size<AvailableSpace>,
    ) -> (r: Size<Scalar>) {
        match &self.nodes[self.slot(node)].measure {
            Some(measure) => measure.measure(known_dimensions, available_space),
            None => Size::<Scalar>::zero(),
        }
    }
}

} // verus!
