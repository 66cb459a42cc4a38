use taffy::compute::{cache_node_layout, compute_node_layout};
use taffy::error::TaffyError;
use taffy::geometry::Size;
use taffy::layout::{AvailableSpace, RunMode, SizingMode};
use taffy::node::{Node, Taffy};
use taffy::scalar::Scalar;
use taffy::style::{Display, FlexDirection, Style};
use taffy::tree::LayoutTree;

type Tree = Taffy<Size<Scalar>>;

fn s(units: i32) -> Scalar {
    Scalar::from_int(units)
}

fn square(units: i32) -> Size<Scalar> {
    Size { width: s(units), height: s(units) }
}

/// Lays a container out as the least that a pass for containers does: each
/// child is sized, and the container is as large as the last child.
fn lay_out(taffy: &mut Tree, node: Node, space: Size<AvailableSpace>) {
    let none = Size { width: None, height: None };
    let mut size = Size::<Scalar>::zero();
    for child in taffy.children_list(node).unwrap() {
        size = compute_node_layout(taffy, child, none, space, RunMode::PerformLayout, SizingMode::InherentSize)
            .unwrap();
    }
    cache_node_layout(taffy, node, none, space, RunMode::PerformLayout, SizingMode::InherentSize, size);
    taffy.compute_layout(node, space).unwrap();
}

#[test]
fn test_new_leaf() {
    let mut taffy = Tree::new();

    let res = taffy.new_leaf(Style::default());
    assert!(res.is_ok());
    let node = res.unwrap();

    // node should be in the taffy tree and have no children
    assert!(taffy.child_count(node).unwrap() == 0);
}

#[test]
fn new_leaf_with_measure() {
    let mut taffy = Tree::new();

    let res = taffy.new_leaf_with_measure(Style::default(), Size::<Scalar>::zero());
    assert!(res.is_ok());
    let node = res.unwrap();

    // node should be in the taffy tree and have no children
    assert!(taffy.child_count(node).unwrap() == 0);
}

#[test]
fn test_new_with_children() {
    let mut taffy = Tree::new();
    let child0 = taffy.new_leaf(Style::default()).unwrap();
    let child1 = taffy.new_leaf(Style::default()).unwrap();
    let node = taffy.new_with_children(Style::default(), &[child0, child1]).unwrap();

    // node should have two children
    assert_eq!(taffy.child_count(node).unwrap(), 2);
    assert_eq!(taffy.children_list(node).unwrap()[0], child0);
    assert_eq!(taffy.children_list(node).unwrap()[1], child1);
}

#[test]
fn new_with_children_refuses_a_node_that_is_not_in_the_tree() {
    let mut taffy = Tree::with_capacity(8);
    let child = taffy.new_leaf(Style::default()).unwrap();
    assert_eq!(
        taffy.new_with_children(Style::default(), &[child, Node(17)]),
        Err(TaffyError::InvalidChildNode(Node(17)))
    );
    assert!(!taffy.live(Node(1)));
    assert_eq!(LayoutTree::parent(&taffy, child), None);
}

#[test]
fn remove_node_should_remove() {
    let mut taffy = Tree::new();

    let node = taffy.new_leaf(Style::default()).unwrap();

    let _ = taffy.remove(node).unwrap();
    assert!(!taffy.live(node));
    assert_eq!(taffy.remove(node), Err(TaffyError::InvalidInputNode(node)));
    assert_eq!(taffy.style(node), Err(TaffyError::InvalidInputNode(node)));
}

#[test]
fn remove_node_should_detach_herarchy() {
    let mut taffy = Tree::new();

    // Build a linear tree layout: <0> <- <1> <- <2>
    let node2 = taffy.new_leaf(Style::default()).unwrap();
    let node1 = taffy.new_with_children(Style::default(), &[node2]).unwrap();
    let node0 = taffy.new_with_children(Style::default(), &[node1]).unwrap();

    // Both node0 and node1 should have 1 child nodes
    assert_eq!(taffy.children_list(node0).unwrap().as_slice(), &[node1]);
    assert_eq!(taffy.children_list(node1).unwrap().as_slice(), &[node2]);

    // Disconnect the tree: <0> <2>
    let _ = taffy.remove(node1).unwrap();

    // Both remaining nodes should have no child nodes
    assert!(taffy.children_list(node0).unwrap().is_empty());
    assert!(taffy.children_list(node2).unwrap().is_empty());
    assert_eq!(LayoutTree::parent(&taffy, node2), None);
}

#[test]
fn remove_last_node() {
    let mut taffy = Tree::new();

    let parent = taffy.new_leaf(Style::default()).unwrap();
    let child = taffy.new_leaf(Style::default()).unwrap();
    taffy.add_child(parent, child).unwrap();

    taffy.remove(child).unwrap();
    taffy.remove(parent).unwrap();
}

#[test]
fn set_measure() {
    let mut taffy = Tree::new();
    let node = taffy.new_leaf_with_measure(Style::default(), square(200)).unwrap();
    taffy.compute_layout(node, Size::<AvailableSpace>::max_content()).unwrap();
    assert_eq!(taffy.layout(node).unwrap().size.width, s(200));

    taffy.set_measure(node, Some(square(100))).unwrap();
    taffy.compute_layout(node, Size::<AvailableSpace>::max_content()).unwrap();
    assert_eq!(taffy.layout(node).unwrap().size.width, s(100));
}

#[test]
fn set_measure_of_previously_unmeasured_node() {
    let mut taffy = Tree::new();
    let node = taffy.new_leaf(Style::default()).unwrap();
    taffy.compute_layout(node, Size::<AvailableSpace>::max_content()).unwrap();
    assert_eq!(taffy.layout(node).unwrap().size.width, s(0));

    taffy.set_measure(node, Some(square(100))).unwrap();
    taffy.compute_layout(node, Size::<AvailableSpace>::max_content()).unwrap();
    assert_eq!(taffy.layout(node).unwrap().size.width, s(100));
}

#[test]
fn taking_the_measure_away() {
    let mut taffy = Tree::new();
    let node = taffy.new_leaf_with_measure(Style::default(), square(200)).unwrap();
    assert!(LayoutTree::needs_measure(&taffy, node));
    assert_eq!(
        LayoutTree::measure_node(&taffy, node, Size { width: None, height: None }, Size::<AvailableSpace>::max_content()),
        square(200)
    );
    taffy.set_measure(node, None).unwrap();
    assert!(!LayoutTree::needs_measure(&taffy, node));
    taffy.compute_layout(node, Size::<AvailableSpace>::max_content()).unwrap();
    assert_eq!(taffy.layout(node).unwrap().size, square(0));
    assert_eq!(taffy.set_measure(Node(9), None), Err(TaffyError::InvalidInputNode(Node(9))));
}

#[test]
fn add_child() {
    let mut taffy = Tree::new();
    let node = taffy.new_leaf(Style::default()).unwrap();
    assert_eq!(taffy.child_count(node).unwrap(), 0);

    let child0 = taffy.new_leaf(Style::default()).unwrap();
    taffy.add_child(node, child0).unwrap();
    assert_eq!(taffy.child_count(node).unwrap(), 1);

    let child1 = taffy.new_leaf(Style::default()).unwrap();
    taffy.add_child(node, child1).unwrap();
    assert_eq!(taffy.child_count(node).unwrap(), 2);
    assert_eq!(LayoutTree::parent(&taffy, child1), Some(node));
    assert!(!LayoutTree::is_childless(&taffy, node));
    assert!(LayoutTree::is_childless(&taffy, child1));
}

#[test]
fn add_child_refuses_what_would_close_a_cycle() {
    let mut taffy = Tree::new();
    let leaf = taffy.new_leaf(Style::default()).unwrap();
    let middle = taffy.new_with_children(Style::default(), &[leaf]).unwrap();
    let root = taffy.new_with_children(Style::default(), &[middle]).unwrap();
    assert_eq!(taffy.add_child(leaf, root), Err(TaffyError::InvalidChildNode(root)));
    assert_eq!(taffy.add_child(leaf, middle), Err(TaffyError::InvalidChildNode(middle)));
    assert_eq!(taffy.add_child(leaf, leaf), Err(TaffyError::InvalidChildNode(leaf)));
    assert_eq!(taffy.add_child(Node(40), leaf), Err(TaffyError::InvalidParentNode(Node(40))));
    assert_eq!(taffy.add_child(leaf, Node(40)), Err(TaffyError::InvalidChildNode(Node(40))));
    assert_eq!(taffy.child_count(leaf).unwrap(), 0);
    assert!(taffy.is_ancestor(root, leaf));
    assert!(taffy.is_ancestor(leaf, leaf));
    assert!(!taffy.is_ancestor(leaf, root));
    assert_eq!(taffy.add_child(root, leaf), Ok(()));
    assert_eq!(LayoutTree::parent(&taffy, leaf), Some(root));
    assert_eq!(taffy.children_list(root).unwrap(), vec![middle, leaf]);
}

#[test]
fn set_children() {
    let mut taffy = Tree::new();

    let child0 = taffy.new_leaf(Style::default()).unwrap();
    let child1 = taffy.new_leaf(Style::default()).unwrap();
    let node = taffy.new_with_children(Style::default(), &[child0, child1]).unwrap();

    assert_eq!(taffy.child_count(node).unwrap(), 2);
    assert_eq!(taffy.children_list(node).unwrap()[0], child0);
    assert_eq!(taffy.children_list(node).unwrap()[1], child1);

    let child2 = taffy.new_leaf(Style::default()).unwrap();
    let child3 = taffy.new_leaf(Style::default()).unwrap();
    taffy.set_children(node, &[child2, child3]).unwrap();

    assert_eq!(taffy.child_count(node).unwrap(), 2);
    assert_eq!(taffy.children_list(node).unwrap()[0], child2);
    assert_eq!(taffy.children_list(node).unwrap()[1], child3);
    assert_eq!(LayoutTree::parent(&taffy, child0), None);
    assert_eq!(LayoutTree::parent(&taffy, child1), None);
    assert_eq!(LayoutTree::parent(&taffy, child2), Some(node));
    assert_eq!(LayoutTree::parent(&taffy, child3), Some(node));
}

#[test]
fn set_children_keeps_a_child_that_is_named_again() {
    let mut taffy = Tree::new();
    let child0 = taffy.new_leaf(Style::default()).unwrap();
    let child1 = taffy.new_leaf(Style::default()).unwrap();
    let node = taffy.new_with_children(Style::default(), &[child0, child1]).unwrap();
    let root = taffy.new_with_children(Style::default(), &[node]).unwrap();
    assert_eq!(taffy.set_children(node, &[child1, root]), Err(TaffyError::InvalidChildNode(root)));
    assert_eq!(taffy.set_children(node, &[child1, Node(99)]), Err(TaffyError::InvalidChildNode(Node(99))));
    assert_eq!(taffy.set_children(Node(99), &[child1]), Err(TaffyError::InvalidParentNode(Node(99))));
    assert_eq!(taffy.children_list(node).unwrap(), vec![child0, child1]);
    assert_eq!(taffy.set_children(node, &[child1]), Ok(()));
    assert_eq!(taffy.children_list(node).unwrap(), vec![child1]);
    assert_eq!(LayoutTree::parent(&taffy, child0), None);
    assert_eq!(LayoutTree::parent(&taffy, child1), Some(node));
    assert_eq!(LayoutTree::parent(&taffy, node), Some(root));
}

#[test]
fn remove_child() {
    let mut taffy = Tree::new();
    let child0 = taffy.new_leaf(Style::default()).unwrap();
    let child1 = taffy.new_leaf(Style::default()).unwrap();
    let node = taffy.new_with_children(Style::default(), &[child0, child1]).unwrap();

    assert_eq!(taffy.child_count(node).unwrap(), 2);

    taffy.remove_child(node, child0).unwrap();
    assert_eq!(taffy.child_count(node).unwrap(), 1);
    assert_eq!(taffy.children_list(node).unwrap()[0], child1);

    taffy.remove_child(node, child1).unwrap();
    assert_eq!(taffy.child_count(node).unwrap(), 0);
    assert_eq!(taffy.remove_child(node, child1), Err(TaffyError::InvalidChildNode(child1)));
    assert_eq!(taffy.remove_child(Node(77), child1), Err(TaffyError::InvalidParentNode(Node(77))));
    assert_eq!(LayoutTree::parent(&taffy, child1), None);
    assert!(taffy.live(child1));
}

#[test]
fn remove_child_at_index() {
    let mut taffy = Tree::new();
    let child0 = taffy.new_leaf(Style::default()).unwrap();
    let child1 = taffy.new_leaf(Style::default()).unwrap();
    let node = taffy.new_with_children(Style::default(), &[child0, child1]).unwrap();

    assert_eq!(taffy.child_count(node).unwrap(), 2);

    taffy.remove_child_at_index(node, 0).unwrap();
    assert_eq!(taffy.child_count(node).unwrap(), 1);
    assert_eq!(taffy.children_list(node).unwrap()[0], child1);

    taffy.remove_child_at_index(node, 0).unwrap();
    assert_eq!(taffy.child_count(node).unwrap(), 0);
    assert_eq!(
        taffy.remove_child_at_index(node, 0),
        Err(TaffyError::ChildIndexOutOfBounds { parent: node, child_index: 0, child_count: 0 })
    );
}

#[test]
fn replace_child_at_index() {
    let mut taffy = Tree::new();

    let child0 = taffy.new_leaf(Style::default()).unwrap();
    let child1 = taffy.new_leaf(Style::default()).unwrap();

    let node = taffy.new_with_children(Style::default(), &[child0]).unwrap();
    assert_eq!(taffy.child_count(node).unwrap(), 1);
    assert_eq!(taffy.children_list(node).unwrap()[0], child0);

    assert_eq!(taffy.replace_child_at_index(node, 0, child1), Ok(child0));
    assert_eq!(taffy.child_count(node).unwrap(), 1);
    assert_eq!(taffy.children_list(node).unwrap()[0], child1);
    assert_eq!(LayoutTree::parent(&taffy, child0), None);
    assert_eq!(LayoutTree::parent(&taffy, child1), Some(node));
    assert_eq!(
        taffy.replace_child_at_index(node, 1, child0),
        Err(TaffyError::ChildIndexOutOfBounds { parent: node, child_index: 1, child_count: 1 })
    );
    assert_eq!(taffy.replace_child_at_index(node, 0, node), Err(TaffyError::InvalidChildNode(node)));
    assert_eq!(taffy.replace_child_at_index(Node(50), 0, child0), Err(TaffyError::InvalidParentNode(Node(50))));
    assert_eq!(taffy.replace_child_at_index(node, 0, child1), Ok(child1));
    assert_eq!(LayoutTree::parent(&taffy, child1), Some(node));
}

#[test]
fn test_child_at_index() {
    let mut taffy = Tree::new();
    let child0 = taffy.new_leaf(Style::default()).unwrap();
    let child1 = taffy.new_leaf(Style::default()).unwrap();
    let child2 = taffy.new_leaf(Style::default()).unwrap();
    let node = taffy.new_with_children(Style::default(), &[child0, child1, child2]).unwrap();

    assert!(if let Ok(result) = taffy.child_at_index(node, 0) { result == child0 } else { false });
    assert!(if let Ok(result) = taffy.child_at_index(node, 1) { result == child1 } else { false });
    assert!(if let Ok(result) = taffy.child_at_index(node, 2) { result == child2 } else { false });
    assert_eq!(
        taffy.child_at_index(node, 3),
        Err(TaffyError::ChildIndexOutOfBounds { parent: node, child_index: 3, child_count: 3 })
    );
    assert_eq!(taffy.child_at_index(Node(9), 0), Err(TaffyError::InvalidParentNode(Node(9))));
    assert_eq!(LayoutTree::child(&taffy, node, 1), child1);
    assert_eq!(LayoutTree::children(&taffy, node), vec![child0, child1, child2]);
    assert_eq!(LayoutTree::child_count(&taffy, node), 3);
}

#[test]
fn test_child_count() {
    let mut taffy = Tree::new();
    let child0 = taffy.new_leaf(Style::default()).unwrap();
    let child1 = taffy.new_leaf(Style::default()).unwrap();
    let node = taffy.new_with_children(Style::default(), &[child0, child1]).unwrap();

    assert!(if let Ok(count) = taffy.child_count(node) { count == 2 } else { false });
    assert!(if let Ok(count) = taffy.child_count(child0) { count == 0 } else { false });
    assert!(if let Ok(count) = taffy.child_count(child1) { count == 0 } else { false });
    assert_eq!(taffy.child_count(Node(3)), Err(TaffyError::InvalidParentNode(Node(3))));
}

#[test]
fn test_children() {
    let mut taffy = Tree::new();
    let child0 = taffy.new_leaf(Style::default()).unwrap();
    let child1 = taffy.new_leaf(Style::default()).unwrap();
    let node = taffy.new_with_children(Style::default(), &[child0, child1]).unwrap();

    let mut children: Vec<Node> = Vec::new();
    children.push(child0);
    children.push(child1);

    let children_result = taffy.children_list(node).unwrap();
    assert_eq!(children_result, children);

    assert!(taffy.children_list(child0).unwrap().is_empty());
    assert_eq!(taffy.children_list(Node(3)), Err(TaffyError::InvalidParentNode(Node(3))));
}

#[test]
fn test_set_style() {
    let mut taffy = Tree::new();

    let node = taffy.new_leaf(Style::default()).unwrap();
    assert_eq!(taffy.style(node).unwrap().display, Display::Flex);

    taffy.set_style(node, Style { display: Display::Hidden, ..Style::default() }).unwrap();
    assert_eq!(taffy.style(node).unwrap().display, Display::Hidden);
    assert_eq!(taffy.set_style(Node(1), Style::default()), Err(TaffyError::InvalidInputNode(Node(1))));
}

#[test]
fn test_style() {
    let mut taffy = Tree::new();

    let style = Style { display: Display::Hidden, flex_direction: FlexDirection::RowReverse, ..Default::default() };

    let node = taffy.new_leaf(style.clone()).unwrap();

    let res = taffy.style(node);
    assert!(res.is_ok());
    assert!(res.unwrap() == &style);
    assert_eq!(LayoutTree::style(&taffy, node), &style);
}

#[test]
fn test_layout() {
    let mut taffy = Tree::new();
    let node = taffy.new_leaf(Style::default()).unwrap();

    let res = taffy.layout(node);
    assert!(res.is_ok());
    assert_eq!(taffy.layout(Node(1)), Err(TaffyError::InvalidInputNode(Node(1))));
    assert_eq!(LayoutTree::layout(&taffy, node), res.unwrap());
}

#[test]
fn test_mark_dirty() {
    let mut taffy = Tree::new();
    let child0 = taffy.new_leaf(Style::default()).unwrap();
    let child1 = taffy.new_leaf(Style::default()).unwrap();
    let node = taffy.new_with_children(Style::default(), &[child0, child1]).unwrap();

    lay_out(&mut taffy, node, Size::<AvailableSpace>::max_content());

    assert_eq!(taffy.dirty(child0).unwrap(), false);
    assert_eq!(taffy.dirty(child1).unwrap(), false);
    assert_eq!(taffy.dirty(node).unwrap(), false);

    taffy.mark_dirty(node).unwrap();
    assert_eq!(taffy.dirty(child0).unwrap(), false);
    assert_eq!(taffy.dirty(child1).unwrap(), false);
    assert_eq!(taffy.dirty(node).unwrap(), true);

    lay_out(&mut taffy, node, Size::<AvailableSpace>::max_content());
    taffy.mark_dirty(child0).unwrap();
    assert_eq!(taffy.dirty(child0).unwrap(), true);
    assert_eq!(taffy.dirty(child1).unwrap(), false);
    assert_eq!(taffy.dirty(node).unwrap(), true);
}

#[test]
fn marking_dirty_reaches_every_ancestor() {
    let mut taffy = Tree::new();
    let leaf = taffy.new_leaf(Style::default()).unwrap();
    let sibling = taffy.new_leaf(Style::default()).unwrap();
    let middle = taffy.new_with_children(Style::default(), &[leaf, sibling]).unwrap();
    let aunt = taffy.new_leaf(Style::default()).unwrap();
    let root = taffy.new_with_children(Style::default(), &[middle, aunt]).unwrap();
    let stranger = taffy.new_leaf(Style::default()).unwrap();
    let space = Size::<AvailableSpace>::max_content();
    lay_out(&mut taffy, middle, space);
    lay_out(&mut taffy, root, space);
    taffy.compute_layout(stranger, space).unwrap();
    for node in [leaf, sibling, middle, aunt, root, stranger] {
        assert_eq!(taffy.dirty(node), Ok(false));
    }
    taffy.mark_dirty(leaf).unwrap();
    assert_eq!(taffy.dirty(leaf), Ok(true));
    assert_eq!(taffy.dirty(middle), Ok(true));
    assert_eq!(taffy.dirty(root), Ok(true));
    assert_eq!(taffy.dirty(sibling), Ok(false));
    assert_eq!(taffy.dirty(aunt), Ok(false));
    assert_eq!(taffy.dirty(stranger), Ok(false));
    assert_eq!(taffy.mark_dirty(Node(100)), Err(TaffyError::InvalidInputNode(Node(100))));
    assert_eq!(taffy.dirty(Node(100)), Err(TaffyError::InvalidInputNode(Node(100))));
}

#[test]
fn changes_mark_the_parent_dirty() {
    let mut taffy = Tree::new();
    let space = Size::<AvailableSpace>::max_content();
    let child = taffy.new_leaf(Style::default()).unwrap();
    let other = taffy.new_leaf(Style::default()).unwrap();
    let node = taffy.new_with_children(Style::default(), &[child]).unwrap();
    let root = taffy.new_with_children(Style::default(), &[node]).unwrap();
    let clean = |taffy: &mut Tree| {
        lay_out(taffy, node, space);
        lay_out(taffy, root, space);
        taffy.compute_layout(other, space).unwrap();
        assert_eq!(taffy.dirty(root), Ok(false));
        assert_eq!(taffy.dirty(node), Ok(false));
    };
    clean(&mut taffy);
    taffy.add_child(node, other).unwrap();
    assert_eq!((taffy.dirty(node), taffy.dirty(root)), (Ok(true), Ok(true)));
    assert_eq!((taffy.dirty(child), taffy.dirty(other)), (Ok(false), Ok(false)));
    clean(&mut taffy);
    taffy.remove_child(node, other).unwrap();
    assert_eq!((taffy.dirty(node), taffy.dirty(root)), (Ok(true), Ok(true)));
    clean(&mut taffy);
    taffy.replace_child_at_index(node, 0, other).unwrap();
    assert_eq!((taffy.dirty(node), taffy.dirty(root)), (Ok(true), Ok(true)));
    clean(&mut taffy);
    taffy.set_children(node, &[child, other]).unwrap();
    assert_eq!((taffy.dirty(node), taffy.dirty(root)), (Ok(true), Ok(true)));
    clean(&mut taffy);
    taffy.set_style(child, Style::default()).unwrap();
    assert_eq!((taffy.dirty(child), taffy.dirty(node), taffy.dirty(root)), (Ok(true), Ok(true), Ok(true)));
    assert_eq!(taffy.dirty(other), Ok(false));
    clean(&mut taffy);
    taffy.remove(child).unwrap();
    assert_eq!((taffy.dirty(node), taffy.dirty(root)), (Ok(true), Ok(true)));
    assert_eq!(taffy.dirty(other), Ok(false));
    assert_eq!(taffy.children_list(node).unwrap(), vec![other]);
}

#[test]
fn clearing_removes_every_node() {
    let mut taffy = Tree::default();
    let child = taffy.new_leaf(Style::default()).unwrap();
    let node = taffy.new_with_children(Style::default(), &[child]).unwrap();
    taffy.clear_nodes();
    assert!(!taffy.live(child));
    assert!(!taffy.live(node));
    let fresh = taffy.new_leaf(Style::default()).unwrap();
    assert!(fresh != child && fresh != node);
    assert!(taffy.live(fresh));
    assert_eq!(taffy.compute_layout(node, Size::<AvailableSpace>::max_content()), Err(TaffyError::InvalidInputNode(node)));
}
