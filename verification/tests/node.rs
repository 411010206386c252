use iced::layout::Node;
use iced::{Align, Layout, Point, Rectangle, Size, Vector};

#[test]
fn a_new_node_sits_at_the_origin_without_children() {
    let node = Node::new(Size::new(30, 40));
    assert_eq!(node.bounds(), Rectangle { x: 0, y: 0, width: 30, height: 40 });
    assert_eq!(node.size(), Size::new(30, 40));
    assert!(node.children().is_empty());
}

#[test]
fn the_default_node_is_empty() {
    let node = Node::default();
    assert_eq!(node.bounds(), Rectangle { x: 0, y: 0, width: 0, height: 0 });
    assert!(node.children().is_empty());
}

#[test]
fn a_node_keeps_its_children_in_order() {
    let node = Node::with_children(
        Size::new(100, 100),
        vec![Node::new(Size::new(1, 1)), Node::new(Size::new(2, 2)), Node::new(Size::new(3, 3))],
    );
    let widths: Vec<u32> = node.children().iter().map(|child| child.size().width).collect();
    assert_eq!(widths, vec![1, 2, 3]);
}

#[test]
fn aligning_moves_a_node_and_keeps_its_size() {
    let mut node = Node::new(Size::new(30, 40));
    node.move_to(5, 6);
    node.align(Align::Center, Align::End, Size::new(100, 100));
    assert_eq!(node.bounds(), Rectangle { x: 40, y: 66, width: 30, height: 40 });
    node.align(Align::Start, Align::Start, Size::new(100, 100));
    assert_eq!(node.bounds(), Rectangle { x: 40, y: 66, width: 30, height: 40 });
}

#[test]
fn aligning_in_too_little_space_moves_backwards() {
    let mut node = Node::new(Size::new(30, 40));
    node.align(Align::Center, Align::End, Size::new(0, 0));
    assert_eq!(node.bounds(), Rectangle { x: -15, y: -40, width: 30, height: 40 });
}

#[test]
fn a_copy_of_a_node_holds_the_same_tree() {
    let mut inner = Node::with_children(Size::new(10, 10), vec![Node::new(Size::new(1, 2))]);
    inner.move_to(3, 4);
    let node = Node::with_children(Size::new(50, 60), vec![inner, Node::new(Size::new(7, 8))]);
    let copy = node.duplicate();
    assert_eq!(copy.bounds(), node.bounds());
    assert_eq!(copy.children().len(), 2);
    assert_eq!(copy.children()[0].bounds(), Rectangle { x: 3, y: 4, width: 10, height: 10 });
    assert_eq!(copy.children()[0].children()[0].size(), Size::new(1, 2));
    assert_eq!(copy.children()[1].size(), Size::new(7, 8));
    assert_eq!(node.clone().children()[1].size(), Size::new(7, 8));
}

#[test]
fn a_layout_counts_positions_from_the_window() {
    let mut grandchild = Node::new(Size::new(1, 2));
    grandchild.move_to(3, 4);
    let mut child = Node::with_children(Size::new(10, 20), vec![grandchild]);
    child.move_to(30, 40);
    let mut root = Node::with_children(Size::new(100, 200), vec![child]);
    root.move_to(5, 5);

    let layout = Layout::new(&root);
    assert_eq!(layout.bounds(), Rectangle { x: 5, y: 5, width: 100, height: 200 });
    assert_eq!(layout.len(), 1);
    let child = layout.child(0);
    assert_eq!(child.bounds(), Rectangle { x: 35, y: 45, width: 10, height: 20 });
    let grandchild = child.child(0);
    assert_eq!(grandchild.bounds(), Rectangle { x: 38, y: 49, width: 1, height: 2 });
    assert_eq!(grandchild.len(), 0);
}

#[test]
fn a_layout_with_an_offset_starts_there() {
    let mut node = Node::new(Size::new(1, 2));
    node.move_to(3, 4);
    let layout = Layout::with_offset(Vector::new(10, 20), &node);
    assert_eq!(layout.bounds().position(), Point::new(13, 24));
}

#[test]
fn a_layout_without_children_gives_the_node_it_is_handed() {
    let mut root = Node::new(Size::new(100, 200));
    root.move_to(5, 6);
    let empty = Node::new(Size::zero());
    let layout = Layout::new(&root);
    let first = layout.first_child_or(&empty);
    assert_eq!(first.bounds(), Rectangle { x: 5, y: 6, width: 0, height: 0 });

    let with_child = Node::with_children(Size::new(10, 10), vec![Node::new(Size::new(1, 1))]);
    let layout = Layout::new(&with_child);
    assert_eq!(layout.first_child_or(&empty).bounds().size(), Size::new(1, 1));
}
