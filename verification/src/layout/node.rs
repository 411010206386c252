//! The tree that a layout pass produces.
use crate::align::Align;
use crate::rectangle::Rectangle;
use crate::size::Size;
use crate::units;
use vstd::prelude::*;

verus! {

/// The bounds of a widget and of the widgets inside it.
///
/// The position of the bounds is counted from the top-left corner of the
/// parent's bounds.
#[derive(Debug)]
pub struct Node {
    /// The bounds, relative to the parent.
    pub bounds: Rectangle,
    /// The nodes of the children, in the order of the children.
    pub children: Vec<Node>,
}

/// What a [`Node`] holds, as a mathematical tree.
pub struct NodeView {
    /// The bounds, relative to the parent.
    pub bounds: Rectangle,
    /// The children, in order.
    pub children: Seq<NodeView>,
}

impl NodeView {
    /// A node of the given size at the origin, without children.
    pub open spec fn leaf(size: Size) -> NodeView {
        NodeView::with_children(size, Seq::empty())
    }

    /// A node of the given size at the origin, with the given children.
    pub open spec fn with_children(size: Size, children: Seq<NodeView>) -> NodeView {
        NodeView {
            bounds: Rectangle { x: 0, y: 0, width: size.width, height: size.height },
            children,
        }
    }

    /// The size of the bounds.
    pub open spec fn size(self) -> Size {
        self.bounds.spec_size()
    }

    /// Whether this node and `other` have the same size and as many
    /// children, and their children have the same sizes in turn, one by one.
    /// Where the nodes are put is not compared.
    pub open spec fn same_sizes(self, other: NodeView) -> bool
        decreases self,
    {
        &&& self.size() == other.size()
        &&& self.children.len() == other.children.len()
        &&& forall|i: int|
            0 <= i < self.children.len() ==> (#[trigger] self.children[i]).same_sizes(
                other.children[i],
            )
    }

    /// This node with its top-left corner put at the given position.
    pub open spec fn at(self, x: i64, y: i64) -> NodeView {
        NodeView {
            bounds: Rectangle { x, y, width: self.bounds.width, height: self.bounds.height },
            children: self.children,
        }
    }

    /// This node moved to where the two alignments put it in `space`. Only
    /// the position changes.
    pub open spec fn aligned(self, horizontal: Align, vertical: Align, space: Size) -> NodeView {
        self.at(
            units::clip_position(
                self.bounds.x + horizontal.spec_offset(space.width, self.bounds.width),
            ),
            units::clip_position(
                self.bounds.y + vertical.spec_offset(space.height, self.bounds.height),
            ),
        )
    }
}

impl Node {
    /// The tree that this node holds.
    pub open spec fn view(&self) -> NodeView
        decreases self,
    {
        NodeView {
            bounds: self.bounds,
            children: Seq::new(
                self.children@.len(),
                |i: int|
                    if 0 <= i < self.children@.len() {
                        self.children@[i].view()
                    } else {
                        arbitrary()
                    },
            ),
        }
    }

    /// Creates a node of the given size without children.
    pub fn new(size: Size) -> (node: Node)
        ensures
            node@ == NodeView::leaf(size),
    {
        let node = Node::with_children(size, Vec::new());
        assert(node@.children =~= Seq::empty());
        node
    }

    /// Creates a node of the given size with the given children.
    pub fn with_children(size: Size, children: Vec<Node>) -> (node: Node)
        ensures
            node@ == NodeView::with_children(size, views(children@)),
            node.children == children,
    {
        let node = Node {
            bounds: Rectangle { x: 0, y: 0, width: size.width, height: size.height },
            children,
        };
        assert(node@.children =~= views(children@));
        node
    }

    /// Returns the size of the bounds.
    pub fn size(&self) -> (size: Size)
        ensures
            size == self@.size(),
    {
        Size { width: self.bounds.width, height: self.bounds.height }
    }

    /// Returns the bounds.
    pub fn bounds(&self) -> (bounds: Rectangle)
        ensures
            bounds == self@.bounds,
    {
        self.bounds
    }

    /// Returns the nodes of the children.
    pub fn children(&self) -> (children: &Vec<Node>)
        ensures
            views(children@) == self@.children,
    {
        assert(views(self.children@) =~= self@.children);
        &self.children
    }

    /// Makes a copy of the node and of all the nodes below it.
    pub fn duplicate(&self) -> (copy: Node)
        ensures
            copy@ == self@,
        decreases self,
    {
        let mut children: Vec<Node> = Vec::new();
        let mut index: usize = 0;
        while index < self.children.len()
            invariant
                index <= self.children.len(),
                children@.len() == index,
                forall|i: int| 0 <= i < index ==> (#[trigger] children@[i])@ == self.children@[i]@,
            decreases self.children.len() - index,
        {
            let child = self.children[index].duplicate();
            children.push(child);
            index = index + 1;
        }
        let copy = Node { bounds: self.bounds, children };
        assert(copy@.children =~= self@.children);
        copy
    }

    /// Puts the top-left corner of the node at the given position.
    pub fn move_to(&mut self, x: i64, y: i64)
        ensures
            final(self)@ == old(self)@.at(x, y),
    {
        self.bounds.x = x;
        self.bounds.y = y;
        assert(self@.children =~= old(self)@.children);
    }

    /// Moves the node to where the two alignments put it in `space`.
    pub fn align(&mut self, horizontal: Align, vertical: Align, space: Size)
        ensures
            final(self)@ == old(self)@.aligned(horizontal, vertical, space),
    {
        let x = units::shift(self.bounds.x, horizontal.offset(space.width, self.bounds.width));
        let y = units::shift(self.bounds.y, vertical.offset(space.height, self.bounds.height));
        self.move_to(x, y);
    }
}

/// The trees of a sequence of nodes.
pub open spec fn views(nodes: Seq<Node>) -> Seq<NodeView> {
    Seq::new(nodes.len(), |i: int| nodes[i]@)
}

impl Clone for Node {
    fn clone(&self) -> (copy: Node)
        ensures
            copy@ == self@,
    {
        self.duplicate()
    }
}

impl Default for Node {
    fn default() -> (node: Node)
        ensures
            node@ == NodeView::leaf(Size::spec_zero()),
    {
        Node::new(Size::zero())
    }
}

} // verus!
