//! Positioning and sizing of widgets.
pub mod flex;
pub mod limits;
pub mod node;

pub use limits::Limits;
pub use node::{Node, NodeView};

use crate::point::Point;
use crate::rectangle::Rectangle;
use crate::size::Size;
use crate::units;
use crate::vector::Vector;
use vstd::prelude::*;

verus! {

/// A node of a layout tree together with its position in the window.
#[derive(Debug, Clone, Copy)]
pub struct Layout<'a> {
    /// The top-left corner of the node, counted from the window's.
    pub position: Point,
    /// The node.
    pub node: &'a Node,
}

/// What a [`Layout`] holds, as a mathematical value.
pub struct LayoutView {
    /// The top-left corner of the node, counted from the window's.
    pub position: Point,
    /// The node.
    pub node: NodeView,
}

impl LayoutView {
    /// The layout of a root node.
    pub open spec fn root(node: NodeView) -> LayoutView {
        LayoutView::with_offset(Vector { x: 0, y: 0 }, node)
    }

    /// The layout of a node whose parent's top-left corner is at `offset`.
    pub open spec fn with_offset(offset: Vector, node: NodeView) -> LayoutView {
        LayoutView { position: node.bounds.spec_position().spec_moved(offset), node }
    }

    /// The bounds of the node in the window.
    pub open spec fn bounds(self) -> Rectangle {
        Rectangle {
            x: self.position.x,
            y: self.position.y,
            width: self.node.bounds.width,
            height: self.node.bounds.height,
        }
    }

    /// The number of children.
    pub open spec fn len(self) -> nat {
        self.node.children.len()
    }

    /// The layout of the child at `index`.
    pub open spec fn child(self, index: int) -> LayoutView {
        LayoutView::with_offset(
            Vector { x: self.position.x, y: self.position.y },
            self.node.children[index],
        )
    }

    /// The layout of the first child; where there is no child, that of the
    /// node `otherwise` at the position of this one.
    pub open spec fn first_child_or(self, otherwise: NodeView) -> LayoutView {
        if self.len() > 0 {
            self.child(0)
        } else {
            LayoutView { position: self.position, node: otherwise }
        }
    }

    /// The layout of the first child; where there is no child, that of an
    /// empty node at the position of this one.
    pub open spec fn first_child(self) -> LayoutView {
        self.first_child_or(NodeView::leaf(Size::zero()))
    }
}

impl<'a> Layout<'a> {
    /// What this layout holds.
    pub open spec fn view(&self) -> LayoutView {
        LayoutView { position: self.position, node: self.node@ }
    }

    /// Creates the layout of a root node.
    pub fn new(node: &'a Node) -> (layout: Layout<'a>)
        ensures
            layout@ == LayoutView::root(node@),
    {
        Layout::with_offset(Vector::new(0, 0), node)
    }

    /// Creates the layout of a node whose parent's top-left corner is at
    /// `offset`.
    pub fn with_offset(offset: Vector, node: &'a Node) -> (layout: Layout<'a>)
        ensures
            layout@ == LayoutView::with_offset(offset, node@),
    {
        let bounds = node.bounds();
        Layout { position: Point::new(bounds.x, bounds.y) + offset, node }
    }

    /// Returns the bounds of the node in the window.
    pub fn bounds(&self) -> (bounds: Rectangle)
        ensures
            bounds == self@.bounds(),
    {
        let bounds = self.node.bounds();
        Rectangle {
            x: self.position.x,
            y: self.position.y,
            width: bounds.width,
            height: bounds.height,
        }
    }

    /// Returns the number of children.
    pub fn len(&self) -> (count: usize)
        ensures
            count == self@.len(),
    {
        self.node.children().len()
    }

    /// Returns the layout of the child at `index`.
    pub fn child(&self, index: usize) -> (layout: Layout<'a>)
        requires
            index < self@.len(),
        ensures
            layout@ == self@.child(index as int),
    {
        let children = self.node.children();
        Layout::with_offset(Vector::new(self.position.x, self.position.y), &children[index])
    }

    /// Returns the layout of the first child; where there is no child, that
    /// of the node `otherwise` at the position of this one.
    pub fn first_child_or<'b>(&self, otherwise: &'b Node) -> (layout: Layout<'b>) where 'a: 'b
        ensures
            layout@ == self@.first_child_or(otherwise@),
    {
        if self.len() > 0 {
            self.child(0)
        } else {
            Layout { position: self.position, node: otherwise }
        }
    }
}

} // verus!
