//! What the drawing of a widget is made of.
use crate::background::Background;
use crate::color::Color;
use crate::rectangle::Rectangle;
use vstd::prelude::*;

verus! {

/// Where a text is put in its bounds from left to right.
#[derive(Debug, Clone, Copy, PartialEq, Eq, Structural)]
pub enum HorizontalAlignment {
    /// At the left edge.
    Left,
    /// In the middle.
    Center,
    /// At the right edge.
    Right,
}

/// Where a text is put in its bounds from top to bottom.
#[derive(Debug, Clone, Copy, PartialEq, Eq, Structural)]
pub enum VerticalAlignment {
    /// At the top edge.
    Top,
    /// In the middle.
    Center,
    /// At the bottom edge.
    Bottom,
}

/// The font of a text.
#[derive(Debug, Clone, Copy, PartialEq, Eq, Structural)]
pub enum Font {
    /// The font of ordinary text.
    Default,
    /// The font that holds the icons of the widgets.
    Icons,
}

/// The state of the mouse cursor.
#[derive(Debug, Clone, Copy, PartialEq, Eq, Structural)]
pub enum MouseCursor {
    /// The cursor is out of the bounds of the user interface.
    OutOfBounds,
    /// The cursor is over a non-interactive widget.
    Idle,
    /// The cursor is over a clickable widget.
    Pointer,
    /// The cursor is over a busy widget.
    Working,
    /// The cursor is over a grabbable widget.
    Grab,
    /// The cursor is grabbing a widget.
    Grabbing,
    /// The cursor is over a text widget.
    Text,
}

/// A rendering primitive.
#[derive(Debug, PartialEq, Eq)]
pub enum Primitive {
    /// An empty primitive
    Empty,
    /// A group of primitives
    Group {
        /// The primitives of the group
        primitives: Vec<Primitive>,
    },
    /// A text primitive
    Text {
        /// The contents of the text
        content: String,
        /// The bounds of the text
        bounds: Rectangle,
        /// The color of the text
        color: Color,
        /// The size of the text
        size: u32,
        /// The font of the text
        font: Font,
        /// The horizontal alignment of the text
        horizontal_alignment: HorizontalAlignment,
        /// The vertical alignment of the text
        vertical_alignment: VerticalAlignment,
    },
    /// A quad primitive
    Quad {
        /// The bounds of the quad
        bounds: Rectangle,
        /// The background of the quad
        background: Background,
        /// The border radius of the quad
        border_radius: u16,
    },
}

/// What a [`Primitive`] holds, as a mathematical tree.
pub enum PrimitiveView {
    /// An empty primitive
    Empty,
    /// A group of primitives
    Group {
        /// The primitives of the group
        primitives: Seq<PrimitiveView>,
    },
    /// A text primitive
    Text {
        /// The contents of the text
        content: Seq<char>,
        /// The bounds of the text
        bounds: Rectangle,
        /// The color of the text
        color: Color,
        /// The size of the text
        size: u32,
        /// The font of the text
        font: Font,
        /// The horizontal alignment of the text
        horizontal_alignment: HorizontalAlignment,
        /// The vertical alignment of the text
        vertical_alignment: VerticalAlignment,
    },
    /// A quad primitive
    Quad {
        /// The bounds of the quad
        bounds: Rectangle,
        /// The background of the quad
        background: Background,
        /// The border radius of the quad
        border_radius: u16,
    },
}

impl Primitive {
    /// The tree that this primitive holds.
    pub open spec fn view(&self) -> PrimitiveView
        decreases self,
    {
        match self {
            Primitive::Empty => PrimitiveView::Empty,
            Primitive::Group { primitives } => PrimitiveView::Group {
                primitives: Seq::new(
                    primitives@.len(),
                    |i: int|
                        if 0 <= i < primitives@.len() {
                            primitives@[i].view()
                        } else {
                            arbitrary()
                        },
                ),
            },
            Primitive::Text {
                content,
                bounds,
                color,
                size,
                font,
                horizontal_alignment,
                vertical_alignment,
            } => PrimitiveView::Text {
                content: content@,
                bounds: *bounds,
                color: *color,
                size: *size,
                font: *font,
                horizontal_alignment: *horizontal_alignment,
                vertical_alignment: *vertical_alignment,
            },
            Primitive::Quad { bounds, background, border_radius } => PrimitiveView::Quad {
                bounds: *bounds,
                background: *background,
                border_radius: *border_radius,
            },
        }
    }
}

/// The trees of a sequence of primitives.
pub open spec fn views(primitives: Seq<Primitive>) -> Seq<PrimitiveView> {
    Seq::new(primitives.len(), |i: int| primitives[i]@)
}

/// The rectangle that lies `inset` units inside `bounds` on every side; an
/// extent that is too small for that becomes zero.
pub open spec fn spec_inset(bounds: Rectangle, inset: u32) -> Rectangle {
    Rectangle {
        x: crate::units::clip_position(bounds.x + inset),
        y: crate::units::clip_position(bounds.y + inset),
        width: crate::units::spec_shrink(bounds.width, crate::units::clip(2 * inset)),
        height: crate::units::spec_shrink(bounds.height, crate::units::clip(2 * inset)),
    }
}

/// Returns the rectangle that lies `margin` units inside `bounds` on every
/// side.
pub fn inset(bounds: Rectangle, margin: u32) -> (inner: Rectangle)
    ensures
        inner == spec_inset(bounds, margin),
{
    let both = crate::units::grow(margin, margin);
    Rectangle {
        x: crate::units::shift(bounds.x, margin as i64),
        y: crate::units::shift(bounds.y, margin as i64),
        width: crate::units::shrink(bounds.width, both),
        height: crate::units::shrink(bounds.height, both),
    }
}

/// A grey of the given brightness, from 0 to 255.
pub open spec fn spec_grey(brightness: u8) -> Background {
    Background::Color(Color { r: brightness, g: brightness, b: brightness, a: 255 })
}

/// Returns a grey of the given brightness, from 0 to 255.
pub fn grey(brightness: u8) -> (background: Background)
    ensures
        background == spec_grey(brightness),
{
    Background::Color(Color { r: brightness, g: brightness, b: brightness, a: 255 })
}

} // verus!
