//! Draw checkboxes as quads.
use crate::color::Color;
use crate::rectangle::Rectangle;
use crate::renderer::primitive::{
    self, Font, HorizontalAlignment, MouseCursor, Primitive, PrimitiveView, VerticalAlignment,
};
use crate::renderer::radio::spec_cursor;
use vstd::prelude::*;

verus! {

/// The size of a checkbox.
pub const SIZE: u32 = 28;

/// Returns the default size of a checkbox.
pub fn default_size() -> (size: u32)
    ensures
        size == SIZE,
{
    SIZE
}

/// The border of a checkbox: a quad of medium grey with rounded corners.
pub open spec fn spec_border(bounds: Rectangle) -> PrimitiveView {
    PrimitiveView::Quad { bounds, background: primitive::spec_grey(153), border_radius: 6 }
}

/// The box of a checkbox: a quad one unit inside the border, of a light grey
/// that is darker while the mouse is over the checkbox.
pub open spec fn spec_box(bounds: Rectangle, is_mouse_over: bool) -> PrimitiveView {
    PrimitiveView::Quad {
        bounds: primitive::spec_inset(bounds, 1),
        background: if is_mouse_over {
            primitive::spec_grey(230)
        } else {
            primitive::spec_grey(242)
        },
        border_radius: 5,
    }
}

/// The size of the mark of a checkbox: seven tenths of its height.
pub open spec fn spec_mark_size(bounds: Rectangle) -> u32 {
    (bounds.height * 7 / 10) as u32
}

/// The mark of a checked checkbox: the check mark of the icon font in dark
/// grey, in the middle of the checkbox.
pub open spec fn spec_mark(bounds: Rectangle) -> PrimitiveView {
    PrimitiveView::Text {
        content: "\u{F00C}"@,
        bounds,
        color: Color { r: 77, g: 77, b: 77, a: 255 },
        size: spec_mark_size(bounds),
        font: Font::Icons,
        horizontal_alignment: HorizontalAlignment::Center,
        vertical_alignment: VerticalAlignment::Center,
    }
}

/// What is drawn for a checkbox: the border, the box, the mark if the
/// checkbox is checked, and the label.
pub open spec fn spec_draw(
    bounds: Rectangle,
    is_checked: bool,
    is_mouse_over: bool,
    label: PrimitiveView,
) -> PrimitiveView {
    PrimitiveView::Group {
        primitives: if is_checked {
            seq![spec_border(bounds), spec_box(bounds, is_mouse_over), spec_mark(bounds), label]
        } else {
            seq![spec_border(bounds), spec_box(bounds, is_mouse_over), label]
        },
    }
}

/// Draws a checkbox around the drawing of its label.
pub fn draw(
    bounds: Rectangle,
    is_checked: bool,
    is_mouse_over: bool,
    label: (Primitive, MouseCursor),
) -> (output: (Primitive, MouseCursor))
    ensures
        output.0@ == spec_draw(bounds, is_checked, is_mouse_over, label.0@),
        output.1 == spec_cursor(is_mouse_over),
{
    let (label, _) = label;
    let checkbox_border = Primitive::Quad {
        bounds,
        background: primitive::grey(153),
        border_radius: 6,
    };
    let checkbox_box = Primitive::Quad {
        bounds: primitive::inset(bounds, 1),
        background: if is_mouse_over {
            primitive::grey(230)
        } else {
            primitive::grey(242)
        },
        border_radius: 5,
    };
    let mut primitives: Vec<Primitive> = Vec::new();
    primitives.push(checkbox_border);
    primitives.push(checkbox_box);
    if is_checked {
        let size: u64 = bounds.height as u64 * 7 / 10;
        let check = Primitive::Text {
            content: "\u{F00C}".to_owned(),
            bounds,
            color: Color { r: 77, g: 77, b: 77, a: 255 },
            size: size as u32,
            font: Font::Icons,
            horizontal_alignment: HorizontalAlignment::Center,
            vertical_alignment: VerticalAlignment::Center,
        };
        primitives.push(check);
    }
    primitives.push(label);
    let group = Primitive::Group { primitives };
    proof {
        reveal_with_fuel(Primitive::view, 2);
    }
    assert(group@->primitives =~= spec_draw(
        bounds,
        is_checked,
        is_mouse_over,
        label@,
    )->primitives);
    (
        group,
        if is_mouse_over {
            MouseCursor::Pointer
        } else {
            MouseCursor::OutOfBounds
        },
    )
}

} // verus!
