//! Draw radio buttons as quads.
use crate::rectangle::Rectangle;
use crate::renderer::primitive::{self, MouseCursor, Primitive, PrimitiveView};
use vstd::prelude::*;

verus! {

/// The size of a radio button.
pub const SIZE: u32 = 28;

/// The size of the dot of a selected radio button.
pub const DOT_SIZE: u32 = 14;

/// Returns the default size of a radio button.
pub fn default_size() -> (size: u32)
    ensures
        size == SIZE,
{
    SIZE
}

/// The border of a radio button: a round quad of medium grey.
pub open spec fn spec_border(bounds: Rectangle) -> PrimitiveView {
    PrimitiveView::Quad { bounds, background: primitive::spec_grey(153), border_radius: 14 }
}

/// The box of a radio button: a round quad one unit inside the border, of a
/// light grey that is darker while the mouse is over the radio button.
pub open spec fn spec_box(bounds: Rectangle, is_mouse_over: bool) -> PrimitiveView {
    PrimitiveView::Quad {
        bounds: primitive::spec_inset(bounds, 1),
        background: if is_mouse_over {
            primitive::spec_grey(230)
        } else {
            primitive::spec_grey(242)
        },
        border_radius: 13,
    }
}

/// The dot of a selected radio button: a round quad of dark grey, half the
/// size of the dot inside the border.
pub open spec fn spec_dot(bounds: Rectangle) -> PrimitiveView {
    PrimitiveView::Quad {
        bounds: primitive::spec_inset(bounds, 7),
        background: primitive::spec_grey(77),
        border_radius: 7,
    }
}

/// What is drawn for a radio button: the border, the box, the dot if the
/// radio button is selected, and the label.
pub open spec fn spec_draw(
    bounds: Rectangle,
    is_selected: bool,
    is_mouse_over: bool,
    label: PrimitiveView,
) -> PrimitiveView {
    PrimitiveView::Group {
        primitives: if is_selected {
            seq![spec_border(bounds), spec_box(bounds, is_mouse_over), spec_dot(bounds), label]
        } else {
            seq![spec_border(bounds), spec_box(bounds, is_mouse_over), label]
        },
    }
}

/// The mouse cursor over a radio button or a checkbox.
pub open spec fn spec_cursor(is_mouse_over: bool) -> MouseCursor {
    if is_mouse_over {
        MouseCursor::Pointer
    } else {
        MouseCursor::OutOfBounds
    }
}

/// Draws a radio button around the drawing of its label.
pub fn draw(
    bounds: Rectangle,
    is_selected: bool,
    is_mouse_over: bool,
    label: (Primitive, MouseCursor),
) -> (output: (Primitive, MouseCursor))
    ensures
        output.0@ == spec_draw(bounds, is_selected, is_mouse_over, label.0@),
        output.1 == spec_cursor(is_mouse_over),
{
    let (label, _) = label;
    let radio_border = Primitive::Quad {
        bounds,
        background: primitive::grey(153),
        border_radius: 14,
    };
    let radio_box = Primitive::Quad {
        bounds: primitive::inset(bounds, 1),
        background: if is_mouse_over {
            primitive::grey(230)
        } else {
            primitive::grey(242)
        },
        border_radius: 13,
    };
    let mut primitives: Vec<Primitive> = Vec::new();
    primitives.push(radio_border);
    primitives.push(radio_box);
    if is_selected {
        let radio_circle = Primitive::Quad {
            bounds: primitive::inset(bounds, DOT_SIZE / 2),
            background: primitive::grey(77),
            border_radius: 7,
        };
        primitives.push(radio_circle);
    }
    primitives.push(label);
    let group = Primitive::Group { primitives };
    proof {
        reveal_with_fuel(Primitive::view, 2);
    }
    assert(group@->primitives =~= spec_draw(
        bounds,
        is_selected,
        is_mouse_over,
        label@,
    )->primitives);
    (
        group,
        if is_mouse_over {
            MouseCursor::Pointer
        } else {
            MouseCursor::OutOfBounds
        },
    )
}

} // verus!
