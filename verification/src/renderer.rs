//! What the core asks of a renderer.
pub mod checkbox;
pub mod null;
pub mod primitive;
pub mod radio;

pub use null::Null;
pub use primitive::{MouseCursor, Primitive};

use crate::background::Background;
use crate::point::Point;
use crate::rectangle::Rectangle;
use crate::size::Size;
use vstd::prelude::*;

verus! {

/// The measuring and the drawing that the widgets leave to a backend.
///
/// A renderer measures text while a layout is computed, and it turns the
/// bounds and the state of each widget into its own kind of output when the
/// tree is drawn. What it measures for a text depends on the renderer and on
/// what it is handed, and what it draws for a widget on what it is handed
/// alone, so that an unchanged tree is laid out and drawn the same way each
/// time.
///
/// Each executable function comes with a specification function that says
/// what it returns. A verified renderer defines these; a renderer that is
/// not verified leaves them as they are, and what is proved of its layouts
/// and drawings then rests on its functions being as regular as said.
pub trait Renderer: Sized {
    /// What the renderer makes of a widget.
    type Output;

    /// The size of text that has no size of its own.
    open spec fn spec_default_size() -> u16 {
        arbitrary()
    }

    /// Returns the size of text that has no size of its own.
    fn default_size(&self) -> (size: u16)
        ensures
            size == Self::spec_default_size(),
    ;

    /// The space that `content` takes at the given text size within `bounds`.
    open spec fn spec_measure(&self, content: Seq<char>, size: u16, bounds: Size) -> Size {
        arbitrary()
    }

    /// Measures the space that `content` takes at the given text size within
    /// `bounds`.
    fn measure(&self, content: &str, size: u16, bounds: Size) -> (measured: Size)
        ensures
            measured == self.spec_measure(content@, size, bounds),
    ;

    /// What is drawn for an empty space.
    open spec fn space_output(bounds: Rectangle) -> Self::Output {
        arbitrary()
    }

    /// Draws an empty space.
    fn draw_space(&mut self, bounds: Rectangle) -> (output: Self::Output)
        ensures
            output == Self::space_output(bounds),
    ;

    /// What is drawn for a text.
    open spec fn text_output(bounds: Rectangle, content: Seq<char>, size: u16) -> Self::Output {
        arbitrary()
    }

    /// Draws a text.
    fn draw_text(&mut self, bounds: Rectangle, content: &str, size: u16) -> (output: Self::Output)
        ensures
            output == Self::text_output(bounds, content@, size),
    ;

    /// What is drawn for a button around its content.
    open spec fn button_output(
        bounds: Rectangle,
        cursor_position: Point,
        is_pressed: bool,
        background: Option<Background>,
        border_radius: u16,
        content: Self::Output,
    ) -> Self::Output {
        arbitrary()
    }

    /// Draws a button around its content.
    fn draw_button(
        &mut self,
        bounds: Rectangle,
        cursor_position: Point,
        is_pressed: bool,
        background: Option<Background>,
        border_radius: u16,
        content: Self::Output,
    ) -> (output: Self::Output)
        ensures
            output == Self::button_output(
                bounds,
                cursor_position,
                is_pressed,
                background,
                border_radius,
                content,
            ),
    ;

    /// What is drawn for a row of children.
    open spec fn row_output(bounds: Rectangle, children: Seq<Self::Output>) -> Self::Output {
        arbitrary()
    }

    /// Draws a row of children.
    fn draw_row(&mut self, bounds: Rectangle, children: Vec<Self::Output>) -> (output: Self::Output)
        ensures
            output == Self::row_output(bounds, children@),
    ;

    /// What is drawn for a column of children.
    open spec fn column_output(bounds: Rectangle, children: Seq<Self::Output>) -> Self::Output {
        arbitrary()
    }

    /// Draws a column of children.
    fn draw_column(&mut self, bounds: Rectangle, children: Vec<Self::Output>) -> (output:
        Self::Output)
        ensures
            output == Self::column_output(bounds, children@),
    ;
}


} // verus!
