//! A renderer that draws nothing.
use crate::background::Background;
use crate::point::Point;
use crate::rectangle::Rectangle;
use crate::renderer::Renderer;
use crate::size::Size;
use vstd::prelude::*;

verus! {

/// A renderer that does nothing.
///
/// Every text measures twenty units high and no units wide, whatever it
/// says.
#[derive(Debug, Clone, Copy)]
pub struct Null;

impl Renderer for Null {
    type Output = ();

    open spec fn spec_default_size() -> u16 {
        20
    }

    fn default_size(&self) -> (size: u16) {
        20
    }

    open spec fn spec_measure(&self, content: Seq<char>, size: u16, bounds: Size) -> Size {
        Size { width: 0, height: 20 }
    }

    fn measure(&self, content: &str, size: u16, bounds: Size) -> (measured: Size) {
        Size { width: 0, height: 20 }
    }

    open spec fn space_output(bounds: Rectangle) -> () {
        ()
    }

    fn draw_space(&mut self, bounds: Rectangle) -> (output: ()) {
    }

    open spec fn text_output(bounds: Rectangle, content: Seq<char>, size: u16) -> () {
        ()
    }

    fn draw_text(&mut self, bounds: Rectangle, content: &str, size: u16) -> (output: ()) {
    }

    open spec fn button_output(
        bounds: Rectangle,
        cursor_position: Point,
        is_pressed: bool,
        background: Option<Background>,
        border_radius: u16,
        content: (),
    ) -> () {
        ()
    }

    fn draw_button(
        &mut self,
        bounds: Rectangle,
        cursor_position: Point,
        is_pressed: bool,
        background: Option<Background>,
        border_radius: u16,
        content: (),
    ) -> (output: ()) {
    }

    open spec fn row_output(bounds: Rectangle, children: Seq<()>) -> () {
        ()
    }

    fn draw_row(&mut self, bounds: Rectangle, children: Vec<()>) -> (output: ()) {
    }

    open spec fn column_output(bounds: Rectangle, children: Seq<()>) -> () {
        ()
    }

    fn draw_column(&mut self, bounds: Rectangle, children: Vec<()>) -> (output: ()) {
    }
}

} // verus!
