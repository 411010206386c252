//! Widgets for a web page.
//!
//! A widget of this module does not compute a layout: it turns into a node
//! of a virtual document, and leaves the layout to the style sheet of the
//! page.
pub mod container;
pub mod dom;
pub mod element;
pub mod row;
pub mod style;
pub mod text;

pub use container::Container;
pub use element::Element;
pub use row::Row;
pub use style::{Sheet, Style};
pub use text::Text;
