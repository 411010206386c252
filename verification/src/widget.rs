//! The widgets.
pub mod button;
pub mod column;
pub mod container;
pub mod row;
pub mod space;
pub mod text;

pub use button::Button;
pub use column::Column;
pub use container::Container;
pub use row::Row;
pub use space::Space;
pub use text::Text;
