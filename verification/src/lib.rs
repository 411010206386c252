//! A retained-tree user interface core.
//!
//! A tree of widgets is described anew for every frame. A session lays the
//! tree out under box constraints, routes input events through it and hands
//! its layout over to the next frame, where it is used again as long as the
//! structure of the tree has not changed.
//!
//! All lengths are whole units. An extent of [`units::UNBOUNDED`] stands for
//! "no limit", and arithmetic on extents never wraps.
pub mod units;
pub mod size;
pub mod point;
pub mod vector;
pub mod rectangle;
pub mod length;
pub mod align;
pub mod layout;
pub mod input;
pub mod event;
pub mod hasher;
pub mod color;
pub mod background;
pub mod renderer;
pub mod element;
pub mod widget;
pub mod structure;
pub mod user_interface;
pub mod window;
pub mod web;

pub use align::Align;
pub use background::Background;
pub use color::Color;
pub use element::Element;
pub use event::Event;
pub use hasher::Hasher;
pub use layout::Layout;
pub use length::Length;
pub use point::Point;
pub use rectangle::Rectangle;
pub use renderer::Renderer;
pub use size::Size;
pub use user_interface::{Cache, UserInterface};
pub use vector::Vector;
pub use widget::{Button, Column, Container, Row, Space, Text};
