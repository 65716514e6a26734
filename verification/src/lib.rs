//! A lightweight cross-platform GUI toolkit core: a canonical event model,
//! input-state tracking, event normalization, widget dispatch with focus and
//! hover semantics, and an application lifecycle runner.
//!
//! Native windowing backends are external collaborators reached through the
//! [`platform::PlatformBackend`] trait; this crate owns everything between the
//! raw platform events they yield and the widgets that consume them.

pub mod application;
pub mod common;
pub mod error;
pub mod events;
pub mod geometry;
pub mod keymap;
pub mod layout;
pub mod platform;
pub mod window;
pub mod strutil;
pub mod widgets;

pub use application::{Application, ApplicationBuilder, ApplicationConfig};
pub use error::Error;
pub use events::{Event, EventData, EventHandler, EventLoop, EventManager, EventQueue};
pub use geometry::{Color, Point, Rect, Size};
pub use platform::{Key, KeyModifiers, MouseButton, PlatformBackend, PlatformEvent, WindowHandle, WindowParams};
pub use widgets::{Widget, WidgetId, WidgetManager};
pub use widgets::button::Button;
pub use widgets::container::Container;
pub use widgets::label::Label;
pub use widgets::text_input::TextInput;
pub use window::{Window, WindowBuilder, WindowId, WindowProperties};

use vstd::prelude::*;

verus! {

/// Version of the toolkit API.
pub const VERSION: &'static str = "0.1.0";

} // verus!
