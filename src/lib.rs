//! A decorator that opens a popup (a context menu) on a right click, with
//! one popup open at a time across every decorator of a view.
//!
//! The routing decisions of the decorator and of its popup overlay, the
//! identifiers that tie a decorator to the shared activation record, and
//! the activation record itself are verified here; the widget plumbing that
//! hands iced's events to these decisions lives with the host application.

pub mod geometry;
pub mod id;
pub mod menu;
pub mod state;
pub mod style;

pub use id::{Id, IdView, Ticket};

pub use menu::{ContextMenu, Dismissal, Input, MouseButton, Overlay, Routing};
pub use state::ContextMenuState;
pub use style::ContextMenuStyleSheet;
