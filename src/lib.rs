//! Extended windowing support for a Bevy application: the window icon, whether the
//! primary window is maximized, and a taskbar progress indicator.
//!
//! This crate holds the decisions that the per-frame systems make: when the icon and
//! the taskbar have to be pushed to the windows again, what the icon is built from,
//! which progress state the taskbar shows, and what is remembered of the primary
//! window's maximized state.

mod icon;
mod taskbar;
mod utils;

pub use icon::{window_icon_for, IconImage};
pub use taskbar::{TaskbarProgress, TaskbarState, TaskbarUpdate};
pub use utils::{FrameSync, WindowUtils};
