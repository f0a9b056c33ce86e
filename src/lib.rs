//! A full-screen terminal UI runtime: the per-frame render-loop state machine,
//! the closed set of views it dispatches to, and the fixed frame layout.
//!
//! Terminal I/O, the input-reader thread and the event channel live with the
//! program that drives this library; here are the decisions it takes.

pub mod event;
pub mod layout;
pub mod render_loop;
pub mod view;

pub use event::{
    Event, KeyCode, KeyEvent, KeyKind, MediaKey, ModifierKey, MouseButton, MouseEvent, MouseKind,
};
pub use layout::{frame_regions, Area};
pub use render_loop::{Exit, Flow, FrameOutcome, RenderLoop};
pub use view::{SetupView, View, ViewController};
