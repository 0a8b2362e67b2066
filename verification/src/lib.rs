//! Input dispatch and pointer-grab state machine of a Wayland compositor.
//!
//! The crate holds the decisions of input handling as a state machine over
//! plain values: which key presses are compositor bindings, which window is
//! under the pointer, when an interactive move or resize begins and ends, and
//! what is handed on to the seat. The embedding compositor feeds it one event
//! at a time and carries out what each step reports.

pub mod geometry;
pub mod serial;
pub mod keybinding;
pub mod axis;
pub mod grab;
pub mod window;
pub mod event;
pub mod dispatch;
pub mod laws;
