//! Finds the foreground window on a Wayland session and the process that owns it.
//!
//! The compositor is watched through the wlr foreign-toplevel protocol; the
//! decisions taken on its events, the process-table heuristic and the assembly
//! of the answer are verified here. Driving the event stream, reading the
//! environment and reading `/proc` are left to the caller.

pub mod toplevel;
pub mod process;
pub mod platform;
