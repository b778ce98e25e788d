//! Locate a process's top-level window and move it onto a display chosen by
//! matching a pattern against the display's friendly device name, or report
//! the chosen display's working geometry for external scripting.
//!
//! This crate holds the verified core: the geometry model, the monitor and
//! window selection rules, and the output formatting. The platform calls that
//! enumerate displays and windows and perform the actual placement live in the
//! surrounding application, which hands this crate plain values.

pub mod geometry;
pub mod locate;
pub mod numfmt;
pub mod orchestrate;
pub mod pattern;

pub use geometry::Monitor;
pub use geometry::Rect;
