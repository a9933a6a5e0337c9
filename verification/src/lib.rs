//! Decision logic of a screen-capture helper for a Wayland desktop.
//!
//! The crate turns a snapshot of the compositor's window tree into the list of
//! rectangles that an interactive region selector offers for snapping, reads
//! the selector's answer, and lays out the command lines, notices and file
//! names of a capture run. Running the helper programs is left to the caller.

pub mod capture;
pub mod geometry;
pub mod naming;
pub mod plan;
pub mod reach;
pub mod selector;
pub mod tree;
