//! Touch-driven status panel and pull-down drawer for a mobile Wayland shell.
//!
//! The crate holds the decisions of the shell: the module grid and its
//! hit-testing, the drawer's drag and animation state machine, the tap
//! coordinator and the render stall bookkeeping. Window handling, drawing and
//! device access are left to the embedding program, which feeds events in and
//! carries the returned actions out.

pub mod config;
pub mod dbus;
pub mod drawer;
pub mod geometry;
pub mod gesture;
pub mod module;
pub mod panel;
pub mod stall;
pub mod state;
pub mod text;
pub mod touch;
pub mod vertex;
