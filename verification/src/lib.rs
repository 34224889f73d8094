//! Decision logic for an application's documentation window.
//!
//! A desktop application keeps at most one documentation window, known to the
//! host's window registry under a fixed label. Opening it means: look the label
//! up; bring the window to the foreground if it is there; create it with fixed
//! attributes if it is not. The host owns the windows and performs the lookup,
//! the focus request and the creation. This crate holds everything that is
//! decided in between, together with a model of the registry against which the
//! decisions are proved.

pub mod command;
pub mod config;
pub mod laws;
pub mod lifecycle;
pub mod registry;
