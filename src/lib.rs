//! Always-on-top status panel: the decisions behind it, verified.
//!
//! - [`runner`] turns a command's captured standard output into displayed text.
//! - [`config`] validates the loaded configuration and resolves paths.
//! - [`visibility`] is the show/hide state machine driven by pointer events.
//! - [`scheduler`] decides when the command runs and what the panel shows.

pub mod config;
pub mod runner;
pub mod scheduler;
pub mod visibility;
