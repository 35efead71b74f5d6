//! The verified core of a single-window OpenGL host.
//!
//! A window, a rendering context and a drawable surface are three resources
//! with three different lifetimes. This crate holds everything that decides
//! when each of them is made, paired, rebuilt and released, and leaves the
//! platform calls themselves to the shell that embeds it: the shell performs
//! one [`signal::Action`] at a time and reports what came of it.
//!
//! - [`window`] describes the window to open,
//! - [`config`] selects the surface configuration,
//! - [`context`] orders the levels at which a context is asked for,
//! - [`lifecycle`] answers the signals of the event source,
//! - [`model`] is the table of transitions that it follows, and
//! - [`laws`] is what holds of every run.

pub mod config;
pub mod context;
pub mod icon;
pub mod laws;
pub mod lifecycle;
pub mod model;
pub mod signal;
pub mod window;

pub use crate::config::gl_config_picker;
pub use crate::signal::AppControl;
pub use crate::window::Window;
