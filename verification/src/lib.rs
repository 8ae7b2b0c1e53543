//! Core of a command-line controller for per-monitor desktop wallpapers.
//!
//! The crate holds the monitor snapshot model, the command rules for `ls`,
//! `set` and `slideshow`, and the random image choice. It performs no I/O:
//! every exchange with the wallpaper provider or the file system is described
//! by a value that the caller carries out and answers.

pub mod command;
pub mod error;
pub mod helpers;
pub mod ls;
pub mod monitor;
pub mod set;
pub mod slideshow;
pub mod usage;
