//! Asks a language model from the shell prompt and drops the answer into the
//! command line.
//!
//! Everything that decides or computes stands here; terminal, network, files and
//! processes are left to whoever drives it.

pub mod api;
pub mod cli;
pub mod config;
pub mod display_laws;
pub mod json;
pub mod key;
pub mod popup;
pub mod screen;
pub mod screen_laws;
pub mod session;
pub mod text;
pub mod text_laws;
pub mod tty;
pub mod ui;
pub mod ui_laws;
pub mod view_laws;
pub mod worker;
