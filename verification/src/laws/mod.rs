//! What holds of the operations taken together.

pub mod app;
pub mod config;
pub mod operations;
pub mod panes;
pub mod run;
pub mod session;
pub mod text;
pub mod tmux;
pub mod tui;
pub mod wrapper;
