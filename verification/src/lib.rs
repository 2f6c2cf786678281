//! Terminal process manager built on tmux.
//!
//! The operations do no input or output themselves: each is a function of the
//! replies received so far, and gives the next request or the result (see
//! [`command`]). [`tmux`] has the operations on windows and panes, [`app`]
//! those on the list of processes, [`tui`] and [`wrapper`] decide what the two
//! programs do about an event, and [`laws`] states what holds of all of them.

pub mod app;
pub mod command;
pub mod config;
pub mod laws;
pub mod number;
pub mod shell;
pub mod startup;
pub mod text;
pub mod tmux;
pub mod tui;
pub mod ui;
pub mod wrapper;
