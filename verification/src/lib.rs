//! Decision core of a desktop power menu.
//!
//! The menu shows a handful of power actions (shutdown, reboot, suspend,
//! logout, lock screen). Each action is carried out by running external
//! commands, and two of the actions pick their commands by which window
//! manager the session runs. This crate holds everything that can be decided
//! without touching the operating system: recognising the window manager in
//! the output of the query command, and mapping an action to the exact
//! sequence of commands to run. The surrounding binary does the querying,
//! the spawning and the drawing.

pub mod command;
pub mod dispatch;
pub mod wm;
