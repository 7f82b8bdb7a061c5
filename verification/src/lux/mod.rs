//! The ambient-light daemon that switches the desktop between light and dark.

pub mod control;
pub mod cli;
