//! The weather client's settings.

pub mod config;
