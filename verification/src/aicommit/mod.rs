//! The commit-message generator: template filling, the request to the model, and the diff text.

pub mod template;
pub mod diff;
pub mod commit;
pub mod config;
