//! Verified core logic of a handful of small command-line tools.

pub mod text;
pub mod aicommit;
pub mod lux;
pub mod reddit;
pub mod weather;
