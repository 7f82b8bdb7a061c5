//! The wallpaper downloader: its settings, the listing it reads, and the files it writes.

pub mod cli;
pub mod data;
pub mod files;
