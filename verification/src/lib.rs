//! Verified core of a desktop-entry (`.desktop` file) creator.
pub mod desktop;
pub mod entry;
pub mod entry_file;
pub mod icon;
pub mod laws;
pub mod manage;
pub mod quick_flow;
pub mod quick_mode;
pub mod text;
pub mod viewport;
