//! Working-directory selection: the registered directories, their menu, and the shell glue.

pub mod config;
pub mod text;
pub mod error;
pub mod store;
pub mod laws;
pub mod messages;
pub mod init;
pub mod list;
pub mod menu;
pub mod prompt;
pub mod settings;
