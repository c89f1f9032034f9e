//! The decisions of the tool's commands, apart from their I/O.
pub mod config_commands;
pub mod config_list;
pub mod list;
pub mod install;
pub mod version;
pub mod create;
