//! Plain data models shared by the desktop IPC layer and the web console.

pub mod chat;
pub mod command_catalog;
pub mod terminal_launch;
