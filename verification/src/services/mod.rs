//! Decision logic of the desktop services.

pub mod agent_client;
pub mod live_agent;
pub mod session_service;
pub mod terminal_launcher;
