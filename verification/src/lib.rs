//! Verified core of a desktop SSH client that also serves its sessions to
//! an AI assistant over MCP: screening of destructive commands, the
//! one-time confirmation tokens, the saved server profiles, listings,
//! audit log rows and the terminal relay.

pub mod audit;
pub mod dangerous;
pub mod error;
pub mod flow;
pub mod ids;
pub mod listing;
pub mod mcp_params;
pub mod operations;
pub mod pending;
pub mod profiles;
pub mod settings;
pub mod pty;
pub mod text;
pub mod times;
