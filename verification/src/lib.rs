//! Command relay between a chat room and a mining-pool account API.
//!
//! The library holds the decisions of the relay: how a room message becomes
//! a command, which outside work a command asks for, and the exact text of
//! every reply. The outside work itself (chat transport, pool API, key-value
//! store) is performed by the caller, one action at a time.

pub mod bot;
pub mod config;
pub mod db;
pub mod text;
pub mod util;
