//! The shape of the configuration: what the file holds, and what the relay
//! runs with.

use vstd::prelude::*;

verus! {

/// How much the relay logs.
#[derive(Clone, Copy, Debug)]
pub enum LogLevel {
    Error,
    Warn,
    Info,
    Debug,
    Trace,
}

/// The chat side of the configuration that the relay runs with.
#[derive(Clone)]
pub struct Matrix {
    /// Where the relay's own records are kept.
    pub db_path: String,
    /// Where the chat client keeps its state.
    pub state_path: String,
    pub homeserver_url: String,
    pub proxy: Option<String>,
    pub user_id: String,
    pub password: String,
}

/// The chat side of the configuration file.
#[derive(Clone)]
pub struct ConfigFileMatrix {
    pub homeserver_url: String,
    pub proxy: Option<String>,
    pub user_id: String,
    pub password: String,
}

/// The configuration that the relay runs with.
#[derive(Clone)]
pub struct Config {
    /// The directory under which the relay keeps everything.
    pub main_path: String,
    pub log_level: LogLevel,
    /// The proxy through which the pool is reached, if any.
    pub proxy: Option<String>,
    pub matrix: Matrix,
}

/// The configuration file.
#[derive(Clone)]
pub struct ConfigFile {
    pub main_path: Option<String>,
    pub log_level: Option<String>,
    pub proxy: Option<String>,
    pub matrix: ConfigFileMatrix,
}

} // verus!
