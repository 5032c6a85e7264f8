//! From the configuration file to the configuration that the relay runs
//! with. Paths are texts here, written with `/`.

use vstd::prelude::*;
use crate::util::text_of;

pub mod model;

pub use model::{Config, ConfigFile, ConfigFileMatrix, LogLevel, Matrix};

verus! {

/// The name of the relay's directory under the user's home.
pub const DIR_NAME: &'static str = ".braiinspool_bot";

/// The name of the configuration file in the relay's directory.
pub const CONFIG_FILE_NAME: &'static str = "config.toml";

/// Where the relay's own records are kept, under its main directory.
pub const DB_DIR: &'static str = "matrix/db";

/// Where the chat client keeps its state, under the relay's main directory.
pub const STATE_DIR: &'static str = "matrix/state";

/// The path `name` taken from the directory `base`: `name` alone where it
/// starts at the root; else `base`, a `/` unless `base` is empty or ends in
/// one, and `name`.
pub open spec fn child(base: Seq<char>, name: Seq<char>) -> Seq<char> {
    if name.len() > 0 && name[0] == '/' {
        name
    } else if base.len() == 0 || base.last() == '/' {
        base + name
    } else {
        base + "/"@ + name
    }
}

/// The relay's directory under the home directory `home`.
pub open spec fn default_dir_of(home: Seq<char>) -> Seq<char> {
    child(home, DIR_NAME@)
}

/// The configuration file that is read where none is named.
pub open spec fn default_config_file_of(home: Seq<char>) -> Seq<char> {
    child(default_dir_of(home), CONFIG_FILE_NAME@)
}

/// A letter of the ASCII alphabet in lower case; any other character as it
/// is.
pub open spec fn ascii_lower(c: char) -> char {
    if 'A' <= c && c <= 'Z' {
        ((c as u8) + 32) as char
    } else {
        c
    }
}

/// Whether two texts are the same but for the case of their ASCII letters.
pub open spec fn same_but_case(a: Seq<char>, b: Seq<char>) -> bool {
    a.len() == b.len() && forall|i: int|
        0 <= i < a.len() ==> ascii_lower(#[trigger] a[i]) == ascii_lower(b[i])
}

/// The level that a name stands for, whatever the case of its letters.
pub open spec fn level_named(name: Seq<char>) -> Option<LogLevel> {
    if same_but_case(name, "error"@) {
        Some(LogLevel::Error)
    } else if same_but_case(name, "warn"@) {
        Some(LogLevel::Warn)
    } else if same_but_case(name, "info"@) {
        Some(LogLevel::Info)
    } else if same_but_case(name, "debug"@) {
        Some(LogLevel::Debug)
    } else if same_but_case(name, "trace"@) {
        Some(LogLevel::Trace)
    } else {
        None
    }
}

/// The level that the relay logs at: the one that the file names, or `Info`
/// where it names none or none that there is.
pub open spec fn level_of(named: Option<Seq<char>>) -> LogLevel {
    match named {
        Some(name) => match level_named(name) {
            Some(level) => level,
            None => LogLevel::Info,
        },
        None => LogLevel::Info,
    }
}

/// The main directory: the one that the file names, or the default.
pub open spec fn main_path_of(named: Option<Seq<char>>, default_dir: Seq<char>) -> Seq<char> {
    match named {
        Some(path) => path,
        None => default_dir,
    }
}

/// Calls `from_str` of `log::Level`. Trusted: it gives the level whose name
/// (`error`, `warn`, `info`, `debug`, `trace`) equals the text but for the
/// case of ASCII letters, and fails on every other text.
#[verifier::external_body]
fn parse_level(name: &str) -> (level: Option<LogLevel>)
    ensures
        level == level_named(name@),
{
    match name.parse::<log::Level>() {
        Ok(log::Level::Error) => Some(LogLevel::Error),
        Ok(log::Level::Warn) => Some(LogLevel::Warn),
        Ok(log::Level::Info) => Some(LogLevel::Info),
        Ok(log::Level::Debug) => Some(LogLevel::Debug),
        Ok(log::Level::Trace) => Some(LogLevel::Trace),
        Err(_) => None,
    }
}

/// Takes the path `name` from the directory `base`.
pub fn child_path(base: &str, name: &str) -> (path: String)
    ensures
        path@ == child(base@, name@),
{
    let name_len = name.unicode_len();
    if name_len > 0 && name.get_char(0) == '/' {
        return String::from_str(name);
    }
    let base_len = base.unicode_len();
    let mut path = String::from_str(base);
    if base_len > 0 && base.get_char(base_len - 1) != '/' {
        path.append("/");
    }
    path.append(name);
    path
}

/// The relay's directory under the home directory `home`.
pub fn default_dir(home: &str) -> (path: String)
    ensures
        path@ == default_dir_of(home@),
{
    child_path(home, DIR_NAME)
}

/// The configuration file that is read where none is named.
pub fn default_config_file(home: &str) -> (path: String)
    ensures
        path@ == default_config_file_of(home@),
{
    let dir = default_dir(home);
    child_path(dir.as_str(), CONFIG_FILE_NAME)
}

impl Config {
    /// Makes the configuration that the relay runs with out of the file's
    /// content. `default_dir` is the main directory where the file names
    /// none.
    pub fn from_file(file: ConfigFile, default_dir: &str) -> (config: Config)
        ensures
            config.main_path@ == main_path_of(text_of(file.main_path), default_dir@),
            config.log_level == level_of(text_of(file.log_level)),
            text_of(config.proxy) == text_of(file.proxy),
            config.matrix.db_path@ == child(config.main_path@, DB_DIR@),
            config.matrix.state_path@ == child(config.main_path@, STATE_DIR@),
            config.matrix.homeserver_url@ == file.matrix.homeserver_url@,
            text_of(config.matrix.proxy) == text_of(file.matrix.proxy),
            config.matrix.user_id@ == file.matrix.user_id@,
            config.matrix.password@ == file.matrix.password@,
    {
        let ConfigFile { main_path, log_level, proxy, matrix } = file;
        let main_path = match main_path {
            Some(path) => path,
            None => String::from_str(default_dir),
        };
        let log_level = match log_level {
            Some(name) => match parse_level(name.as_str()) {
                Some(level) => level,
                None => LogLevel::Info,
            },
            None => LogLevel::Info,
        };
        let db_path = child_path(main_path.as_str(), DB_DIR);
        let state_path = child_path(main_path.as_str(), STATE_DIR);
        Config {
            main_path,
            log_level,
            proxy,
            matrix: Matrix {
                db_path,
                state_path,
                homeserver_url: matrix.homeserver_url,
                proxy: matrix.proxy,
                user_id: matrix.user_id,
                password: matrix.password,
            },
        }
    }
}

} // verus!
