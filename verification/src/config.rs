//! Process configuration: the values the core is constructed with. Loading
//! and validating the configuration file is the bootstrap's business; the
//! core only fixes the fields and their defaults.

use vstd::prelude::*;

verus! {

/// The log level used when the configuration names none or an invalid one.
pub const DEFAULT_LOG_LEVEL: &'static str = "DEBUG";

/// The configuration consumed at startup. `bot_token` is the chat-platform
/// credential and has no default; every other field has one.
pub struct Config {
    pub bot_token: String,
    pub log_file: String,
    pub db_file: String,
    pub listen: String,
    pub log_level: String,
    pub max_body_size: u64,
}

impl Config {
    /// Default log level.
    pub fn default_log_level() -> (r: String)
        ensures
            r@ == DEFAULT_LOG_LEVEL@,
    {
        String::from_str(DEFAULT_LOG_LEVEL)
    }

    /// Default log file: the empty string, meaning no log file is written.
    pub fn default_log_file() -> (r: String)
        ensures
            r@ == Seq::<char>::empty(),
    {
        String::new()
    }

    /// Default cap on an HTTP request body, in bytes.
    pub fn default_max_body_size() -> (r: u64)
        ensures
            r == 1024 * 16,
    {
        1024 * 16
    }

    /// Default HTTP listen address.
    pub fn default_listen() -> (r: String)
        ensures
            r@ == "localhost:8080"@,
    {
        String::from_str("localhost:8080")
    }

    /// Default storage file location.
    pub fn default_db_file() -> (r: String)
        ensures
            r@ == "kimikuri.db"@,
    {
        String::from_str("kimikuri.db")
    }
}

} // verus!
