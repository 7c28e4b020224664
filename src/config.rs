//! Service settings.
use vstd::prelude::*;

use crate::text::str_eq;

verus! {

#[derive(Clone, Debug)]
pub struct DatabaseConfig {
    /// Where the catalog's database file lives.
    pub path: String,
}

#[derive(Clone, Debug)]
pub struct Settings {
    pub server: ServerConfig,
    pub database: DatabaseConfig,
    pub storage: StorageConfig,
    pub logging: LoggingConfig,
}

#[derive(Clone, Debug)]
pub struct ServerConfig {
    pub port: u16,
    pub host: String,
    /// The shared secret that requests must present; none means that every
    /// request is let through.
    pub api_key: Option<String>,
}

#[derive(Clone, Debug)]
pub struct StorageConfig {
    pub base_path: String,
    pub max_minidump_size: u64,
    pub max_pdb_size: u64,
}

#[derive(Clone, Debug)]
pub struct LoggingConfig {
    pub level: String,
    pub file: String,
}

/// The path that is served without a key.
pub open spec fn is_open_path(path: Seq<char>) -> bool {
    path == "/health"@
}

/// A request for `path` that presents `presented` may proceed: the path is
/// open, no key is configured, or the key presented is the configured one.
pub open spec fn admits(expected: Option<String>, path: Seq<char>, presented: Option<Seq<char>>) -> bool {
    is_open_path(path) || expected is None || (presented matches Some(k) && k == expected->0@)
}

impl ServerConfig {
    /// Whether a request for `path`, carrying the key `presented` (if any),
    /// may proceed.
    pub fn authorizes(&self, path: &str, presented: Option<&str>) -> (r: bool)
        ensures
            r == admits(
                self.api_key,
                path@,
                match presented {
                    Some(k) => Some(k@),
                    None => None,
                },
            ),
    {
        if str_eq(path, "/health") {
            return true;
        }
        match &self.api_key {
            None => true,
            Some(expected) => match presented {
                Some(k) => str_eq(k, expected.as_str()),
                None => false,
            },
        }
    }
}

} // verus!
