//! The server's configuration and its defaults.

use vstd::prelude::*;
use crate::error::text;

verus! {

/// The whole configuration.
#[derive(Debug)]
pub struct Config {
    pub database: Database,
    pub cache: CacheConfig,
    pub server: Server,
    pub frontend: Frontend,
    pub log: Log,
}

/// The database to connect to.
#[derive(Debug)]
pub enum Database {
    Sqlite { url: String },
}

impl Database {
    /// The name of the database backend.
    pub fn kind(&self) -> (k: &'static str)
        ensures
            k@ == "sqlite"@,
    {
        match self {
            Database::Sqlite { .. } => "sqlite",
        }
    }
}

/// Where the server listens.
#[derive(Debug)]
pub struct Server {
    pub host: String,
    pub port: u16,
}

/// Where the built web client lives.
#[derive(Debug)]
pub struct Frontend {
    /// Path to the directory with the client's static files and index.html.
    pub path: String,
}

/// The directory of the web client unless configured: `web/dist`.
pub fn default_frontend_path() -> (p: String)
    ensures
        p@ == "web/dist"@,
{
    text("web/dist")
}

impl Default for Frontend {
    fn default() -> (f: Self)
        ensures
            f.path@ == "web/dist"@,
    {
        Frontend { path: default_frontend_path() }
    }
}

/// The cache backend.
#[derive(Debug)]
pub enum CacheConfig {
    Moka,
    DashMap,
    Redis { url: String },
}

impl Default for CacheConfig {
    fn default() -> (c: Self)
        ensures
            c is Moka,
    {
        CacheConfig::Moka
    }
}

/// Logging.
#[derive(Debug)]
pub struct Log {
    pub level: String,
    pub path: String,
}

/// The log level unless configured: `info`.
pub fn default_log_level() -> (l: String)
    ensures
        l@ == "info"@,
{
    text("info")
}

/// The log file unless configured: `logs/moosic.log`.
pub fn default_log_path() -> (p: String)
    ensures
        p@ == "logs/moosic.log"@,
{
    text("logs/moosic.log")
}

impl Default for Log {
    fn default() -> (l: Self)
        ensures
            l.level@ == "info"@,
            l.path@ == "logs/moosic.log"@,
    {
        Log { level: default_log_level(), path: default_log_path() }
    }
}

} // verus!
