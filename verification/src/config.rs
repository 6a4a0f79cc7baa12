//! Startup configuration: probe interval and the HTTP bind address.

use vstd::prelude::*;

verus! {

/// Probe interval in minutes when nothing overrides it.
pub const DEFAULT_INTERVAL_MINUTES: u64 = 60;

/// Port of the scrape endpoint when nothing overrides it.
pub const DEFAULT_HTTP_PORT: u16 = 9516;

/// What the process reads once at startup: how often to probe and where to
/// serve the scrape endpoint. Parsing of flags and environment variables
/// happens outside the library; this type only carries the chosen values.
pub struct Config {
    /// Minutes between two probe cycles.
    pub test_interval_minutes: u64,
    /// Host the HTTP listener binds to.
    pub http_host: String,
    /// Port the HTTP listener binds to.
    pub http_port: u16,
}

impl Default for Config {
    /// The documented defaults: every 60 minutes, all interfaces, port 9516.
    fn default() -> (r: Config)
        ensures
            r.test_interval_minutes == DEFAULT_INTERVAL_MINUTES,
            r.http_host@ == "0.0.0.0"@,
            r.http_port == DEFAULT_HTTP_PORT,
    {
        Config {
            test_interval_minutes: DEFAULT_INTERVAL_MINUTES,
            http_host: "0.0.0.0".to_owned(),
            http_port: DEFAULT_HTTP_PORT,
        }
    }
}

} // verus!
