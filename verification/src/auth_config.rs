//! Configuration: the settings file's sections and the batch settings derived
//! from them.

use std::time::Duration;

use vstd::prelude::*;

verus! {

/// The `header` section.
#[derive(Debug, Clone)]
pub struct ConfigHeader {
    msg: String,
}

impl ConfigHeader {
    pub fn new(msg: String) -> (r: ConfigHeader)
        ensures
            r.msg() == msg@,
    {
        ConfigHeader { msg }
    }

    pub closed spec fn msg(&self) -> Seq<char> {
        self.msg@
    }
}

/// The `auth` section: the API token.
#[derive(Debug, Clone)]
pub struct AuthConfig {
    pub token: String,
}

/// The `websocket` section: batching and pacing of requests.
#[derive(Debug, Clone, Copy, PartialEq, Eq, Structural)]
pub struct WebsocketConfig {
    pub concurrency_limit: usize,
    pub batch_size: usize,
    pub retry_attempts: u32,
    pub backoff_ms: u64,
    pub rate_limit_per_second: u32,
    pub cache_ttl: u32,
}

/// The `logging` section.
#[derive(Debug, Clone)]
pub struct LoggingConfig {
    pub level: String,
}

/// The whole settings file.
#[derive(Debug, Clone)]
pub struct Config {
    pub header: ConfigHeader,
    pub auth: AuthConfig,
    pub websocket: WebsocketConfig,
}

impl Config {
    /// The text that `Display` writes: the header message.
    pub fn display_text(&self) -> (r: String)
        ensures
            r@ == self.header.msg(),
    {
        self.header.msg.clone()
    }
}

/// What `Duration::from_secs` returns for a count of seconds.
pub uninterp spec fn duration_of_secs(secs: u64) -> Duration;

/// Calls `Duration::from_secs`; the contract names the result, a function of
/// the count alone. Nothing else is stated of the opaque `Duration`.
#[verifier::external_body]
fn duration_from_secs(secs: u64) -> (d: Duration)
    ensures
        d == duration_of_secs(secs),
{
    Duration::from_secs(secs)
}

/// Batching, retry and caching settings of the pollers.
#[derive(Debug)]
pub struct BatchConfig {
    pub concurrency_limit: usize,
    pub batch_size: usize,
    pub retry_attempts: u32,
    pub backoff_ms: u64,
    pub rate_limit_per_second: u32,
    pub cache_ttl: Duration,
}

impl BatchConfig {
    /// The batch settings of a loaded configuration: the `websocket` section,
    /// with the cache lifetime in seconds turned into a `Duration`.
    pub fn from_config(config: &Config) -> (r: BatchConfig)
        ensures
            r.concurrency_limit == config.websocket.concurrency_limit,
            r.batch_size == config.websocket.batch_size,
            r.retry_attempts == config.websocket.retry_attempts,
            r.backoff_ms == config.websocket.backoff_ms,
            r.rate_limit_per_second == config.websocket.rate_limit_per_second,
            r.cache_ttl == duration_of_secs(config.websocket.cache_ttl as u64),
    {
        BatchConfig {
            concurrency_limit: config.websocket.concurrency_limit,
            batch_size: config.websocket.batch_size,
            retry_attempts: config.websocket.retry_attempts,
            backoff_ms: config.websocket.backoff_ms,
            rate_limit_per_second: config.websocket.rate_limit_per_second,
            cache_ttl: duration_from_secs(config.websocket.cache_ttl as u64),
        }
    }
}

} // verus!
