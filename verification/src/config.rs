//! Explicit configuration for the ingestion components.
//!
//! Settings that would otherwise float around as ambient environment state
//! (base URL, API key, retry budget, worker count) are validated once, at
//! construction time; a missing required setting is fatal and surfaces as a
//! [`ConfigError`].

use vstd::prelude::*;

verus! {

/// Why a configuration could not be built.
#[derive(Clone, Copy, Debug, PartialEq, Eq, Structural)]
pub enum ConfigError {
    /// The base URL of the upstream API was empty.
    MissingBaseUrl,
    /// The API key was empty.
    MissingApiKey,
    /// A dispatcher needs at least one worker.
    NoWorkers,
}

/// Validated settings for one ingestion client.
#[derive(Debug)]
pub struct Config {
    /// Base URL of the upstream REST API.
    pub base_url: String,
    /// Credential sent with every request.
    pub api_key: String,
    /// How many times a server-side failure is retried.
    pub retries: u8,
    /// How many workers the dispatcher may run at once.
    pub workers: usize,
}

impl Config {
    /// Builds a configuration, rejecting missing required settings.
    ///
    /// The checks run in a fixed order, so exactly one error is reported for
    /// any invalid input: first the base URL, then the API key, then the
    /// worker count.
    pub fn new(base_url: String, api_key: String, retries: u8, workers: usize) -> (r: Result<
        Config,
        ConfigError,
    >)
        ensures
            base_url@.len() == 0 ==> r == Err::<Config, ConfigError>(ConfigError::MissingBaseUrl),
            base_url@.len() > 0 && api_key@.len() == 0 ==> r == Err::<Config, ConfigError>(
                ConfigError::MissingApiKey,
            ),
            base_url@.len() > 0 && api_key@.len() > 0 && workers == 0 ==> r == Err::<
                Config,
                ConfigError,
            >(ConfigError::NoWorkers),
            base_url@.len() > 0 && api_key@.len() > 0 && workers > 0 ==> (r matches Ok(c)
                && c.base_url@ == base_url@ && c.api_key@ == api_key@ && c.retries == retries
                && c.workers == workers),
    {
        if base_url.as_str().is_empty() {
            Err(ConfigError::MissingBaseUrl)
        } else if api_key.as_str().is_empty() {
            Err(ConfigError::MissingApiKey)
        } else if workers == 0 {
            Err(ConfigError::NoWorkers)
        } else {
            Ok(Config { base_url, api_key, retries, workers })
        }
    }
}

} // verus!
