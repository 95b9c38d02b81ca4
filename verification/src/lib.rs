//! Fetch/cache/retry substrate for pulling time-series statistics from
//! government REST APIs into a local SQLite store, plus the dispatcher that
//! runs many independent ingestion jobs to completion.
//!
//! The crate is organised around the components an embedding program wires
//! together:
//!
//! * [`config`] — explicit configuration passed to each component.
//! * [`cache`] — the durable key/value response cache ([`cache::ClientBackbone`]).
//! * [`fetch`] — the retry-with-backoff policy for HTTP fetches.
//! * [`dispatch`] — the work queue and the job dispatcher.
//! * [`weather`] — plain response shapes shared with the weather ingestion job.
//!
//! Network and clock access stay with the embedding program: the fetch module
//! decides what to do after each response, and the dispatcher's queue hands
//! each job out exactly once, whatever drives them.

pub mod cache;
pub mod config;
pub mod dispatch;
pub mod fetch;
pub mod numfmt;
pub mod weather;
