//! Bulk downloader core for web-crawl archive mirroring.
//!
//! The library holds the verified logic of the downloader: decoding a
//! compressed manifest into an ordered list of remote locators, deriving the
//! local destination for each entry under one of three naming modes, the
//! exponential-backoff retry policy, the bounded-concurrency scheduler state,
//! and the progress bookkeeping. Network and filesystem transfer are left to
//! the embedding program, which consults this library for every decision.

pub mod config;
pub mod digits;
pub mod error;
pub mod manifest;
pub mod progress;
pub mod resolve;
pub mod retry;
pub mod scheduler;
