//! A verified core for a web content-discovery scanner.
//!
//! Given a base URL and a wordlist, the scanner probes the target for each
//! candidate path and reports which paths exist, judged by HTTP status codes.
//! This crate holds the engine: candidate resolution, the retry policy of the
//! request executor, response classification against an allow/deny status
//! policy, and the bounded-concurrency scan scheduler. Network I/O itself is
//! left to the surrounding application.

pub mod classify;
pub mod config;
pub mod executor;
pub mod headers;
pub mod resolve;
pub mod scheduler;
pub mod target;
pub mod text;
pub mod wordlist;
