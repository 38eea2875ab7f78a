//! Serves podcast-standard RSS feeds for shows hosted on a streaming
//! platform's JSON API, and resolves redirected audio enclosures through a
//! bounded proxy.
//!
//! The crate holds the logic with actual design decisions: mapping the
//! upstream program schema onto an RSS channel (with URL absolutization and
//! date normalization), and the redirect-following state machine with its
//! header hygiene. The HTTP plumbing around it lives outside the library.

pub mod dates;
pub mod feed;
pub mod fetch;
pub mod model;
pub mod redirect;
pub mod urls;
