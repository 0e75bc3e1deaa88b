//! A lightweight HTTP gateway core: it classifies inbound routes, builds the
//! outbound request for a single upstream financial-data API (injecting a
//! bearer credential on authenticated routes), relays upstream responses
//! verbatim, and synthesizes JSON error and health envelopes on failure.
//! A companion dashboard layer maps human-readable timeframe tokens to the
//! upstream's enum names and computes weighted confluence scores.
//!
//! All I/O (the HTTP server, the outbound client, environment reading) lives
//! outside this crate; the functions here are pure decisions and codecs over
//! plain values, each with a verified contract.

pub mod text;
pub mod json;
pub mod config;
pub mod routes;
pub mod proxy;
pub mod health;
pub mod timeframes;
pub mod analysis;
pub mod apiconfig;
pub mod types;
pub mod errors;
