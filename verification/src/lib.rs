//! A usage-telemetry client for a locally installed editor: it reads a stored
//! session token, derives a user identity and session cookie from it, fetches
//! account and usage data over HTTP with bounded retries, and assembles the
//! results into a snapshot for a display layer.
//!
//! This crate holds the verified core: token decoding, session construction,
//! response parsing, the fetch pipeline's state machine, the retry policy, and
//! the shared state that the refresh coordinator publishes into. The thin
//! unverified shell around it performs the actual file, database and network
//! reads and hands their outcomes to the functions here.

pub mod api;
pub mod config;
pub mod coordinator;
pub mod menu;
pub mod retry;
pub mod settings;
pub mod text;
pub mod token;
pub mod tray;
