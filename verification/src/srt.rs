//! SRT ingest: listener settings, errors, and the bridge's counters.

pub mod bridge;
pub mod config;
pub mod error;
