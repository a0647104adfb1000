//! The relay's configuration, access rules, rate limits and input handling.

pub mod config;
pub mod hardening;
pub mod rtsp;
pub mod security;
pub mod pipeline;
pub mod provider;
pub mod client;
pub mod setup;
pub mod publisher;
pub mod error;
