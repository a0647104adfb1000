//! FFmpeg command building, process supervision decisions and binary paths.

pub mod command;
pub mod error;
pub mod process;
pub mod processing;
pub mod resolver;
