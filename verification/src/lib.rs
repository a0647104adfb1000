//! A verified model of the reestream relay's configuration, command
//! building, media framing and rate-limiting logic.

pub mod ffmpeg;
pub mod fresh;
pub mod io_error;
pub mod parse;
pub mod relay;
pub mod server;
pub mod srt;
pub mod text;
pub mod text_order;
pub mod weburl;
