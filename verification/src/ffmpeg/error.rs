//! Errors of FFmpeg resolution, download and supervision.

use vstd::prelude::*;
use vstd::string::StringExecFns;

use crate::io_error::io_error_text;
use crate::text::{join2, signed_decimal, signed_decimal_string};

verus! {

/// What can go wrong while finding, fetching or running FFmpeg.
#[derive(Debug)]
pub enum FfmpegError {
    BinaryNotFound(String),
    DownloadFailed(String),
    ChecksumMismatch { expected: String, actual: String },
    ProcessStartFailed(std::io::Error),
    ProcessFailed { exit_code: i32, stderr: String },
    InvalidArgument(String),
    IoError(std::io::Error),
}

/// The human-readable text of an error whose text does not rest on an I/O error.
pub open spec fn ffmpeg_error_text(e: FfmpegError) -> Seq<char> {
    match e {
        FfmpegError::BinaryNotFound(m) => "FFmpeg binary not found: "@ + m@,
        FfmpegError::DownloadFailed(m) => "FFmpeg download failed: "@ + m@,
        FfmpegError::ChecksumMismatch { expected, actual } => "Checksum mismatch: expected "@
            + expected@ + ", got "@ + actual@,
        FfmpegError::ProcessStartFailed(_) => "Failed to start FFmpeg: "@,
        FfmpegError::ProcessFailed { exit_code, stderr } => "FFmpeg exited with code "@
            + signed_decimal(exit_code as int) + ": "@ + stderr@,
        FfmpegError::InvalidArgument(m) => "Invalid FFmpeg argument: "@ + m@,
        FfmpegError::IoError(_) => "IO error: "@,
    }
}

impl FfmpegError {
    /// The error's message. For the two variants that wrap an I/O error the
    /// message starts with the prefix given by `ffmpeg_error_text` and goes on
    /// with that error's own text.
    pub fn message(&self) -> (r: String)
        ensures
            match *self {
                FfmpegError::ProcessStartFailed(_) | FfmpegError::IoError(_) => r@.len() >= ffmpeg_error_text(*self).len()
                    && r@.subrange(0, ffmpeg_error_text(*self).len() as int) == ffmpeg_error_text(*self),
                _ => r@ == ffmpeg_error_text(*self),
            },
    {
        match self {
            FfmpegError::BinaryNotFound(m) => join2("FFmpeg binary not found: ", m.as_str()),
            FfmpegError::DownloadFailed(m) => join2("FFmpeg download failed: ", m.as_str()),
            FfmpegError::ChecksumMismatch { expected, actual } => {
                let mut r = join2("Checksum mismatch: expected ", expected.as_str());
                r.append(", got ");
                r.append(actual.as_str());
                r
            },
            FfmpegError::ProcessStartFailed(e) => {
                let t = io_error_text(e);
                let r = join2("Failed to start FFmpeg: ", t.as_str());
                proof {
                    assert(r@.subrange(0, "Failed to start FFmpeg: "@.len() as int) =~= "Failed to start FFmpeg: "@);
                }
                r
            },
            FfmpegError::ProcessFailed { exit_code, stderr } => {
                let code = signed_decimal_string(*exit_code as i64);
                let mut r = join2("FFmpeg exited with code ", code.as_str());
                r.append(": ");
                r.append(stderr.as_str());
                r
            },
            FfmpegError::InvalidArgument(m) => join2("Invalid FFmpeg argument: ", m.as_str()),
            FfmpegError::IoError(e) => {
                let t = io_error_text(e);
                let r = join2("IO error: ", t.as_str());
                proof {
                    assert(r@.subrange(0, "IO error: "@.len() as int) =~= "IO error: "@);
                }
                r
            },
        }
    }
}

impl From<std::io::Error> for FfmpegError {
    fn from(e: std::io::Error) -> (r: Self) {
        FfmpegError::IoError(e)
    }
}

impl vstd::std_specs::convert::FromSpecImpl<std::io::Error> for FfmpegError {
    open spec fn obeys_from_spec() -> bool {
        true
    }

    open spec fn from_spec(e: std::io::Error) -> Self {
        FfmpegError::IoError(e)
    }
}

} // verus!
