//! Errors of the SRT listener, sender and bridge.

use vstd::prelude::*;

use crate::io_error::io_error_text;
use crate::text::join2;

verus! {

/// What can go wrong on an SRT connection.
#[derive(Debug)]
pub enum SrtError {
    BindFailed(String),
    ConnectionFailed(String),
    SendFailed(String),
    ReceiveFailed(String),
    InvalidConfig(String),
    IoError(std::io::Error),
    Timeout(String),
}

/// The prefix of each variant's message; for all but `IoError` the message
/// is the prefix followed by the variant's text.
pub open spec fn srt_error_prefix(e: SrtError) -> Seq<char> {
    match e {
        SrtError::BindFailed(_) => "SRT bind failed: "@,
        SrtError::ConnectionFailed(_) => "SRT connection failed: "@,
        SrtError::SendFailed(_) => "SRT send failed: "@,
        SrtError::ReceiveFailed(_) => "SRT receive failed: "@,
        SrtError::InvalidConfig(_) => "Invalid SRT config: "@,
        SrtError::IoError(_) => "IO error: "@,
        SrtError::Timeout(_) => "SRT timeout: "@,
    }
}

impl SrtError {
    /// The error's message. For `IoError` it starts with the prefix and goes
    /// on with the I/O error's own text.
    pub fn message(&self) -> (r: String)
        ensures
            match *self {
                SrtError::BindFailed(m) | SrtError::ConnectionFailed(m) | SrtError::SendFailed(m)
                | SrtError::ReceiveFailed(m) | SrtError::InvalidConfig(m) | SrtError::Timeout(m) => r@
                    == srt_error_prefix(*self) + m@,
                SrtError::IoError(_) => r@.len() >= srt_error_prefix(*self).len() && r@.subrange(
                    0,
                    srt_error_prefix(*self).len() as int,
                ) == srt_error_prefix(*self),
            },
    {
        match self {
            SrtError::BindFailed(m) => join2("SRT bind failed: ", m.as_str()),
            SrtError::ConnectionFailed(m) => join2("SRT connection failed: ", m.as_str()),
            SrtError::SendFailed(m) => join2("SRT send failed: ", m.as_str()),
            SrtError::ReceiveFailed(m) => join2("SRT receive failed: ", m.as_str()),
            SrtError::InvalidConfig(m) => join2("Invalid SRT config: ", m.as_str()),
            SrtError::IoError(e) => {
                let t = io_error_text(e);
                let r = join2("IO error: ", t.as_str());
                proof {
                    assert(r@.subrange(0, "IO error: "@.len() as int) =~= "IO error: "@);
                }
                r
            },
            SrtError::Timeout(m) => join2("SRT timeout: ", m.as_str()),
        }
    }
}

impl From<std::io::Error> for SrtError {
    fn from(e: std::io::Error) -> (r: Self) {
        SrtError::IoError(e)
    }
}

impl vstd::std_specs::convert::FromSpecImpl<std::io::Error> for SrtError {
    open spec fn obeys_from_spec() -> bool {
        true
    }

    open spec fn from_spec(e: std::io::Error) -> Self {
        SrtError::IoError(e)
    }
}

} // verus!
