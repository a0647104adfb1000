//! Errors of the relay's connections.

use vstd::prelude::*;

use crate::io_error::io_error_text;
use crate::text::join2;

verus! {

/// What can go wrong while relaying. A TLS failure carries the TLS
/// library's description of it.
#[derive(Debug)]
pub enum RelayError {
    Io(std::io::Error),
    Tls(String),
    Handshake(String),
    Session(String),
    Connection(String),
    Timeout(String),
    InvalidConfig(String),
    PublishRejected(String),
}

/// The prefix of each variant's message; but for `Io` the message is the
/// prefix followed by the variant's text.
pub open spec fn relay_error_prefix(e: RelayError) -> Seq<char> {
    match e {
        RelayError::Io(_) => "IO error: "@,
        RelayError::Tls(_) => "Tls on rtmps: "@,
        RelayError::Handshake(_) => "Handshake error: "@,
        RelayError::Session(_) => "Session error: "@,
        RelayError::Connection(_) => "Connection error: "@,
        RelayError::Timeout(_) => "Timeout: "@,
        RelayError::InvalidConfig(_) => "Invalid config: "@,
        RelayError::PublishRejected(_) => "Publish rejected: "@,
    }
}

impl RelayError {
    /// The error's message. For `Io` it starts with the prefix and goes on
    /// with the I/O error's own text.
    pub fn message(&self) -> (r: String)
        ensures
            match *self {
                RelayError::Io(_) => r@.len() >= relay_error_prefix(*self).len() && r@.subrange(
                    0,
                    relay_error_prefix(*self).len() as int,
                ) == relay_error_prefix(*self),
                RelayError::Tls(m) | RelayError::Handshake(m) | RelayError::Session(m) | RelayError::Connection(m)
                | RelayError::Timeout(m) | RelayError::InvalidConfig(m) | RelayError::PublishRejected(m) => r@
                    == relay_error_prefix(*self) + m@,
            },
    {
        match self {
            RelayError::Io(e) => {
                let t = io_error_text(e);
                let r = join2("IO error: ", t.as_str());
                proof {
                    assert(r@.subrange(0, "IO error: "@.len() as int) =~= "IO error: "@);
                }
                r
            },
            RelayError::Tls(m) => join2("Tls on rtmps: ", m.as_str()),
            RelayError::Handshake(m) => join2("Handshake error: ", m.as_str()),
            RelayError::Session(m) => join2("Session error: ", m.as_str()),
            RelayError::Connection(m) => join2("Connection error: ", m.as_str()),
            RelayError::Timeout(m) => join2("Timeout: ", m.as_str()),
            RelayError::InvalidConfig(m) => join2("Invalid config: ", m.as_str()),
            RelayError::PublishRejected(m) => join2("Publish rejected: ", m.as_str()),
        }
    }
}

/// The result of a relay operation.
pub type Result<T> = std::result::Result<T, RelayError>;

impl From<std::io::Error> for RelayError {
    fn from(e: std::io::Error) -> (r: Self) {
        RelayError::Io(e)
    }
}

impl vstd::std_specs::convert::FromSpecImpl<std::io::Error> for RelayError {
    open spec fn obeys_from_spec() -> bool {
        true
    }

    open spec fn from_spec(e: std::io::Error) -> Self {
        RelayError::Io(e)
    }
}

} // verus!
