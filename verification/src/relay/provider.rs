//! Stream keys obtained from a platform through OAuth2.

use vstd::prelude::*;

use crate::text::join2;

verus! {

/// Why a stream key could not be obtained.
#[derive(Debug, Clone, PartialEq, Eq)]
pub enum StreamKeyError {
    OAuthError(String),
    ApiError(String),
    ParseError(String),
    NetworkError(String),
}

/// The text of a stream key error.
pub open spec fn stream_key_error_text(e: StreamKeyError) -> Seq<char> {
    match e {
        StreamKeyError::OAuthError(m) => "OAuth Error: "@ + m@,
        StreamKeyError::ApiError(m) => "API Error: "@ + m@,
        StreamKeyError::ParseError(m) => "Parse Error: "@ + m@,
        StreamKeyError::NetworkError(m) => "Network Error: "@ + m@,
    }
}

impl StreamKeyError {
    /// The error's text: its kind, a colon, and the detail.
    pub fn message(&self) -> (r: String)
        ensures
            r@ == stream_key_error_text(*self),
    {
        match self {
            StreamKeyError::OAuthError(m) => join2("OAuth Error: ", m.as_str()),
            StreamKeyError::ApiError(m) => join2("API Error: ", m.as_str()),
            StreamKeyError::ParseError(m) => join2("Parse Error: ", m.as_str()),
            StreamKeyError::NetworkError(m) => join2("Network Error: ", m.as_str()),
        }
    }
}

/// A platform's stream key and the RTMP URL it goes with.
#[derive(Debug, Clone)]
pub struct StreamKey {
    pub key: String,
    pub rtmp_url: String,
}

/// The OAuth2 client settings for a platform.
#[derive(Debug, Clone)]
pub struct OAuth2Config {
    pub client_id: String,
    pub client_secret: String,
    pub redirect_uri: String,
    pub access_token: Option<String>,
}

} // verus!
