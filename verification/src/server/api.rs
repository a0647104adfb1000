//! The shapes of the legacy REST API's requests and replies, and its routes.

use vstd::prelude::*;

use crate::text::owned;

verus! {

/// The envelope every legacy API reply comes in.
#[derive(Debug)]
pub struct ApiResponse<T> {
    pub success: bool,
    pub data: Option<T>,
    pub error: Option<String>,
}

impl<T> ApiResponse<T> {
    /// A successful reply carrying `data`.
    pub fn ok(data: T) -> (r: Self)
        ensures
            r.success,
            r.data == Some(data),
            r.error.is_none(),
    {
        ApiResponse { success: true, data: Some(data), error: None }
    }

    /// A failed reply carrying a message.
    pub fn err(msg: &str) -> (r: Self)
        ensures
            !r.success,
            r.data.is_none(),
            r.error matches Some(m) && m@ == msg@,
    {
        ApiResponse { success: false, data: None, error: Some(owned(msg)) }
    }
}

/// What `/api/status` reports.
#[derive(Debug)]
pub struct ServerStatus {
    pub version: String,
    pub uptime_seconds: u64,
    pub active_streams: u32,
    pub total_viewers: u32,
}

/// A destination to add.
#[derive(Debug)]
pub struct AddPlatformRequest {
    pub name: String,
    pub url: String,
    pub key: String,
}

/// A stream to register.
#[derive(Debug)]
pub struct AddStreamRequest {
    pub name: String,
    pub input_url: String,
}

/// A change to the stream key and destinations.
#[derive(Debug)]
pub struct UpdateConfigRequest {
    pub stream_key: Option<String>,
    pub platforms: Option<Vec<AddPlatformRequest>>,
}

/// The legacy API's routes: method and path pattern.
pub open spec fn api_route_table() -> Seq<(Seq<char>, Seq<char>)> {
    seq![
        ("GET"@, "/"@),
        ("GET"@, "/dashboard"@),
        ("GET"@, "/health"@),
        ("GET"@, "/api/status"@),
        ("GET"@, "/api/streams"@),
        ("POST"@, "/api/streams"@),
        ("DELETE"@, "/api/streams/:id"@),
        ("GET"@, "/api/streams/:id/stats"@),
        ("GET"@, "/api/config"@),
        ("PUT"@, "/api/config"@),
        ("POST"@, "/api/config/reload"@),
        ("GET"@, "/api/platforms"@),
        ("POST"@, "/api/platforms"@),
        ("DELETE"@, "/api/platforms/:id"@),
        ("PUT"@, "/api/platforms/:id/toggle"@),
        ("GET"@, "/stream.m3u8"@),
        ("GET"@, "/hls/:filename"@),
        ("GET"@, "/stream.flv"@),
        ("GET"@, "/metrics"@),
    ]
}

/// The routes the legacy API serves, in the order they are listed.
pub fn api_routes() -> (r: Vec<(&'static str, &'static str)>)
    ensures
        r@.len() == api_route_table().len(),
        forall|i: int| 0 <= i < r@.len() ==> (#[trigger] r@[i].0@, r@[i].1@) == api_route_table()[i],
{
    let mut r: Vec<(&'static str, &'static str)> = Vec::new();
    r.push(("GET", "/"));
    r.push(("GET", "/dashboard"));
    r.push(("GET", "/health"));
    r.push(("GET", "/api/status"));
    r.push(("GET", "/api/streams"));
    r.push(("POST", "/api/streams"));
    r.push(("DELETE", "/api/streams/:id"));
    r.push(("GET", "/api/streams/:id/stats"));
    r.push(("GET", "/api/config"));
    r.push(("PUT", "/api/config"));
    r.push(("POST", "/api/config/reload"));
    r.push(("GET", "/api/platforms"));
    r.push(("POST", "/api/platforms"));
    r.push(("DELETE", "/api/platforms/:id"));
    r.push(("PUT", "/api/platforms/:id/toggle"));
    r.push(("GET", "/stream.m3u8"));
    r.push(("GET", "/hls/:filename"));
    r.push(("GET", "/stream.flv"));
    r.push(("GET", "/metrics"));
    proof {
        assert forall|i: int| 0 <= i < r@.len() implies (#[trigger] r@[i].0@, r@[i].1@) == api_route_table()[i] by {
        }
    }
    r
}

} // verus!
