//! How a broadcast reaches the server: the bearer token of a WebSocket
//! handshake, the SRT and RTMPS entry points the settings switch on, and
//! whether an event's file source can be played.

use vstd::prelude::*;

use crate::parse::{find_char_from, parse_unsigned, parse_unsigned_chars, slice_chars, trim_chars, trimmed};
use crate::server::api_v1::{query_access_token, token_from};
use crate::server::auth::{is_switched_on, switched_on};
use crate::server::oauth::{pairs_view, with_query_pairs, with_query_pairs_of};
use crate::server::recording::{RecordingFormat, RecordingStatus};
use crate::server::records::{find_keyed, lookup};
use crate::server::restream::{Event, StorageFile, StreamType};
use crate::server::uploads::fields;
use crate::text::{chars_of, decimal, decimal_string, has_prefix, join2, owned, starts_with, string_of};

verus! {

/// The WebSocket sub-protocol that carries an access token.
pub open spec fn bearer_prefix() -> Seq<char> {
    "reestream-bearer-"@
}

/// The token of the first sub-protocol, trimmed, that starts with the
/// bearer prefix.
pub open spec fn bearer_token(protocols: Seq<Seq<char>>) -> Option<Seq<char>>
    decreases protocols.len(),
{
    if protocols.len() == 0 {
        None
    } else if has_prefix(trimmed(protocols[0]), bearer_prefix()) {
        Some(trimmed(protocols[0]).skip(bearer_prefix().len() as int))
    } else {
        bearer_token(protocols.skip(1))
    }
}

/// The access token a `Sec-WebSocket-Protocol` header carries, if any: the
/// comma-separated protocols are read in order.
pub fn websocket_access_token(protocols: Option<&str>) -> (r: Option<String>)
    ensures
        match protocols {
            None => r is None,
            Some(p) => match r {
                Some(t) => bearer_token(fields(p@, ',')) == Some(t@),
                None => bearer_token(fields(p@, ',')) is None,
            },
        },
{
    let p = match protocols {
        Some(p) => p,
        None => {
            return None;
        },
    };
    let mut rest = chars_of(p);
    loop
        invariant
            protocols == Some(p),
            bearer_token(fields(p@, ',')) == bearer_token(fields(rest@, ',')),
        decreases rest@.len(),
    {
        let ghost before = rest@;
        let ghost fs = fields(before, ',');
        let found = find_char_from(&rest, ',', 0);
        let (head, tail) = match found {
            Some(k) => {
                let head = slice_chars(&rest, 0, k);
                let tail = slice_chars(&rest, k + 1, rest.len());
                proof {
                    assert(fs == seq![head@] + fields(tail@, ','));
                    assert(fs.skip(1) =~= fields(tail@, ','));
                }
                (head, Some(tail))
            },
            None => {
                let head = slice_chars(&rest, 0, rest.len());
                proof {
                    assert(head@ =~= before);
                    assert(fs == seq![before]);
                    assert(fs.skip(1) =~= Seq::<Seq<char>>::empty());
                }
                (head, None)
            },
        };
        let t = trim_chars(&head);
        let ts = string_of(&t);
        proof {
            assert(fs[0] == head@);
        }
        if starts_with(ts.as_str(), "reestream-bearer-") {
            proof {
                reveal_strlit("reestream-bearer-");
            }
            let token = slice_chars(&t, 17, t.len());
            proof {
                assert(token@ =~= t@.skip(bearer_prefix().len() as int));
            }
            return Some(string_of(&token));
        }
        proof {
            assert(bearer_token(fs) == bearer_token(fs.skip(1)));
        }
        match tail {
            Some(rest_after) => {
                rest = rest_after;
            },
            None => {
                return None;
            },
        }
    }
}

/// Whether SRT ingest is on: switched on, with a passphrase that is not
/// blank.
pub open spec fn srt_on(enabled: Option<Seq<char>>, passphrase: Option<Seq<char>>) -> bool {
    &&& switched_on(enabled)
    &&& passphrase matches Some(p) && trimmed(p).len() > 0
}

/// The view of an optional setting.
pub open spec fn setting_view(s: Option<&str>) -> Option<Seq<char>> {
    match s {
        Some(v) => Some(v@),
        None => None,
    }
}

/// Whether SRT ingest is on, from its switch and passphrase settings.
pub fn srt_enabled(enabled: Option<&str>, passphrase: Option<&str>) -> (r: bool)
    ensures
        r == srt_on(setting_view(enabled), setting_view(passphrase)),
{
    if !is_switched_on(enabled) {
        return false;
    }
    match passphrase {
        Some(p) => trim_chars(&chars_of(p)).len() > 0,
        None => false,
    }
}

/// The SRT port a setting gives: a number that fits in `u16`, else 3000.
pub open spec fn srt_port_of(setting: Option<Seq<char>>) -> u16 {
    match setting {
        Some(s) => match parse_unsigned(s, u16::MAX as int) {
            Some(n) => n as u16,
            None => 3000,
        },
        None => 3000,
    }
}

/// The SRT port from its setting.
pub fn srt_port(setting: Option<&str>) -> (r: u16)
    ensures
        r == srt_port_of(setting_view(setting)),
{
    match setting {
        Some(s) => match parse_unsigned_chars(&chars_of(s), 65535) {
            Some(n) => n as u16,
            None => 3000,
        },
        None => 3000,
    }
}

/// The base of the SRT ingest URL on a port.
pub open spec fn srt_base(port: u16) -> Seq<char> {
    "srt://localhost:"@ + decimal(port as nat)
}

/// The SRT ingest URL for a stream, when SRT is on: the local SRT address
/// with the stream id as the `streamid` query pair. The URL is built by
/// the `url` crate; where it could not be, there is none.
pub fn srt_ingest_url(enabled: Option<&str>, passphrase: Option<&str>, port: Option<&str>, stream_id: &str) -> (r:
    Option<String>)
    ensures
        !srt_on(setting_view(enabled), setting_view(passphrase)) ==> r is None,
        srt_on(setting_view(enabled), setting_view(passphrase)) ==> match r {
            Some(u) => with_query_pairs_of(
                srt_base(srt_port_of(setting_view(port))),
                seq![("streamid"@, stream_id@)],
            ) == Some(u@),
            None => with_query_pairs_of(
                srt_base(srt_port_of(setting_view(port))),
                seq![("streamid"@, stream_id@)],
            ) is None,
        },
{
    if !srt_enabled(enabled, passphrase) {
        return None;
    }
    let p = srt_port(port);
    let digits = decimal_string(p as u64);
    let base = join2("srt://localhost:", digits.as_str());
    let mut pairs: Vec<(String, String)> = Vec::new();
    pairs.push((owned("streamid"), owned(stream_id)));
    proof {
        assert(pairs_view(pairs@) =~= seq![("streamid"@, stream_id@)]);
    }
    with_query_pairs(base.as_str(), &pairs)
}

/// The backup RTMPS URL a setting gives, when it is an `rtmps://` URL.
pub fn configured_rtmps_url(setting: Option<String>) -> (r: Option<String>)
    ensures
        r == match setting {
            Some(v) => if has_prefix(v@, "rtmps://"@) {
                Some(v)
            } else {
                None
            },
            None => None,
        },
{
    match setting {
        Some(v) => if starts_with(v.as_str(), "rtmps://") {
            Some(v)
        } else {
            None
        },
        None => None,
    }
}

/// The SRT entry point of an event.
#[derive(Debug, Clone)]
pub struct SrtKeys {
    pub url: Option<String>,
    pub passphrase: Option<String>,
}

/// The stream an event is published under: its own key, or its id when it
/// has none.
pub open spec fn event_stream_id(event: Event) -> Seq<char> {
    if event.ingest.stream_key@.len() == 0 {
        event.id@
    } else {
        event.ingest.stream_key@
    }
}

/// The SRT entry point of an event: its URL and, when SRT is on, the
/// passphrase.
pub fn event_srt_keys(event: &Event, enabled: Option<&str>, passphrase: Option<&str>, port: Option<&str>) -> (r: SrtKeys)
    ensures
        !srt_on(setting_view(enabled), setting_view(passphrase)) ==> r.url is None && r.passphrase is None,
        srt_on(setting_view(enabled), setting_view(passphrase)) ==> {
            &&& match r.url {
                Some(u) => with_query_pairs_of(
                    srt_base(srt_port_of(setting_view(port))),
                    seq![("streamid"@, event_stream_id(*event))],
                ) == Some(u@),
                None => with_query_pairs_of(
                    srt_base(srt_port_of(setting_view(port))),
                    seq![("streamid"@, event_stream_id(*event))],
                ) is None,
            }
            &&& r.passphrase matches Some(p) && Some(p@) == setting_view(passphrase)
        },
{
    let stream_id = if event.ingest.stream_key.unicode_len() == 0 {
        event.id.as_str()
    } else {
        event.ingest.stream_key.as_str()
    };
    let url = srt_ingest_url(enabled, passphrase, port, stream_id);
    let secret = if srt_enabled(enabled, passphrase) {
        match passphrase {
            Some(p) => Some(owned(p)),
            None => None,
        }
    } else {
        None
    };
    SrtKeys { url, passphrase: secret }
}

/// Why an event cannot be played from its file, if it cannot: only file
/// and playlist events play a file, which must be a stored file inside the
/// storage root (`source_managed` tells whether it is).
pub open spec fn playback_problem(event: Event, files: Seq<StorageFile>, source_managed: bool) -> Option<Seq<char>> {
    if !(event.stream_type is File || event.stream_type is Playlist) {
        None
    } else {
        match event.source_file_id {
            None => Some("file event has no source file"@),
            Some(id) => match lookup(files, id@) {
                None => Some("source storage file not found"@),
                Some(_) => if source_managed {
                    None
                } else {
                    Some("source file is outside the local storage root"@)
                },
            },
        }
    }
}

/// Checks that an event can be played from its file.
pub fn check_event_playback(event: &Event, files: &Vec<StorageFile>, source_managed: bool) -> (r: Result<(), String>)
    ensures
        match playback_problem(*event, files@, source_managed) {
            Some(m) => r matches Err(e) && e@ == m,
            None => r is Ok,
        },
{
    match event.stream_type {
        StreamType::File | StreamType::Playlist => {},
        _ => {
            return Ok(());
        },
    }
    let id = match &event.source_file_id {
        Some(id) => id,
        None => {
            return Err(owned("file event has no source file"));
        },
    };
    if find_keyed(files, id.as_str()).is_none() {
        return Err(owned("source storage file not found"));
    }
    if !source_managed {
        return Err(owned("source file is outside the local storage root"));
    }
    Ok(())
}

/// The state a recording's file is in: `recording` while it records,
/// `failed` after an error or when its file is missing, else `ready`.
pub open spec fn recording_file_state(status: RecordingStatus, file_exists: bool) -> Seq<char> {
    match status {
        RecordingStatus::Recording => "recording"@,
        RecordingStatus::Error => "failed"@,
        RecordingStatus::Stopped => if file_exists {
            "ready"@
        } else {
            "failed"@
        },
    }
}

/// The state a recording's file is in.
pub fn recording_file_status(status: &RecordingStatus, file_exists: bool) -> (r: String)
    ensures
        r@ == recording_file_state(*status, file_exists),
{
    match status {
        RecordingStatus::Recording => owned("recording"),
        RecordingStatus::Error => owned("failed"),
        RecordingStatus::Stopped => if file_exists {
            owned("ready")
        } else {
            owned("failed")
        },
    }
}

/// The media type of a recording's file.
pub open spec fn recording_mime_of(f: RecordingFormat) -> Seq<char> {
    match f {
        RecordingFormat::Mp4 => "video/mp4"@,
        RecordingFormat::Flv => "video/x-flv"@,
        RecordingFormat::Mkv => "video/x-matroska"@,
        RecordingFormat::Ts => "video/mp2t"@,
    }
}

/// The media type of a recording's file.
pub fn recording_mime(f: &RecordingFormat) -> (r: &'static str)
    ensures
        r@ == recording_mime_of(*f),
{
    match f {
        RecordingFormat::Mp4 => "video/mp4",
        RecordingFormat::Flv => "video/x-flv",
        RecordingFormat::Mkv => "video/x-matroska",
        RecordingFormat::Ts => "video/mp2t",
    }
}

/// The HTTP port a setting gives: a number that fits in `u16`, else 8080.
pub open spec fn http_port_of(setting: Option<Seq<char>>) -> u16 {
    match setting {
        Some(s) => match parse_unsigned(s, u16::MAX as int) {
            Some(n) => n as u16,
            None => 8080,
        },
        None => 8080,
    }
}

/// What an event recording reads: the configured input, or the local FLV
/// stream on the HTTP port.
pub fn recording_input_url(configured: Option<String>, http_port: Option<&str>) -> (r: String)
    ensures
        r@ == match configured {
            Some(c) => c@,
            None => "http://127.0.0.1:"@ + decimal(http_port_of(setting_view(http_port)) as nat) + "/stream.flv"@,
        },
{
    match configured {
        Some(c) => c,
        None => {
            let port: u16 = match http_port {
                Some(s) => match parse_unsigned_chars(&chars_of(s), 65535) {
                    Some(n) => n as u16,
                    None => 8080,
                },
                None => 8080,
            };
            let digits = decimal_string(port as u64);
            let mut url = join2("http://127.0.0.1:", digits.as_str());
            url.append("/stream.flv");
            url
        },
    }
}

/// The stream name an event's recording is made under.
pub fn event_recording_stream(event_id: &str) -> (r: String)
    ensures
        r@ == "event-"@ + event_id@,
{
    join2("event-", event_id)
}

/// The token of an `Authorization` header of the form `Bearer <token>`.
pub open spec fn header_bearer(authorization: Option<Seq<char>>) -> Option<Seq<char>> {
    match authorization {
        Some(v) => if has_prefix(v, "Bearer "@) {
            Some(v.skip("Bearer "@.len() as int))
        } else {
            None
        },
        None => None,
    }
}

/// The access token a request carries: from its `Authorization` header,
/// else from its WebSocket sub-protocols, else from its query; empty when
/// it carries none.
pub open spec fn request_token(
    authorization: Option<Seq<char>>,
    protocols: Option<Seq<char>>,
    query: Option<Seq<char>>,
) -> Seq<char> {
    match header_bearer(authorization) {
        Some(t) => t,
        None => match protocols {
            Some(p) if bearer_token(fields(p, ',')) is Some => bearer_token(fields(p, ',')).unwrap(),
            _ => match query {
                Some(q) if token_from(q, 0) is Some => token_from(q, 0).unwrap(),
                _ => Seq::empty(),
            },
        },
    }
}

/// The access token a request carries, to be checked against the
/// sessions when login is required.
pub fn request_access_token(authorization: Option<&str>, protocols: Option<&str>, query: Option<&str>) -> (r: String)
    ensures
        r@ == request_token(setting_view(authorization), setting_view(protocols), setting_view(query)),
{
    if let Some(h) = authorization {
        if starts_with(h, "Bearer ") {
            proof {
                reveal_strlit("Bearer ");
            }
            let c = chars_of(h);
            let t = slice_chars(&c, 7, c.len());
            proof {
                assert(t@ =~= h@.skip("Bearer "@.len() as int));
            }
            return string_of(&t);
        }
    }
    if let Some(t) = websocket_access_token(protocols) {
        return t;
    }
    match query_access_token(query) {
        Some(t) => owned(t),
        None => String::new(),
    }
}

} // verus!
