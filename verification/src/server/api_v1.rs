//! Request checks of the versioned REST API: URLs it accepts, required
//! fields, enumerations it parses, and the text it writes back.

use vstd::prelude::*;
use vstd::string::{StrSliceExecFns, StringExecFns};

use crate::parse::{parse_ipv4, parse_ipv4_chars, trim_chars, trimmed};
use crate::server::restream::{EventStatus, StreamType};
use crate::text::{
    ascii_lower, ascii_upper, chars_of, ends_with, has_suffix, join2, join3, owned, replace_char, replaced,
    sanitize_filename, sanitized, str_eq, string_of, to_ascii_lowercase, to_ascii_uppercase, utf8_len,
};
use crate::weburl::{UrlParts, UrlPartsView, url_parse};

verus! {

/// An error reply: HTTP status, machine-readable code, message.
#[derive(Debug, Clone)]
pub struct ApiError {
    pub status: u16,
    pub code: String,
    pub message: String,
}

/// Whether `e` is a 400 reply with code `invalid_request` and message `m`.
pub open spec fn is_bad_request(e: ApiError, m: Seq<char>) -> bool {
    e.status == 400 && e.code@ == "invalid_request"@ && e.message@ == m
}

/// A 400 reply: the request is malformed.
pub fn bad_request(message: String) -> (e: ApiError)
    ensures
        is_bad_request(e, message@),
{
    ApiError { status: 400, code: owned("invalid_request"), message }
}

/// A 404 reply for a missing resource.
pub fn not_found(resource: &str) -> (e: ApiError)
    ensures
        e.status == 404,
        e.code@ == "not_found"@,
        e.message@ == resource@ + " not found"@,
{
    ApiError { status: 404, code: owned("not_found"), message: join2(resource, " not found") }
}

/// Whether a host names this machine or the local network: `localhost` in
/// any case, a `.localhost` or `.local` name, or an IPv4 address that is
/// loopback, private, link-local or unspecified.
pub open spec fn private_host(host: Option<Seq<char>>) -> bool {
    match host {
        None => false,
        Some(h) => ascii_lower(h) == "localhost"@ || has_suffix(h, ".localhost"@) || has_suffix(h, ".local"@) || match parse_ipv4(h) {
            Some((a, b, c, d)) => a == 127 || a == 10 || (a == 172 && 16 <= b <= 31) || (a == 192 && b == 168) || (a == 169 && b == 254) || (a == 0 && b == 0 && c == 0 && d == 0),
            None => false,
        },
    }
}

/// Whether a URL's host is on this machine or the local network.
pub fn is_private_host(parsed: &UrlParts) -> (r: bool)
    ensures
        r == private_host(parsed@.host),
{
    let host = match &parsed.host {
        Some(h) => h,
        None => {
            return false;
        },
    };
    let lower = to_ascii_lowercase(host.as_str());
    if str_eq(lower.as_str(), "localhost") || ends_with(host.as_str(), ".localhost") || ends_with(host.as_str(), ".local") {
        return true;
    }
    let chars = chars_of(host.as_str());
    match parse_ipv4_chars(&chars) {
        Some((a, b, c, d)) => a == 127 || a == 10 || (a == 172 && 16 <= b && b <= 31) || (a == 192 && b == 168) || (
        a == 169 && b == 254) || (a == 0 && b == 0 && c == 0 && d == 0),
        None => false,
    }
}

/// The check of a URL that must only be absolute with a host.
pub open spec fn url_problem(value: Seq<char>, field: Seq<char>) -> Option<Seq<char>> {
    match url_parse(value) {
        None => Some(field + " must be a URL"@),
        Some(u) => if u.scheme.len() == 0 || u.host.is_none() {
            Some(field + " must include a host"@)
        } else {
            None
        },
    }
}

/// Checks that `value` is an absolute URL with a host.
pub fn parse_url(value: &str, field: &str) -> (r: Result<(), ApiError>)
    ensures
        match url_problem(value@, field@) {
            Some(m) => r matches Err(e) && is_bad_request(e, m),
            None => r is Ok,
        },
{
    match UrlParts::parse(value) {
        None => Err(bad_request(join2(field, " must be a URL"))),
        Some(u) => {
            if u.scheme.as_str().is_empty() || u.host.is_none() {
                Err(bad_request(join2(field, " must include a host")))
            } else {
                Ok(())
            }
        },
    }
}

/// Whether a parsed URL carries a user name or password.
pub open spec fn has_credentials(u: UrlPartsView) -> bool {
    u.username.len() != 0 || u.password.is_some()
}

/// The check of a destination's RTMP URL.
pub open spec fn destination_url_problem(value: Seq<char>, field: Seq<char>) -> Option<Seq<char>> {
    if utf8_len(value) > 2048 {
        Some(field + " is too long"@)
    } else {
        match url_parse(value) {
            None => Some(field + " must be a valid RTMP URL"@),
            Some(u) => if !(u.scheme == "rtmp"@ || u.scheme == "rtmps"@) || u.host.is_none() || has_credentials(u) {
                Some(field + " must use rtmp:// or rtmps:// and include a host"@)
            } else {
                None
            },
        }
    }
}

/// Checks a destination URL: at most 2048 bytes, RTMP or RTMPS, with a
/// host and no credentials.
pub fn parse_destination_url(value: &str, field: &str) -> (r: Result<(), ApiError>)
    ensures
        match destination_url_problem(value@, field@) {
            Some(m) => r matches Err(e) && is_bad_request(e, m),
            None => r is Ok,
        },
{
    if value.len() > 2048 {
        return Err(bad_request(join2(field, " is too long")));
    }
    match UrlParts::parse(value) {
        None => Err(bad_request(join2(field, " must be a valid RTMP URL"))),
        Some(u) => {
            let scheme_ok = str_eq(u.scheme.as_str(), "rtmp") || str_eq(u.scheme.as_str(), "rtmps");
            if !scheme_ok || u.host.is_none() || !u.username.as_str().is_empty() || u.password.is_some() {
                Err(bad_request(join2(field, " must use rtmp:// or rtmps:// and include a host")))
            } else {
                Ok(())
            }
        },
    }
}

/// The check of a URL the server will call out to.
pub open spec fn http_url_problem(value: Seq<char>, field: Seq<char>) -> Option<Seq<char>> {
    match url_parse(value) {
        None => Some(field + " must be a valid HTTP(S) URL"@),
        Some(u) => if !(u.scheme == "http"@ || u.scheme == "https"@) || u.host.is_none() {
            Some(field + " must use http:// or https:// and include a host"@)
        } else if has_credentials(u) {
            Some(field + " cannot contain embedded credentials"@)
        } else if private_host(u.host) {
            Some(field + " cannot target a private address"@)
        } else {
            None
        },
    }
}

/// Checks a URL the server will call out to: HTTP or HTTPS, a public host,
/// no credentials; returns it parsed.
pub fn parse_http_url(value: &str, field: &str) -> (r: Result<UrlParts, ApiError>)
    ensures
        match http_url_problem(value@, field@) {
            Some(m) => r matches Err(e) && is_bad_request(e, m),
            None => r matches Ok(u) && url_parse(value@) == Some(u@),
        },
{
    match UrlParts::parse(value) {
        None => Err(bad_request(join2(field, " must be a valid HTTP(S) URL"))),
        Some(u) => {
            let scheme_ok = str_eq(u.scheme.as_str(), "http") || str_eq(u.scheme.as_str(), "https");
            if !scheme_ok || u.host.is_none() {
                return Err(bad_request(join2(field, " must use http:// or https:// and include a host")));
            }
            if !u.username.as_str().is_empty() || u.password.is_some() {
                return Err(bad_request(join2(field, " cannot contain embedded credentials")));
            }
            if is_private_host(&u) {
                return Err(bad_request(join2(field, " cannot target a private address")));
            }
            Ok(u)
        },
    }
}

/// The check of a media source URL; private hosts pass only when allowed.
pub open spec fn media_url_problem(value: Seq<char>, field: Seq<char>, allow_private: bool) -> Option<Seq<char>> {
    if utf8_len(value) > 2048 {
        Some(field + " is too long"@)
    } else {
        match url_parse(value) {
            None => Some(field + " must be a valid media URL"@),
            Some(u) => if !(u.scheme == "http"@ || u.scheme == "https"@ || u.scheme == "rtmp"@ || u.scheme == "rtmps"@)
                || u.host.is_none() || has_credentials(u) {
                Some(field + " must use http(s) or RTMP without embedded credentials"@)
            } else if !allow_private && private_host(u.host) {
                Some(field
                    + " cannot target a private address unless RESTREAM_ALLOW_PRIVATE_MEDIA_INPUTS is enabled"@)
            } else {
                None
            },
        }
    }
}

/// Checks a media source URL: at most 2048 bytes, HTTP(S) or RTMP(S), a
/// host, no credentials, and a public host unless private ones are allowed.
pub fn validate_media_input_url(value: &str, field: &str, allow_private: bool) -> (r: Result<(), ApiError>)
    ensures
        match media_url_problem(value@, field@, allow_private) {
            Some(m) => r matches Err(e) && is_bad_request(e, m),
            None => r is Ok,
        },
{
    if value.len() > 2048 {
        return Err(bad_request(join2(field, " is too long")));
    }
    match UrlParts::parse(value) {
        None => Err(bad_request(join2(field, " must be a valid media URL"))),
        Some(u) => {
            let s = u.scheme.as_str();
            let scheme_ok = str_eq(s, "http") || str_eq(s, "https") || str_eq(s, "rtmp") || str_eq(s, "rtmps");
            if !scheme_ok || u.host.is_none() || !u.username.as_str().is_empty() || u.password.is_some() {
                return Err(bad_request(join2(field, " must use http(s) or RTMP without embedded credentials")));
            }
            if !allow_private && is_private_host(&u) {
                return Err(
                    bad_request(
                        join2(
                            field,
                            " cannot target a private address unless RESTREAM_ALLOW_PRIVATE_MEDIA_INPUTS is enabled",
                        ),
                    ),
                );
            }
            Ok(())
        },
    }
}

/// A name that is safe to offer for download: the first 200 characters
/// with unsafe ones replaced, or `download` when nothing is left.
pub open spec fn download_name(value: Seq<char>) -> Seq<char> {
    if sanitized(value, 200).len() == 0 {
        "download"@
    } else {
        sanitized(value, 200)
    }
}

/// The file name a download is offered under.
pub fn safe_download_filename(value: &str) -> (r: String)
    ensures
        r@ == download_name(value@),
{
    let safe = sanitize_filename(value, 200);
    if safe.as_str().is_empty() {
        owned("download")
    } else {
        safe
    }
}

/// A required text field: trimmed, and present.
pub fn required(value: &str, field: &str) -> (r: Result<String, ApiError>)
    ensures
        trimmed(value@).len() == 0 ==> (r matches Err(e) && is_bad_request(e, field@ + " is required"@)),
        trimmed(value@).len() != 0 ==> (r matches Ok(s) && s@ == trimmed(value@)),
{
    let chars = chars_of(value);
    let t = trim_chars(&chars);
    if t.len() == 0 {
        Err(bad_request(join2(field, " is required")))
    } else {
        Ok(string_of(&t))
    }
}

/// The stream type a name stands for, in any case; an encoder when no name
/// is given.
pub open spec fn stream_type_named(name: Seq<char>) -> Option<StreamType> {
    let n = ascii_lower(name);
    if n == "studio"@ {
        Some(StreamType::Studio)
    } else if n == "encoder"@ || n == "rtmp"@ {
        Some(StreamType::Encoder)
    } else if n == "file"@ || n == "video"@ {
        Some(StreamType::File)
    } else if n == "playlist"@ {
        Some(StreamType::Playlist)
    } else {
        None
    }
}

/// Reads a stream type; an unknown name is a bad request that echoes it.
pub fn parse_stream_type(value: Option<&str>) -> (r: Result<StreamType, ApiError>)
    ensures
        ({
            let name = match value {
                Some(v) => v@,
                None => "encoder"@,
            };
            match stream_type_named(name) {
                Some(t) => r == Ok::<StreamType, ApiError>(t),
                None => r matches Err(e) && is_bad_request(
                    e,
                    "streamType must be studio, encoder, file, or playlist; got "@ + ascii_lower(name),
                ),
            }
        }),
{
    let name = match value {
        Some(v) => v,
        None => "encoder",
    };
    let n = to_ascii_lowercase(name);
    let s = n.as_str();
    if str_eq(s, "studio") {
        Ok(StreamType::Studio)
    } else if str_eq(s, "encoder") || str_eq(s, "rtmp") {
        Ok(StreamType::Encoder)
    } else if str_eq(s, "file") || str_eq(s, "video") {
        Ok(StreamType::File)
    } else if str_eq(s, "playlist") {
        Ok(StreamType::Playlist)
    } else {
        Err(bad_request(join2("streamType must be studio, encoder, file, or playlist; got ", s)))
    }
}

/// The event status a name stands for, in any case.
pub open spec fn event_status_named(name: Seq<char>) -> Option<EventStatus> {
    let n = ascii_lower(name);
    if n == "draft"@ {
        Some(EventStatus::Draft)
    } else if n == "scheduled"@ {
        Some(EventStatus::Scheduled)
    } else if n == "live"@ || n == "in_progress"@ || n == "in-progress"@ {
        Some(EventStatus::Live)
    } else if n == "ended"@ || n == "history"@ {
        Some(EventStatus::Ended)
    } else if n == "cancelled"@ || n == "canceled"@ {
        Some(EventStatus::Cancelled)
    } else {
        None
    }
}

/// Reads an event-status filter; unknown or missing names filter nothing.
pub fn parse_event_status(value: Option<&str>) -> (r: Option<EventStatus>)
    ensures
        r == match value {
            Some(v) => event_status_named(v@),
            None => None,
        },
{
    let v = match value {
        Some(v) => v,
        None => {
            return None;
        },
    };
    let n = to_ascii_lowercase(v);
    let s = n.as_str();
    if str_eq(s, "draft") {
        Some(EventStatus::Draft)
    } else if str_eq(s, "scheduled") {
        Some(EventStatus::Scheduled)
    } else if str_eq(s, "live") || str_eq(s, "in_progress") || str_eq(s, "in-progress") {
        Some(EventStatus::Live)
    } else if str_eq(s, "ended") || str_eq(s, "history") {
        Some(EventStatus::Ended)
    } else if str_eq(s, "cancelled") || str_eq(s, "canceled") {
        Some(EventStatus::Cancelled)
    } else {
        None
    }
}

/// The first index from `i` on holding `c`, or -1.
pub open spec fn index_from(q: Seq<char>, c: char, i: int) -> int
    decreases q.len() - i,
{
    if i < 0 || i >= q.len() {
        -1
    } else if q[i] == c {
        i
    } else {
        index_from(q, c, i + 1)
    }
}

/// An index found by `index_from` is in range and holds the character.
pub proof fn lemma_index_from(q: Seq<char>, c: char, i: int)
    requires
        0 <= i,
    ensures
        index_from(q, c, i) == -1 || (i <= index_from(q, c, i) < q.len() && q[index_from(q, c, i)] == c),
    decreases q.len() - i,
{
    if i < q.len() && q[i] != c {
        lemma_index_from(q, c, i + 1);
    }
}

/// The value of the first `access_token=` pair of a query, reading the
/// `&`-separated parts from index `start`.
pub open spec fn token_from(q: Seq<char>, start: int) -> Option<Seq<char>>
    decreases q.len() - start,
{
    if start < 0 || start > q.len() {
        None
    } else {
        let amp = index_from(q, '&', start);
        let end = if amp == -1 {
            q.len() as int
        } else {
            amp
        };
        let eq = index_from(q, '=', start);
        if eq != -1 && eq < end && q.subrange(start, eq) == "access_token"@ {
            Some(q.subrange(eq + 1, end))
        } else if amp == -1 {
            None
        } else {
            proof {
                lemma_index_from(q, '&', start);
            }
            token_from(q, amp + 1)
        }
    }
}

fn index_of_from(q: &str, c: char, start: usize) -> (r: Option<usize>)
    requires
        start <= q@.len(),
    ensures
        match r {
            Some(k) => start <= k < q@.len() && index_from(q@, c, start as int) == k,
            None => index_from(q@, c, start as int) == -1,
        },
{
    let n = q.unicode_len();
    let mut i = start;
    while i < n
        invariant
            start <= i <= n == q@.len(),
            index_from(q@, c, start as int) == index_from(q@, c, i as int),
        decreases n - i,
    {
        if q.get_char(i) == c {
            return Some(i);
        }
        i = i + 1;
    }
    None
}

/// The access token a query string carries, if any.
pub fn query_access_token(query: Option<&str>) -> (r: Option<&str>)
    ensures
        match query {
            None => r.is_none(),
            Some(q) => match r {
                Some(t) => token_from(q@, 0) == Some(t@),
                None => token_from(q@, 0).is_none(),
            },
        },
{
    let q = match query {
        Some(q) => q,
        None => {
            return None;
        },
    };
    let n = q.unicode_len();
    let mut start: usize = 0;
    loop
        invariant
            query == Some(q),
            start <= n == q@.len(),
            token_from(q@, 0) == token_from(q@, start as int),
        decreases n - start,
    {
        let amp = index_of_from(q, '&', start);
        let end = match amp {
            Some(a) => a,
            None => n,
        };
        match index_of_from(q, '=', start) {
            Some(eq) => {
                if eq < end {
                    let key = q.substring_char(start, eq);
                    if str_eq(key, "access_token") {
                        return Some(q.substring_char(eq + 1, end));
                    }
                }
            },
            None => {},
        }
        match amp {
            Some(a) => {
                start = a + 1;
            },
            None => {
                return None;
            },
        }
    }
}

/// The environment variable that holds an OAuth setting of a platform:
/// `RESTREAM_OAUTH_`, the platform in capitals with `-` made `_`, then the
/// suffix.
pub fn oauth_env_key(platform: &str, suffix: &str) -> (r: String)
    ensures
        r@ == "RESTREAM_OAUTH_"@ + ascii_upper(replaced(platform@, '-', '_')) + "_"@ + suffix@,
{
    let p = replace_char(platform, '-', '_');
    let up = to_ascii_uppercase(p.as_str());
    let mut r = join3("RESTREAM_OAUTH_", up.as_str(), "_");
    r.append(suffix);
    r
}

/// `s` with every `"` doubled.
pub open spec fn quotes_doubled(s: Seq<char>) -> Seq<char>
    decreases s.len(),
{
    if s.len() == 0 {
        seq![]
    } else if s.last() == '"' {
        quotes_doubled(s.drop_last()) + seq!['"', '"']
    } else {
        quotes_doubled(s.drop_last()).push(s.last())
    }
}

/// A CSV cell: quoted, with quotes doubled, when it holds a comma, a quote
/// or a line break.
pub open spec fn csv_cell(value: Seq<char>) -> Seq<char> {
    if value.contains(',') || value.contains('"') || value.contains('\n') {
        seq!['"'] + quotes_doubled(value) + seq!['"']
    } else {
        value
    }
}

/// Writes a CSV cell.
pub fn csv_escape(value: &str) -> (r: String)
    ensures
        r@ == csv_cell(value@),
{
    let n = value.unicode_len();
    let mut needs = false;
    let mut doubled = String::new();
    let mut i: usize = 0;
    while i < n
        invariant
            i <= n == value@.len(),
            doubled@ == quotes_doubled(value@.subrange(0, i as int)),
            needs == (value@.subrange(0, i as int).contains(',') || value@.subrange(0, i as int).contains('"')
                || value@.subrange(0, i as int).contains('\n')),
        decreases n - i,
    {
        let c = value.get_char(i);
        let ghost prefix = value@.subrange(0, i as int);
        proof {
            let t = value@.subrange(0, i + 1);
            assert(t.drop_last() =~= prefix);
            assert(t.last() == c);
            assert(t =~= prefix.push(c));
            assert forall|x: char| t.contains(x) <==> (prefix.contains(x) || x == c) by {
                if t.contains(x) {
                    let j = choose|j: int| 0 <= j < t.len() && t[j] == x;
                    if j < prefix.len() {
                        assert(prefix[j] == x);
                    }
                }
                if prefix.contains(x) {
                    let j = choose|j: int| 0 <= j < prefix.len() && prefix[j] == x;
                    assert(t[j] == x);
                }
                if x == c {
                    assert(t[i as int] == x);
                }
            }
        }
        if c == ',' || c == '"' || c == '\n' {
            needs = true;
        }
        if c == '"' {
            doubled.append("\"\"");
            proof {
                reveal_strlit("\"\"");
            }
        } else {
            crate::text::push_char(&mut doubled, c);
        }
        i = i + 1;
    }
    proof {
        assert(value@.subrange(0, n as int) =~= value@);
    }
    if needs {
        proof {
            reveal_strlit("\"");
        }
        join3("\"", doubled.as_str(), "\"")
    } else {
        owned(value)
    }
}

} // verus!
