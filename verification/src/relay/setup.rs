//! First-run detection, the server's advertised endpoints, and the edits
//! the setup wizard and the API make to a configuration.

use vstd::prelude::*;
use vstd::string::{StringExecFns, StringSliceAdditionalSpecFns};
use vstd::utf8::{decode_utf8, encode_utf8, is_char_boundary};

use crate::fresh::{new_uuid_v4, uuid_v4_text};
use crate::relay::config::{Config, ConfigBuilder, Orientation, Platform, config_problem};
use crate::parse::{parse_unsigned, parse_unsigned_chars, trim_chars, trimmed};
use crate::server::listings::{lowercase_of, to_lowercase};
use crate::text::{chars_of, decimal, decimal_string, join2, owned, str_eq, string_of};
use crate::weburl::{UrlParts, url_parse};

verus! {

/// Whether setup still has to be done, and what the configuration holds.
#[derive(Debug, Clone, PartialEq, Eq)]
pub struct SetupStatus {
    pub first_run: bool,
    pub config_exists: bool,
    pub has_stream_key: bool,
    pub platform_count: usize,
}

/// Whether a configured key is a real one: not empty and not one of the
/// placeholders from the examples.
pub open spec fn real_stream_key(key: Seq<char>) -> bool {
    key.len() != 0 && key != "your-key"@ && key != "test-key"@
}

/// The number of destinations a configuration lists.
pub open spec fn platform_count_of(c: Config) -> nat {
    match c.platform {
        Some(ps) => ps@.len(),
        None => 0,
    }
}

/// Whether this is the first run: no configuration file exists yet.
pub fn is_first_run(config_exists: bool) -> (r: bool)
    ensures
        r == !config_exists,
{
    !config_exists
}

/// The setup status from what was found on disk: whether a configuration
/// file exists and, if it does, the configuration it holds (`None` when it
/// could not be read). Destinations are optional: a real key is enough.
pub fn get_setup_status(config_exists: bool, config: Option<&Config>) -> (s: SetupStatus)
    ensures
        !config_exists ==> s == (SetupStatus { first_run: true, config_exists: false, has_stream_key: false, platform_count: 0 }),
        config_exists && config.is_none() ==> s == (SetupStatus { first_run: true, config_exists: true, has_stream_key: false, platform_count: 0 }),
        config_exists && config.is_some() ==> {
            let c = *config.unwrap();
            &&& s.config_exists
            &&& s.has_stream_key == real_stream_key(c.stream_key@)
            &&& s.first_run == !s.has_stream_key
            &&& s.platform_count == platform_count_of(c)
        },
{
    if !config_exists {
        return SetupStatus { first_run: true, config_exists: false, has_stream_key: false, platform_count: 0 };
    }
    match config {
        Some(c) => {
            let key = c.stream_key.as_str();
            let has_stream_key = key.unicode_len() != 0 && !str_eq(key, "your-key") && !str_eq(key, "test-key");
            let platform_count = match &c.platform {
                Some(ps) => ps.len(),
                None => 0,
            };
            SetupStatus { first_run: !has_stream_key, config_exists: true, has_stream_key, platform_count }
        },
        None => SetupStatus { first_run: true, config_exists: true, has_stream_key: false, platform_count: 0 },
    }
}

/// The stream key a configuration holds.
pub fn get_stream_key(config: &Config) -> (r: String)
    ensures
        r == config.stream_key,
{
    config.stream_key.clone()
}

/// A key shown to an operator: four stars when its UTF-8 text is at most
/// four bytes, otherwise its first and last four bytes around an ellipsis.
pub open spec fn masked(key: Seq<char>) -> Seq<char> {
    let b = encode_utf8(key);
    if b.len() <= 4 {
        "****"@
    } else {
        decode_utf8(b.subrange(0, 4)) + "\u{2026}"@ + decode_utf8(b.subrange(b.len() - 4, b.len() as int))
    }
}

/// Whether a key can be masked: when it is longer than four bytes, the
/// fourth byte and the fourth byte from the end both start a character
/// (the masking cuts it there).
pub open spec fn maskable(key: Seq<char>) -> bool {
    let b = encode_utf8(key);
    b.len() > 4 ==> is_char_boundary(b, 4) && is_char_boundary(b, b.len() - 4)
}

/// Masks a key for display. (A string's byte length fits in `usize`.)
pub fn mask_key(key: &str) -> (r: String)
    requires
        maskable(key@),
        encode_utf8(key@).len() <= usize::MAX,
    ensures
        r@ == masked(key@),
{
    let n = key.len();
    if n <= 4 {
        return owned("****");
    }
    let (head, _) = key.split_at(4);
    let (_, tail) = key.split_at(n - 4);
    proof {
        let b = encode_utf8(key@);
        vstd::utf8::encode_utf8_decode_utf8(head@);
        vstd::utf8::encode_utf8_decode_utf8(tail@);
        assert(encode_utf8(head@) =~= b.subrange(0, 4));
        assert(encode_utf8(tail@) =~= b.subrange(b.len() - 4, b.len() as int));
    }
    let mut r = owned(head);
    r.append("\u{2026}");
    r.append(tail);
    r
}

/// The endpoints a client can reach the server on.
#[derive(Debug, Clone)]
pub struct ServerInfo {
    pub rtmp_url: String,
    pub rtmps_url: Option<String>,
    pub srt_url: Option<String>,
    pub http_url: String,
    pub hls_url: String,
    pub flv_url: String,
    pub dashboard_url: String,
    pub api_url: String,
    pub metrics_url: String,
    pub stream_key_masked: String,
    pub rtmp_port: u16,
    pub http_port: u16,
    pub srt_port: u16,
    pub hostname: String,
}

/// `scheme://host:port`.
pub open spec fn endpoint(scheme: Seq<char>, host: Seq<char>, port: nat) -> Seq<char> {
    scheme + "://"@ + host + ":"@ + decimal(port)
}

fn endpoint_string(scheme: &str, host: &str, port: u16) -> (r: String)
    ensures
        r@ == endpoint(scheme@, host@, port as nat),
{
    let mut r = join2(scheme, "://");
    r.append(host);
    r.append(":");
    let p = decimal_string(port as u64);
    r.append(p.as_str());
    r
}

/// The endpoints of a server named `hostname` running `config`, with HTTP
/// on 8080 and SRT on 3000.
pub fn server_info_for(hostname: &str, config: &Config) -> (info: ServerInfo)
    requires
        maskable(config.stream_key@),
        encode_utf8(config.stream_key@).len() <= usize::MAX,
    ensures
        info.rtmp_url@ == endpoint("rtmp"@, hostname@, config.rtmp_port as nat),
        info.rtmps_url matches Some(u) && u@ == endpoint("rtmps"@, hostname@, config.rtmp_port as nat),
        info.srt_url matches Some(u) && u@ == endpoint("srt"@, hostname@, 3000),
        info.http_url@ == endpoint("http"@, hostname@, 8080),
        info.hls_url@ == endpoint("http"@, hostname@, 8080) + "/stream.m3u8"@,
        info.flv_url@ == endpoint("http"@, hostname@, 8080) + "/stream.flv"@,
        info.dashboard_url@ == endpoint("http"@, hostname@, 8080),
        info.api_url@ == endpoint("http"@, hostname@, 8080) + "/api/status"@,
        info.metrics_url@ == endpoint("http"@, hostname@, 8080) + "/metrics"@,
        info.stream_key_masked@ == masked(config.stream_key@),
        info.rtmp_port == config.rtmp_port,
        info.http_port == 8080,
        info.srt_port == 3000,
        info.hostname@ == hostname@,
{
    let http_url = endpoint_string("http", hostname, 8080);
    ServerInfo {
        rtmp_url: endpoint_string("rtmp", hostname, config.rtmp_port),
        rtmps_url: Some(endpoint_string("rtmps", hostname, config.rtmp_port)),
        srt_url: Some(endpoint_string("srt", hostname, 3000)),
        hls_url: join2(http_url.as_str(), "/stream.m3u8"),
        flv_url: join2(http_url.as_str(), "/stream.flv"),
        dashboard_url: http_url.clone(),
        api_url: join2(http_url.as_str(), "/api/status"),
        metrics_url: join2(http_url.as_str(), "/metrics"),
        http_url,
        stream_key_masked: mask_key(config.stream_key.as_str()),
        rtmp_port: config.rtmp_port,
        http_port: 8080,
        srt_port: 3000,
        hostname: owned(hostname),
    }
}

/// An orientation named in a request: `vertical`, or horizontal otherwise.
pub open spec fn orientation_named(name: Option<Seq<char>>) -> Orientation {
    if name == Some("vertical"@) {
        Orientation::Vertical
    } else {
        Orientation::Horizontal
    }
}

/// Reads an orientation name; anything but `vertical` is horizontal.
pub fn parse_orientation(name: Option<&str>) -> (o: Orientation)
    ensures
        o == orientation_named(match name {
            Some(n) => Some(n@),
            None => None,
        }),
{
    match name {
        Some(n) => if str_eq(n, "vertical") {
            Orientation::Vertical
        } else {
            Orientation::Horizontal
        },
        None => Orientation::Horizontal,
    }
}

/// A destination URL that is not an absolute URL.
#[derive(Debug, Clone, PartialEq, Eq)]
pub struct InvalidUrl {
    pub input: String,
}

impl Config {
    /// Replaces the stream key with a fresh random UUID (version 4, in its
    /// hyphenated lower-case text), which it returns.
    pub fn reset_stream_key(&mut self) -> (key: String)
        ensures
            uuid_v4_text(key@),
            final(self).stream_key == key,
            final(self).rtmp_addr == old(self).rtmp_addr,
            final(self).rtmp_port == old(self).rtmp_port,
            final(self).platform == old(self).platform,
    {
        let key = new_uuid_v4();
        self.stream_key = key.clone();
        key
    }

    /// Replaces the fields that are given.
    pub fn update_fields(&mut self, rtmp_addr: Option<&str>, rtmp_port: Option<u16>, stream_key: Option<&str>)
        ensures
            final(self).platform == old(self).platform,
            match rtmp_addr {
                Some(a) => final(self).rtmp_addr@ == a@,
                None => final(self).rtmp_addr == old(self).rtmp_addr,
            },
            match rtmp_port {
                Some(p) => final(self).rtmp_port == p,
                None => final(self).rtmp_port == old(self).rtmp_port,
            },
            match stream_key {
                Some(k) => final(self).stream_key@ == k@,
                None => final(self).stream_key == old(self).stream_key,
            },
    {
        if let Some(a) = rtmp_addr {
            self.rtmp_addr = owned(a);
        }
        if let Some(p) = rtmp_port {
            self.rtmp_port = p;
        }
        if let Some(k) = stream_key {
            self.stream_key = owned(k);
        }
    }

    /// Appends an enabled destination; the orientation is vertical when named
    /// so and horizontal otherwise.
    pub fn add_platform_entry(&mut self, url: &str, key: &str, orientation: &str) -> (r: Result<(), InvalidUrl>)
        ensures
            url_parse(url@).is_none() ==> r is Err && *final(self) == *old(self),
            url_parse(url@).is_some() ==> {
                let before = match old(self).platform {
                    Some(ps) => ps@,
                    None => seq![],
                };
                &&& r is Ok
                &&& final(self).rtmp_addr == old(self).rtmp_addr
                &&& final(self).rtmp_port == old(self).rtmp_port
                &&& final(self).stream_key == old(self).stream_key
                &&& final(self).platform matches Some(ps) && ps@.len() == before.len() + 1
                    && ps@.drop_last() == before && Some(ps@.last().url@) == url_parse(url@)
                    && ps@.last().key@ == key@ && ps@.last().enabled
                    && ps@.last().orientation == orientation_named(Some(orientation@))
            },
    {
        let parsed = match UrlParts::parse(url) {
            Some(u) => u,
            None => return Err(InvalidUrl { input: owned(url) }),
        };
        let orient = parse_orientation(Some(orientation));
        let entry = Platform { url: parsed, key: owned(key), enabled: true, orientation: orient };
        match &mut self.platform {
            Some(ps) => {
                ps.push(entry);
                proof {
                    assert(ps@.drop_last() =~= old(self).platform.unwrap()@);
                }
            },
            None => {
                let mut ps: Vec<Platform> = Vec::new();
                ps.push(entry);
                proof {
                    assert(ps@.drop_last() =~= Seq::<Platform>::empty());
                }
                self.platform = Some(ps);
            },
        }
        Ok(())
    }

    /// Edits the destination at `index`. Returns `Ok(false)` when there is no
    /// such destination, and an error (with nothing changed) when a new URL
    /// does not parse.
    pub fn update_platform_at(
        &mut self,
        index: usize,
        url: Option<&str>,
        key: Option<&str>,
        orientation: Option<&str>,
    ) -> (r: Result<bool, InvalidUrl>)
        ensures
            final(self).rtmp_addr == old(self).rtmp_addr,
            final(self).rtmp_port == old(self).rtmp_port,
            final(self).stream_key == old(self).stream_key,
            match old(self).platform {
                None => r == Ok::<bool, InvalidUrl>(false) && *final(self) == *old(self),
                Some(ps) => if index >= ps@.len() {
                    r == Ok::<bool, InvalidUrl>(false) && *final(self) == *old(self)
                } else if url.is_some() && url_parse(url.unwrap()@).is_none() {
                    r is Err && *final(self) == *old(self)
                } else {
                    let before = ps@[index as int];
                    &&& r == Ok::<bool, InvalidUrl>(true)
                    &&& final(self).platform matches Some(qs) && qs@.len() == ps@.len()
                        && (forall|j: int| 0 <= j < ps@.len() && j != index ==> qs@[j] == ps@[j])
                        && qs@[index as int].enabled == before.enabled
                        && (match url {
                            Some(u) => Some(qs@[index as int].url@) == url_parse(u@),
                            None => qs@[index as int].url == before.url,
                        })
                        && (match key {
                            Some(k) => qs@[index as int].key@ == k@,
                            None => qs@[index as int].key == before.key,
                        })
                        && (match orientation {
                            Some(o) => qs@[index as int].orientation == orientation_named(Some(o@)),
                            None => qs@[index as int].orientation == before.orientation,
                        })
                },
            },
    {
        let len = match &self.platform {
            Some(ps) => ps.len(),
            None => return Ok(false),
        };
        if index >= len {
            return Ok(false);
        }
        let before = match &self.platform {
            Some(ps) => ps[index].duplicate(),
            None => return Ok(false),
        };
        let new_url = match url {
            Some(u) => match UrlParts::parse(u) {
                Some(p) => p,
                None => return Err(InvalidUrl { input: owned(u) }),
            },
            None => before.url.duplicate(),
        };
        let new_key = match key {
            Some(k) => owned(k),
            None => before.key.clone(),
        };
        let new_orientation = match orientation {
            Some(o) => parse_orientation(Some(o)),
            None => before.orientation,
        };
        let updated = Platform { url: new_url, key: new_key, enabled: before.enabled, orientation: new_orientation };
        match &mut self.platform {
            Some(ps) => {
                ps.set(index, updated);
            },
            None => {},
        }
        Ok(true)
    }

    /// Drops the destination at `index`; `false` when there is none.
    pub fn remove_platform_at(&mut self, index: usize) -> (removed: bool)
        ensures
            final(self).rtmp_addr == old(self).rtmp_addr,
            final(self).rtmp_port == old(self).rtmp_port,
            final(self).stream_key == old(self).stream_key,
            match old(self).platform {
                None => !removed && *final(self) == *old(self),
                Some(ps) => if index >= ps@.len() {
                    !removed && *final(self) == *old(self)
                } else {
                    removed && (final(self).platform matches Some(qs) && qs@ == ps@.remove(index as int))
                },
            },
    {
        match &mut self.platform {
            Some(ps) => {
                if index >= ps.len() {
                    false
                } else {
                    ps.remove(index);
                    true
                }
            },
            None => false,
        }
    }
}

/// One destination in a setup request.
#[derive(Debug, Clone)]
pub struct SetupPlatform {
    pub name: String,
    pub url: String,
    pub key: String,
    pub orientation: Option<String>,
}

/// What the setup wizard submits.
#[derive(Debug, Clone)]
pub struct SetupRequest {
    pub rtmp_addr: Option<String>,
    pub rtmp_port: Option<u16>,
    pub stream_key: String,
    pub platforms: Vec<SetupPlatform>,
}

/// Why a setup request was turned down.
#[derive(Debug, Clone, PartialEq, Eq)]
pub enum SetupError {
    /// A destination URL is not an absolute URL.
    InvalidUrl(String),
    /// The resulting configuration does not validate; the message says why.
    Invalid(String),
}

/// Whether every destination URL of the request parses.
pub open spec fn setup_urls_parse(ps: Seq<SetupPlatform>) -> bool {
    forall|i: int| 0 <= i < ps.len() ==> url_parse((#[trigger] ps[i]).url@).is_some()
}

/// Whether `p` is the destination setup entry `s` asks for: its URL
/// parsed, its key, enabled, oriented as it names.
pub open spec fn setup_destination(p: Platform, s: SetupPlatform) -> bool {
    &&& Some(p.url@) == url_parse(s.url@)
    &&& p.key@ == s.key@
    &&& p.enabled
    &&& p.orientation == orientation_named(
        match s.orientation {
            Some(o) => Some(o@),
            None => None,
        },
    )
}

/// The configuration a setup request asks for: address (default 0.0.0.0),
/// port (default 1935), key, and one enabled destination per entry.
pub fn config_from_setup(req: &SetupRequest) -> (r: Result<Config, SetupError>)
    ensures
        !setup_urls_parse(req.platforms@) ==> r matches Err(SetupError::InvalidUrl(_)),
        setup_urls_parse(req.platforms@) ==> match r {
            Ok(c) => {
                &&& config_problem(c).is_none()
                &&& c.rtmp_addr@ == (match req.rtmp_addr {
                    Some(a) => a@,
                    None => "0.0.0.0"@,
                })
                &&& c.rtmp_port == (match req.rtmp_port {
                    Some(p) => p,
                    None => 1935u16,
                })
                &&& c.stream_key@ == req.stream_key@
                &&& platform_count_of(c) == req.platforms@.len()
                &&& req.platforms@.len() == 0 ==> c.platform.is_none()
                &&& req.platforms@.len() > 0 ==> (c.platform matches Some(ps) && ps@.len() == req.platforms@.len()
                    && forall|i: int|
                    0 <= i < ps@.len() ==> setup_destination(#[trigger] ps@[i], req.platforms@[i]))
            },
            Err(SetupError::Invalid(m)) => {
                let port = match req.rtmp_port {
                    Some(p) => p,
                    None => 1935u16,
                };
                &&& m@ == (if req.stream_key@.len() == 0 {
                    "stream_key cannot be empty"@
                } else {
                    "rtmp_port cannot be 0"@
                })
                &&& (req.stream_key@.len() == 0 || port == 0)
            },
            Err(SetupError::InvalidUrl(_)) => false,
        },
{
    let addr = match &req.rtmp_addr {
        Some(a) => a.clone(),
        None => owned("0.0.0.0"),
    };
    let port = match req.rtmp_port {
        Some(p) => p,
        None => 1935,
    };
    let mut builder = ConfigBuilder::new().addr(addr.as_str()).port(port).stream_key(req.stream_key.as_str());
    let n = req.platforms.len();
    for i in 0..n
        invariant
            n == req.platforms@.len(),
            builder.rtmp_addr@ == addr@,
            builder.rtmp_port == port,
            builder.stream_key@ == req.stream_key@,
            builder.platforms@.len() == i,
            forall|j: int| 0 <= j < i ==> url_parse((#[trigger] req.platforms@[j]).url@).is_some(),
            forall|j: int| 0 <= j < i ==> setup_destination(#[trigger] builder.platforms@[j], req.platforms@[j]),
    {
        let p = &req.platforms[i];
        let url = match UrlParts::parse(p.url.as_str()) {
            Some(u) => u,
            None => return Err(SetupError::InvalidUrl(p.url.clone())),
        };
        let orientation = match &p.orientation {
            Some(o) => parse_orientation(Some(o.as_str())),
            None => parse_orientation(None),
        };
        let ghost prev = builder.platforms@;
        builder = builder.add_platform(url, p.key.as_str(), orientation);
        proof {
            assert forall|j: int| 0 <= j < i + 1 implies setup_destination(
                #[trigger] builder.platforms@[j],
                req.platforms@[j],
            ) by {
                if j < i {
                    assert(builder.platforms@[j] == builder.platforms@.drop_last()[j]);
                    assert(builder.platforms@[j] == prev[j]);
                }
            }
        }
    }
    let config = builder.build();
    match config.validate() {
        Ok(()) => Ok(config),
        Err(m) => Err(SetupError::Invalid(m)),
    }
}

/// An answer to a wizard prompt: the line trimmed, or the default when
/// nothing is left.
pub open spec fn answer_of(line: Seq<char>, default: Seq<char>) -> Seq<char> {
    if trimmed(line).len() == 0 {
        default
    } else {
        trimmed(line)
    }
}

/// Reads the answer to a wizard prompt from the line typed.
pub fn wizard_answer(line: &str, default: &str) -> (r: String)
    ensures
        r@ == answer_of(line@, default@),
{
    let t = trim_chars(&chars_of(line));
    if t.len() == 0 {
        owned(default)
    } else {
        string_of(&t)
    }
}

/// The RTMP port the wizard takes from an answer: the number when it fits
/// in `u16`, else 1935.
pub fn wizard_port(answer: &str) -> (p: u16)
    ensures
        p == match parse_unsigned(answer@, u16::MAX as int) {
            Some(v) => v as u16,
            None => 1935u16,
        },
{
    match parse_unsigned_chars(&chars_of(answer), 65535) {
        Some(v) => v as u16,
        None => 1935,
    }
}

/// The orientation the wizard takes from an answer: `vertical`, `v` or
/// `9:16`, in any case, are vertical; anything else is horizontal.
pub fn wizard_orientation(answer: &str) -> (o: Orientation)
    ensures
        o == if lowercase_of(answer@) == "vertical"@ || lowercase_of(answer@) == "v"@ || lowercase_of(answer@)
            == "9:16"@ {
            Orientation::Vertical
        } else {
            Orientation::Horizontal
        },
{
    let lower = to_lowercase(answer);
    if str_eq(lower.as_str(), "vertical") || str_eq(lower.as_str(), "v") || str_eq(lower.as_str(), "9:16") {
        Orientation::Vertical
    } else {
        Orientation::Horizontal
    }
}

/// Adds a destination the wizard was given, when its URL parses; the flag
/// tells whether it was added (an invalid URL is skipped).
pub fn wizard_add_platform(b: ConfigBuilder, url: &str, key: &str, o: Orientation) -> (r: (ConfigBuilder, bool))
    ensures
        r.1 == url_parse(url@).is_some(),
        r.1 ==> {
            &&& r.0.platforms@.len() == b.platforms@.len() + 1
            &&& r.0.platforms@.drop_last() == b.platforms@
            &&& Some(r.0.platforms@.last().url@) == url_parse(url@)
            &&& r.0.platforms@.last().key@ == key@
            &&& r.0.platforms@.last().enabled
            &&& r.0.platforms@.last().orientation == o
            &&& r.0.rtmp_addr == b.rtmp_addr
            &&& r.0.rtmp_port == b.rtmp_port
            &&& r.0.stream_key == b.stream_key
        },
        !r.1 ==> r.0 == b,
{
    match UrlParts::parse(url) {
        Some(u) => (b.add_platform(u, key, o), true),
        None => (b, false),
    }
}

/// Whether `c` is the configuration builder `b` builds.
pub open spec fn built_from(c: Config, b: ConfigBuilder) -> bool {
    &&& c.rtmp_addr == b.rtmp_addr
    &&& c.rtmp_port == b.rtmp_port
    &&& c.stream_key == b.stream_key
    &&& b.platforms@.len() == 0 ==> c.platform.is_none()
    &&& b.platforms@.len() > 0 ==> (c.platform matches Some(ps) && ps@ == b.platforms@)
}

/// The configuration the wizard ends with, checked before it is saved; a
/// failed check reads `Config validation failed: ` and the reason.
pub fn wizard_finish(b: ConfigBuilder) -> (r: Result<Config, String>)
    ensures
        match r {
            Ok(c) => built_from(c, b) && config_problem(c).is_none(),
            Err(e) => exists|c: Config|
                built_from(c, b) && (config_problem(c) matches Some(m) && e@ == "Config validation failed: "@ + m),
        },
{
    let ghost b0 = b;
    let config = b.build();
    match config.validate() {
        Ok(()) => Ok(config),
        Err(m) => {
            proof {
                assert(built_from(config, b0));
            }
            Err(join2("Config validation failed: ", m.as_str()))
        },
    }
}

} // verus!
