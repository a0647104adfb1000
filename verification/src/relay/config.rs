//! The relay configuration, its builder and the destination events.

use vstd::prelude::*;
use vstd::string::StringExecFns;

use crate::text::{decimal, decimal_string, hex16, hex_fixed, join2, owned};
use crate::weburl::UrlParts;

verus! {

/// How the relayed picture is framed for a destination.
#[derive(Debug, Clone, Copy, PartialEq, Eq, Structural)]
pub enum Orientation {
    Horizontal,
    Vertical,
}

impl Default for Orientation {
    fn default() -> (o: Self)
        ensures
            o == Orientation::Horizontal,
    {
        Orientation::Horizontal
    }
}

/// A destination the relay pushes the stream to.
#[derive(Debug, Clone)]
pub struct Platform {
    pub url: UrlParts,
    pub key: String,
    pub enabled: bool,
    pub orientation: Orientation,
}

/// The relay configuration.
#[derive(Debug, Clone)]
pub struct Config {
    pub rtmp_addr: String,
    pub rtmp_port: u16,
    pub stream_key: String,
    pub platform: Option<Vec<Platform>>,
}

/// A change to the destination list, as the publisher loop receives it.
#[derive(Debug, Clone)]
pub enum PlatformEvent {
    Toggled { platform_id: String, url: String, key: String, enabled: bool },
    Added { platform_id: String, url: String, key: String },
    Removed { platform_id: String },
}

/// The value of a `PlatformEvent`.
pub enum PlatformEventView {
    Toggled { platform_id: Seq<char>, url: Seq<char>, key: Seq<char>, enabled: bool },
    Added { platform_id: Seq<char>, url: Seq<char>, key: Seq<char> },
    Removed { platform_id: Seq<char> },
}

impl View for PlatformEvent {
    type V = PlatformEventView;

    open spec fn view(&self) -> PlatformEventView {
        match *self {
            PlatformEvent::Toggled { platform_id, url, key, enabled } => PlatformEventView::Toggled {
                platform_id: platform_id@,
                url: url@,
                key: key@,
                enabled,
            },
            PlatformEvent::Added { platform_id, url, key } => PlatformEventView::Added {
                platform_id: platform_id@,
                url: url@,
                key: key@,
            },
            PlatformEvent::Removed { platform_id } => PlatformEventView::Removed { platform_id: platform_id@ },
        }
    }
}

impl DeepView for PlatformEvent {
    type V = PlatformEventView;

    open spec fn deep_view(&self) -> PlatformEventView {
        self@
    }
}

/// The destination an event is about.
pub open spec fn event_platform_id(e: PlatformEvent) -> Seq<char> {
    match e {
        PlatformEvent::Toggled { platform_id, .. } => platform_id@,
        PlatformEvent::Added { platform_id, .. } => platform_id@,
        PlatformEvent::Removed { platform_id } => platform_id@,
    }
}

impl PlatformEvent {
    /// The identifier of the destination the event is about.
    pub fn platform_id(&self) -> (r: &str)
        ensures
            r@ == event_platform_id(*self),
    {
        match self {
            PlatformEvent::Toggled { platform_id, .. } => platform_id.as_str(),
            PlatformEvent::Added { platform_id, .. } => platform_id.as_str(),
            PlatformEvent::Removed { platform_id } => platform_id.as_str(),
        }
    }
}

/// `std::hash::DefaultHasher::new()`, then `Hash::hash` of `url` and of
/// `key`, then `finish`: a 64-bit digest of the pair.
pub uninterp spec fn default_hash_pair(url: Seq<char>, key: Seq<char>) -> u64;

/// Hashes the pair with a fresh `DefaultHasher`. Every `DefaultHasher`
/// made by `new` hashes alike, so the digest is the named function of the
/// two strings.
#[verifier::external_body]
fn hash_pair(url: &str, key: &str) -> (r: u64)
    ensures
        r == default_hash_pair(url@, key@),
{
    let mut hasher = std::collections::hash_map::DefaultHasher::new();
    std::hash::Hash::hash(url, &mut hasher);
    std::hash::Hash::hash(key, &mut hasher);
    std::hash::Hasher::finish(&hasher)
}

/// The stable identifier of a destination: sixteen hex digits of the hash
/// of its URL and key.
pub open spec fn platform_id_of(url: Seq<char>, key: Seq<char>) -> Seq<char> {
    hex_fixed(default_hash_pair(url, key) as nat, 16)
}

/// The stable identifier of a destination, from its URL and key.
pub fn platform_id_from(url: &str, key: &str) -> (r: String)
    ensures
        r@ == platform_id_of(url@, key@),
        r@.len() == 16,
{
    hex16(hash_pair(url, key))
}

/// Builds a `Config` step by step.
#[derive(Debug, Clone)]
pub struct ConfigBuilder {
    pub rtmp_addr: String,
    pub rtmp_port: u16,
    pub stream_key: String,
    pub platforms: Vec<Platform>,
}

/// What is wrong with one destination, if anything.
pub open spec fn platform_problem(p: Platform) -> Option<Seq<char>> {
    if p.key@.len() == 0 {
        Some("key cannot be empty"@)
    } else if p.url.host.is_none() {
        Some("url has no host"@)
    } else if !(p.url.scheme@ == "rtmp"@ || p.url.scheme@ == "rtmps"@) {
        Some("url must use rtmp:// or rtmps://"@)
    } else {
        None
    }
}

/// The first problem among the destinations from index `i` on.
pub open spec fn platforms_problem(ps: Seq<Platform>, i: int) -> Option<Seq<char>>
    decreases ps.len() - i,
{
    if i < 0 || i >= ps.len() {
        None
    } else {
        match platform_problem(ps[i]) {
            Some(m) => Some("platform["@ + decimal(i as nat) + "] "@ + m),
            None => platforms_problem(ps, i + 1),
        }
    }
}

/// The verdict on a builder: the first rule it breaks, if any.
pub open spec fn builder_problem(b: ConfigBuilder) -> Option<Seq<char>> {
    if b.stream_key@.len() == 0 {
        Some("stream_key cannot be empty"@)
    } else if b.rtmp_port == 0 {
        Some("rtmp_port cannot be 0"@)
    } else if b.rtmp_addr@.len() == 0 {
        Some("rtmp_addr cannot be empty"@)
    } else {
        platforms_problem(b.platforms@, 0)
    }
}

/// The verdict on a configuration: the first rule it breaks, if any.
pub open spec fn config_problem(c: Config) -> Option<Seq<char>> {
    if c.stream_key@.len() == 0 {
        Some("stream_key cannot be empty"@)
    } else if c.rtmp_port == 0 {
        Some("rtmp_port cannot be 0"@)
    } else {
        None
    }
}

fn check_platform(p: &Platform) -> (r: Option<&'static str>)
    ensures
        match platform_problem(*p) {
            Some(m) => r matches Some(x) && x@ == m,
            None => r.is_none(),
        },
{
    if p.key.as_str().unicode_len() == 0 {
        Some("key cannot be empty")
    } else if p.url.host.is_none() {
        Some("url has no host")
    } else {
        let rtmp = p.url.scheme == owned("rtmp");
        let rtmps = p.url.scheme == owned("rtmps");
        if !(rtmp || rtmps) {
            Some("url must use rtmp:// or rtmps://")
        } else {
            None
        }
    }
}

impl ConfigBuilder {
    /// Listens on 0.0.0.0:1935 with no key and no destinations.
    pub fn new() -> (b: Self)
        ensures
            b.rtmp_addr@ == "0.0.0.0"@,
            b.rtmp_port == 1935,
            b.stream_key@.len() == 0,
            b.platforms@.len() == 0,
    {
        ConfigBuilder {
            rtmp_addr: owned("0.0.0.0"),
            rtmp_port: 1935,
            stream_key: String::new(),
            platforms: Vec::new(),
        }
    }

    /// Sets the listen address.
    pub fn addr(self, addr: &str) -> (b: Self)
        ensures
            b.rtmp_addr@ == addr@,
            b.rtmp_port == self.rtmp_port,
            b.stream_key == self.stream_key,
            b.platforms == self.platforms,
    {
        let mut b = self;
        b.rtmp_addr = owned(addr);
        b
    }

    /// Sets the listen port.
    pub fn port(self, port: u16) -> (b: Self)
        ensures
            b.rtmp_port == port,
            b.rtmp_addr == self.rtmp_addr,
            b.stream_key == self.stream_key,
            b.platforms == self.platforms,
    {
        let mut b = self;
        b.rtmp_port = port;
        b
    }

    /// Sets the key publishers must present.
    pub fn stream_key(self, key: &str) -> (b: Self)
        ensures
            b.stream_key@ == key@,
            b.rtmp_addr == self.rtmp_addr,
            b.rtmp_port == self.rtmp_port,
            b.platforms == self.platforms,
    {
        let mut b = self;
        b.stream_key = owned(key);
        b
    }

    /// Adds an enabled destination after the ones already there.
    pub fn add_platform(self, url: UrlParts, key: &str, orientation: Orientation) -> (b: Self)
        ensures
            b.platforms@.len() == self.platforms@.len() + 1,
            b.platforms@.drop_last() == self.platforms@,
            b.platforms@.last().url == url,
            b.platforms@.last().key@ == key@,
            b.platforms@.last().enabled,
            b.platforms@.last().orientation == orientation,
            b.rtmp_addr == self.rtmp_addr,
            b.rtmp_port == self.rtmp_port,
            b.stream_key == self.stream_key,
    {
        let mut b = self;
        b.platforms.push(Platform { url, key: owned(key), enabled: true, orientation });
        proof {
            assert(b.platforms@.drop_last() =~= self.platforms@);
        }
        b
    }

    /// The configuration; no destinations become `None`.
    pub fn build(self) -> (c: Config)
        ensures
            c.rtmp_addr == self.rtmp_addr,
            c.rtmp_port == self.rtmp_port,
            c.stream_key == self.stream_key,
            self.platforms@.len() == 0 ==> c.platform.is_none(),
            self.platforms@.len() > 0 ==> (c.platform matches Some(ps) && ps@ == self.platforms@),
    {
        let platform = if self.platforms.len() == 0 {
            None
        } else {
            Some(self.platforms)
        };
        Config {
            rtmp_addr: self.rtmp_addr,
            rtmp_port: self.rtmp_port,
            stream_key: self.stream_key,
            platform,
        }
    }

    /// Checks the key, port, address and every destination, and names the
    /// first rule broken.
    pub fn validate(&self) -> (r: Result<(), String>)
        ensures
            match builder_problem(*self) {
                None => r is Ok,
                Some(m) => r matches Err(e) && e@ == m,
            },
    {
        if self.stream_key.as_str().unicode_len() == 0 {
            return Err(owned("stream_key cannot be empty"));
        }
        if self.rtmp_port == 0 {
            return Err(owned("rtmp_port cannot be 0"));
        }
        if self.rtmp_addr.as_str().unicode_len() == 0 {
            return Err(owned("rtmp_addr cannot be empty"));
        }
        let n = self.platforms.len();
        for i in 0..n
            invariant
                n == self.platforms@.len(),
                builder_problem(*self) == platforms_problem(self.platforms@, i as int),
        {
            match check_platform(&self.platforms[i]) {
                Some(m) => {
                    let index = decimal_string(i as u64);
                    let mut e = join2("platform[", index.as_str());
                    e.append("] ");
                    e.append(m);
                    proof {
                        let ps = self.platforms@;
                        assert(platform_problem(ps[i as int]) == Some(m@));
                        assert(platforms_problem(ps, i as int) == Some("platform["@ + decimal(i as nat) + "] "@ + m@));
                    }
                    return Err(e);
                },
                None => {},
            }
        }
        Ok(())
    }
}

impl Default for ConfigBuilder {
    fn default() -> (b: Self)
        ensures
            b.rtmp_addr@ == "0.0.0.0"@,
            b.rtmp_port == 1935,
            b.stream_key@.len() == 0,
            b.platforms@.len() == 0,
    {
        ConfigBuilder::new()
    }
}

impl Config {
    /// A builder with the default address and port.
    pub fn builder() -> (b: ConfigBuilder)
        ensures
            b.rtmp_addr@ == "0.0.0.0"@,
            b.rtmp_port == 1935,
            b.stream_key@.len() == 0,
            b.platforms@.len() == 0,
    {
        ConfigBuilder::new()
    }

    /// Checks that the key is set and the port is not zero.
    pub fn validate(&self) -> (r: Result<(), String>)
        ensures
            match config_problem(*self) {
                None => r is Ok,
                Some(m) => r matches Err(e) && e@ == m,
            },
    {
        if self.stream_key.as_str().unicode_len() == 0 {
            return Err(owned("stream_key cannot be empty"));
        }
        if self.rtmp_port == 0 {
            return Err(owned("rtmp_port cannot be 0"));
        }
        Ok(())
    }
}

} // verus!
