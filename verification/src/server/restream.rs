//! The product model behind the versioned REST API: destinations offered,
//! channels, drafts, events and what is recorded about them.

use vstd::prelude::*;
use vstd::string::StringExecFns;

use vstd::array::ArrayAdditionalExecFns;

use crate::parse::{trim_chars, trimmed};
use crate::text::{chars_of, decimal, decimal_string, has_prefix, join3, owned, starts_with, str_eq};

verus! {

/// How an event's picture is produced.
#[derive(Debug, Clone, Copy, PartialEq, Eq, Structural)]
pub enum StreamType {
    Studio,
    Encoder,
    File,
    Playlist,
}

impl Default for StreamType {
    fn default() -> (t: Self)
        ensures
            t == StreamType::Encoder,
    {
        StreamType::Encoder
    }
}

/// Where an event is in its life.
#[derive(Debug, Clone, Copy, PartialEq, Eq, Structural)]
pub enum EventStatus {
    Draft,
    Scheduled,
    Live,
    Ended,
    Cancelled,
}

impl Default for EventStatus {
    fn default() -> (s: Self)
        ensures
            s == EventStatus::Draft,
    {
        EventStatus::Draft
    }
}

/// Logos of a destination.
#[derive(Debug, Clone)]
pub struct PlatformImages {
    pub png: String,
    pub svg: String,
}

/// What a destination supports.
#[derive(Debug, Clone, Copy)]
pub struct PlatformCapabilities {
    pub stream: bool,
    pub oauth: bool,
    pub chat_read: bool,
    pub chat_write: bool,
    pub chat_relay: bool,
    pub scheduling: bool,
    pub analytics: bool,
}

/// A destination the product offers.
#[derive(Debug, Clone)]
pub struct PlatformCatalogEntry {
    pub id: String,
    pub name: String,
    pub slug: String,
    pub url: String,
    pub image: PlatformImages,
    pub capabilities: PlatformCapabilities,
}

/// A catalog entry with the given identity and chat support: logos under
/// `/assets/platforms/`, OAuth unless the slug names a custom destination,
/// scheduling unless it is custom RTMP or SRT, and chat and analytics as
/// chat goes.
pub open spec fn catalog_entry_is(
    e: PlatformCatalogEntry,
    id: Seq<char>,
    name: Seq<char>,
    slug: Seq<char>,
    url: Seq<char>,
    chat: bool,
) -> bool {
    &&& e.id@ == id
    &&& e.name@ == name
    &&& e.slug@ == slug
    &&& e.url@ == url
    &&& e.image.png@ == "/assets/platforms/"@ + slug + ".png"@
    &&& e.image.svg@ == "/assets/platforms/"@ + slug + ".svg"@
    &&& e.capabilities.stream
    &&& e.capabilities.oauth == !has_prefix(slug, "custom-"@)
    &&& e.capabilities.chat_read == chat
    &&& e.capabilities.chat_write == chat
    &&& e.capabilities.chat_relay == chat
    &&& e.capabilities.scheduling == !(slug == "custom-rtmp"@ || slug == "custom-srt"@)
    &&& e.capabilities.analytics == chat
}

fn catalog_entry(id: &str, name: &str, slug: &str, url: &str, chat: bool) -> (e: PlatformCatalogEntry)
    ensures
        catalog_entry_is(e, id@, name@, slug@, url@, chat),
{
    let scheduling = !(str_eq(slug, "custom-rtmp") || str_eq(slug, "custom-srt"));
    PlatformCatalogEntry {
        id: owned(id),
        name: owned(name),
        slug: owned(slug),
        url: owned(url),
        image: PlatformImages {
            png: join3("/assets/platforms/", slug, ".png"),
            svg: join3("/assets/platforms/", slug, ".svg"),
        },
        capabilities: PlatformCapabilities {
            stream: true,
            oauth: !starts_with(slug, "custom-"),
            chat_read: chat,
            chat_write: chat,
            chat_relay: chat,
            scheduling,
            analytics: chat,
        },
    }
}

/// The offered destinations: identifier, name, slug, home page and chat
/// support, in catalog order.
pub open spec fn catalog_table() -> Seq<(Seq<char>, Seq<char>, Seq<char>, Seq<char>, bool)> {
    seq![
        ("twitch"@, "Twitch"@, "twitch"@, "https://twitch.tv"@, true),
        ("youtube"@, "YouTube"@, "youtube"@, "https://youtube.com"@, true),
        ("facebook"@, "Facebook"@, "facebook"@, "https://facebook.com"@, true),
        ("linkedin"@, "LinkedIn"@, "linkedin"@, "https://linkedin.com"@, true),
        ("instagram"@, "Instagram"@, "instagram"@, "https://instagram.com"@, false),
        ("tiktok"@, "TikTok"@, "tiktok"@, "https://tiktok.com"@, false),
        ("x"@, "X"@, "x"@, "https://x.com"@, true),
        ("kick"@, "Kick"@, "kick"@, "https://kick.com"@, true),
        ("rumble"@, "Rumble"@, "rumble"@, "https://rumble.com"@, true),
        ("discord"@, "Discord"@, "discord"@, "https://discord.com"@, true),
        ("custom-rtmp"@, "Custom RTMP"@, "custom-rtmp"@, ""@, false),
    ]
}

/// The destinations the product offers.
pub fn platform_catalog() -> (r: Vec<PlatformCatalogEntry>)
    ensures
        r@.len() == catalog_table().len(),
        forall|i: int|
            0 <= i < r@.len() ==> {
                let t = #[trigger] catalog_table()[i];
                catalog_entry_is(r@[i], t.0, t.1, t.2, t.3, t.4)
            },
{
    let mut r: Vec<PlatformCatalogEntry> = Vec::new();
    r.push(catalog_entry("twitch", "Twitch", "twitch", "https://twitch.tv", true));
    r.push(catalog_entry("youtube", "YouTube", "youtube", "https://youtube.com", true));
    r.push(catalog_entry("facebook", "Facebook", "facebook", "https://facebook.com", true));
    r.push(catalog_entry("linkedin", "LinkedIn", "linkedin", "https://linkedin.com", true));
    r.push(catalog_entry("instagram", "Instagram", "instagram", "https://instagram.com", false));
    r.push(catalog_entry("tiktok", "TikTok", "tiktok", "https://tiktok.com", false));
    r.push(catalog_entry("x", "X", "x", "https://x.com", true));
    r.push(catalog_entry("kick", "Kick", "kick", "https://kick.com", true));
    r.push(catalog_entry("rumble", "Rumble", "rumble", "https://rumble.com", true));
    r.push(catalog_entry("discord", "Discord", "discord", "https://discord.com", true));
    r.push(catalog_entry("custom-rtmp", "Custom RTMP", "custom-rtmp", "", false));
    r
}

/// Where and how to publish into an event.
#[derive(Debug, Clone)]
pub struct IngestCredentials {
    pub server_url: String,
    pub stream_key: String,
    pub backup_server_url: Option<String>,
    pub protocol: String,
}

/// A destination account that events go out to.
#[derive(Debug, Clone)]
pub struct Channel {
    pub id: String,
    pub platform_id: String,
    pub display_name: String,
    pub channel_url: Option<String>,
    pub stream_url: String,
    pub stream_key: String,
    pub rtmp_username: Option<String>,
    pub rtmp_password: Option<String>,
    pub enabled: bool,
    pub status: String,
    pub created_at: u64,
    pub updated_at: u64,
    pub last_error: Option<String>,
}

/// A saved event setup that can be scheduled later.
#[derive(Debug, Clone)]
pub struct Draft {
    pub id: String,
    pub name: String,
    pub stream_type: StreamType,
    pub title: String,
    pub description: String,
    pub destination_ids: Vec<String>,
    pub brand_id: Option<String>,
    pub studio_session_id: Option<String>,
    pub created_at: u64,
    pub updated_at: u64,
}

/// A broadcast: planned, live or over.
#[derive(Debug, Clone)]
pub struct Event {
    pub id: String,
    pub draft_id: Option<String>,
    pub stream_type: StreamType,
    pub title: String,
    pub description: String,
    pub status: EventStatus,
    pub scheduled_for: Option<String>,
    pub created_at: u64,
    pub updated_at: u64,
    pub started_at: Option<u64>,
    pub ended_at: Option<u64>,
    pub duration_seconds: Option<u64>,
    pub destination_ids: Vec<String>,
    pub source_file_id: Option<String>,
    pub loops_count: u8,
    pub guest_link: Option<String>,
    pub ingest: IngestCredentials,
    pub recording_file_id: Option<String>,
    pub current_viewers: u32,
    pub peak_viewers: u32,
    pub chat_message_count: u64,
}

/// A stored media file.
#[derive(Debug, Clone)]
pub struct StorageFile {
    pub id: String,
    pub name: String,
    pub mime_type: String,
    pub size_bytes: u64,
    pub duration_seconds: Option<u64>,
    pub status: String,
    pub path: String,
    pub labels: Vec<String>,
    pub created_at: u64,
    pub updated_at: u64,
}

/// A transcript of an event's recording.
#[derive(Debug, Clone)]
pub struct Transcription {
    pub id: String,
    pub event_id: String,
    pub file_id: String,
    pub file_name: String,
    pub status: String,
    pub language: Option<String>,
    pub download_url: Option<String>,
    pub created_at: u64,
    pub updated_at: u64,
}

/// A chat message of an event.
#[derive(Debug, Clone)]
pub struct ChatMessage {
    pub id: String,
    pub event_id: String,
    pub destination_id: Option<String>,
    pub author_name: String,
    pub author_id: Option<String>,
    pub message: String,
    pub kind: String,
    pub reply_to: Option<String>,
    pub created_at: u64,
    pub deleted: bool,
}

/// The audience of an event at one moment.
#[derive(Debug, Clone)]
pub struct ViewerSample {
    pub event_id: String,
    pub timestamp: u64,
    pub viewers: u32,
    pub bitrate_kbps: u64,
}

/// Audience figures of one destination.
#[derive(Debug, Clone)]
pub struct DestinationAnalytics {
    pub destination_id: String,
    pub views: u64,
    pub peak_viewers: u32,
    pub status: String,
}

/// Audience figures of one event.
#[derive(Debug, Clone)]
pub struct AnalyticsReport {
    pub event_id: String,
    pub title: String,
    pub status: EventStatus,
    pub views: u64,
    pub peak_concurrent_viewers: u32,
    pub average_concurrent_viewers: u32,
    pub chat_messages: u64,
    pub duration_seconds: u64,
    pub destinations: Vec<DestinationAnalytics>,
    pub timeseries: Vec<ViewerSample>,
}

/// Audience figures over the events that ended in a period.
#[derive(Debug, Clone)]
pub struct AnalyticsOverview {
    pub from: Option<String>,
    pub to: Option<String>,
    pub total_views: u64,
    pub total_streams: u64,
    pub total_chat_messages: u64,
    pub average_duration_seconds: u64,
    pub streams: Vec<AnalyticsReport>,
}

/// A clip cut from an event's recording.
#[derive(Debug, Clone)]
pub struct ClipProject {
    pub id: String,
    pub event_id: String,
    pub source_file_id: Option<String>,
    pub name: String,
    pub start_seconds: u64,
    pub end_seconds: u64,
    pub status: String,
    pub output_file_id: Option<String>,
    pub created_at: u64,
    pub updated_at: u64,
}

/// A guest of a studio session.
#[derive(Debug, Clone)]
pub struct Guest {
    pub id: String,
    pub name: String,
    pub role: String,
    pub join_url: String,
    pub status: String,
    pub created_at: u64,
}

/// A studio layout with its sources.
#[derive(Debug, Clone)]
pub struct Scene {
    pub id: String,
    pub name: String,
    pub layout: String,
    pub source_ids: Vec<String>,
    pub active: bool,
}

/// Colours, font and logo of an event's overlays.
#[derive(Debug, Clone)]
pub struct Brand {
    pub id: String,
    pub name: String,
    pub logo_url: Option<String>,
    pub primary_color: String,
    pub secondary_color: String,
    pub font_family: String,
    pub created_at: u64,
    pub updated_at: u64,
}

/// A caption track of the studio; its style is kept as JSON text.
#[derive(Debug, Clone)]
pub struct Caption {
    pub id: String,
    pub name: String,
    pub language: String,
    pub style: String,
    pub enabled: bool,
    pub created_at: u64,
    pub updated_at: u64,
}

/// A QR code overlay.
#[derive(Debug, Clone)]
pub struct QrCode {
    pub id: String,
    pub name: String,
    pub data: String,
    pub foreground: String,
    pub background: String,
    pub enabled: bool,
    pub position: String,
    pub created_at: u64,
    pub updated_at: u64,
}

/// A scrolling text overlay.
#[derive(Debug, Clone)]
pub struct Ticker {
    pub id: String,
    pub text: String,
    pub speed: u32,
    pub color: String,
    pub background_color: String,
    pub enabled: bool,
    pub order: u32,
    pub created_at: u64,
    pub updated_at: u64,
}

/// Where event notifications are posted.
#[derive(Debug, Clone)]
pub struct WebhookSubscription {
    pub id: String,
    pub url: String,
    pub secret: Option<String>,
    pub events: Vec<String>,
    pub enabled: bool,
    pub created_at: u64,
    pub updated_at: u64,
}

/// The account's profile.
#[derive(Debug, Clone)]
pub struct Profile {
    pub id: String,
    pub username: String,
    pub email: String,
    pub display_name: String,
    pub timezone: String,
    pub avatar_url: Option<String>,
    pub created_at: u64,
}

/// The user name a profile has when none was stored.
pub fn default_username() -> (r: String)
    ensures
        r@ == "local-user"@,
{
    owned("local-user")
}

/// Tokens handed out at login.
#[derive(Debug, Clone)]
pub struct AuthTokens {
    pub access_token: String,
    pub refresh_token: String,
    pub token_type: String,
    pub expires_in: u64,
}

/// An OAuth link to a destination account, with its secrets.
#[derive(Debug, Clone)]
pub struct OAuthConnection {
    pub id: String,
    pub platform_id: String,
    pub access_token: String,
    pub refresh_token: Option<String>,
    pub token_type: String,
    pub expires_at: Option<u64>,
    pub scopes: Vec<String>,
    pub connected_at: u64,
    pub updated_at: u64,
}

/// What the API shows of an OAuth link: no secrets.
#[derive(Debug, Clone)]
pub struct ConnectionSummary {
    pub id: String,
    pub platform_id: String,
    pub status: String,
    pub scopes: Vec<String>,
    pub connected_at: u64,
    pub updated_at: u64,
}

/// The summary of a link at time `now`: expired once its expiry has come.
pub fn connection_summary(connection: &OAuthConnection, now: u64) -> (s: ConnectionSummary)
    ensures
        s.id == connection.id,
        s.platform_id == connection.platform_id,
        s.status@ == (if connection.expires_at matches Some(t) && t <= now {
            "expired"@
        } else {
            "connected"@
        }),
        s.scopes@ == connection.scopes@,
        s.connected_at == connection.connected_at,
        s.updated_at == connection.updated_at,
{
    let expired = match connection.expires_at {
        Some(t) => t <= now,
        None => false,
    };
    ConnectionSummary {
        id: connection.id.clone(),
        platform_id: connection.platform_id.clone(),
        status: if expired {
            owned("expired")
        } else {
            owned("connected")
        },
        scopes: clone_strings(&connection.scopes),
        connected_at: connection.connected_at,
        updated_at: connection.updated_at,
    }
}

/// A copy of a list of strings.
pub fn clone_opt(s: &Option<String>) -> (r: Option<String>)
    ensures
        r == *s,
{
    match s {
        Some(x) => Some(x.clone()),
        None => None,
    }
}

/// A copy of a list of strings.
pub fn clone_strings(v: &Vec<String>) -> (r: Vec<String>)
    ensures
        r@ == v@,
{
    let mut r: Vec<String> = Vec::new();
    let n = v.len();
    for i in 0..n
        invariant
            n == v@.len(),
            r@ == v@.subrange(0, i as int),
    {
        r.push(v[i].clone());
        proof {
            assert(r@ =~= v@.subrange(0, i + 1));
        }
    }
    proof {
        assert(v@.subrange(0, n as int) =~= v@);
    }
    r
}

/// Where the RTMP ingest listens, the host it is advertised under, and the
/// key it accepts.
#[derive(Debug, Clone)]
pub struct RuntimeIngestConfig {
    pub listen_addr: String,
    pub listen_port: u16,
    pub advertised_host: String,
    pub stream_key: String,
}

impl RuntimeIngestConfig {
    /// The defaults, advertised under `advertised_host`: all addresses, port
    /// 1935, no key.
    pub fn with_host(advertised_host: String) -> (c: Self)
        ensures
            c.listen_addr@ == "0.0.0.0"@,
            c.listen_port == 1935,
            c.advertised_host == advertised_host,
            c.stream_key@.len() == 0,
    {
        RuntimeIngestConfig {
            listen_addr: owned("0.0.0.0"),
            listen_port: 1935,
            advertised_host,
            stream_key: String::new(),
        }
    }

    /// The RTMP URL encoders publish to.
    pub fn ingest_url(&self) -> (r: String)
        ensures
            r@ == "rtmp://"@ + self.advertised_host@ + ":"@ + decimal(self.listen_port as nat) + "/live"@,
    {
        let port = decimal_string(self.listen_port as u64);
        let mut r = join3("rtmp://", self.advertised_host.as_str(), ":");
        r.append(port.as_str());
        r.append("/live");
        r
    }
}

/// The value of a hexadecimal digit, or -1.
pub open spec fn hex_value(c: char) -> int {
    if '0' <= c && c <= '9' {
        c as int - '0' as int
    } else if 'a' <= c && c <= 'f' {
        c as int - 'a' as int + 10
    } else if 'A' <= c && c <= 'F' {
        c as int - 'A' as int + 10
    } else {
        -1
    }
}

/// A byte written as two hexadecimal digits.
pub open spec fn hex_pair(a: char, b: char) -> Option<u8> {
    if hex_value(a) >= 0 && hex_value(b) >= 0 {
        Some((hex_value(a) * 16 + hex_value(b)) as u8)
    } else {
        None
    }
}

/// A 32-byte key written as 64 characters (after trimming), two per byte.
pub open spec fn hex_key(value: Seq<char>) -> Option<Seq<u8>> {
    let v = trimmed(value);
    if v.len() == 64 && forall|i: int| 0 <= i < 32 ==> (#[trigger] hex_pair(v[2 * i], v[2 * i + 1])).is_some() {
        Some(Seq::new(32, |i: int| hex_pair(v[2 * i], v[2 * i + 1]).unwrap()))
    } else {
        None
    }
}

fn hex_value_of(c: char) -> (r: i32)
    ensures
        r == hex_value(c),
{
    if '0' <= c && c <= '9' {
        (c as u32 - '0' as u32) as i32
    } else if 'a' <= c && c <= 'f' {
        (c as u32 - 'a' as u32 + 10) as i32
    } else if 'A' <= c && c <= 'F' {
        (c as u32 - 'A' as u32 + 10) as i32
    } else {
        -1
    }
}

fn hex_pair_of(a: char, b: char) -> (r: Option<u8>)
    ensures
        r == hex_pair(a, b),
{
    let ha = hex_value_of(a);
    let hb = hex_value_of(b);
    if ha >= 0 && hb >= 0 {
        Some((ha * 16 + hb) as u8)
    } else {
        None
    }
}

/// Reads the state-encryption key from its hexadecimal form: exactly 64
/// hexadecimal digits once trimmed, two per byte; anything else gives none.
pub fn decode_hex_key(value: &str) -> (r: Option<[u8; 32]>)
    ensures
        match r {
            Some(k) => hex_key(value@) == Some(k@),
            None => hex_key(value@).is_none(),
        },
{
    let all = chars_of(value);
    let v = trim_chars(&all);
    if v.len() != 64 {
        return None;
    }
    let mut key = [0u8; 32];
    let mut i: usize = 0;
    while i < 32
        invariant
            i <= 32,
            v@ == trimmed(value@),
            v@.len() == 64,
            key@.len() == 32,
            forall|j: int| 0 <= j < i ==> (#[trigger] hex_pair(v@[2 * j], v@[2 * j + 1])) == Some(key@[j]),
        decreases 32 - i,
    {
        match hex_pair_of(v[2 * i], v[2 * i + 1]) {
            Some(b) => {
                key.set(i, b);
            },
            None => {
                return None;
            },
        }
        i = i + 1;
    }
    proof {
        assert(key@ =~= Seq::new(32, |i: int| hex_pair(v@[2 * i], v@[2 * i + 1]).unwrap()));
    }
    Some(key)
}

} // verus!
