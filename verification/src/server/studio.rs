//! Overlays and webhooks as the API creates them from a request, with the
//! defaults for every field left out.

use vstd::prelude::*;

use crate::fresh::now;
use crate::server::restream::{Brand, Caption, QrCode, Ticker, WebhookSubscription};
use crate::server::records::Keyed;
use crate::text::owned;

verus! {

impl Keyed for Brand {
    open spec fn key(&self) -> Seq<char> {
        self.id@
    }

    fn key_str(&self) -> (r: &str) {
        self.id.as_str()
    }
}

impl Keyed for Caption {
    open spec fn key(&self) -> Seq<char> {
        self.id@
    }

    fn key_str(&self) -> (r: &str) {
        self.id.as_str()
    }
}

impl Keyed for QrCode {
    open spec fn key(&self) -> Seq<char> {
        self.id@
    }

    fn key_str(&self) -> (r: &str) {
        self.id.as_str()
    }
}

impl Keyed for Ticker {
    open spec fn key(&self) -> Seq<char> {
        self.id@
    }

    fn key_str(&self) -> (r: &str) {
        self.id.as_str()
    }
}

impl Keyed for WebhookSubscription {
    open spec fn key(&self) -> Seq<char> {
        self.id@
    }

    fn key_str(&self) -> (r: &str) {
        self.id.as_str()
    }
}

/// The fields a brand request may carry.
#[derive(Debug, Clone)]
pub struct BrandRequest {
    pub name: Option<String>,
    pub logo_url: Option<String>,
    pub primary_color: Option<String>,
    pub secondary_color: Option<String>,
    pub font_family: Option<String>,
}

/// The fields a caption request may carry; the style as JSON text.
#[derive(Debug, Clone)]
pub struct CaptionRequest {
    pub name: Option<String>,
    pub language: Option<String>,
    pub style: Option<String>,
    pub enabled: Option<bool>,
}

/// The fields a QR code request may carry.
#[derive(Debug, Clone)]
pub struct QrRequest {
    pub name: Option<String>,
    pub data: Option<String>,
    pub foreground: Option<String>,
    pub background: Option<String>,
    pub enabled: Option<bool>,
    pub position: Option<String>,
}

/// The fields a ticker request may carry.
#[derive(Debug, Clone)]
pub struct TickerRequest {
    pub text: Option<String>,
    pub speed: Option<u64>,
    pub color: Option<String>,
    pub background_color: Option<String>,
    pub enabled: Option<bool>,
    pub order: Option<u64>,
}

/// The fields a webhook request may carry.
#[derive(Debug)]
pub struct WebhookRequest {
    pub url: Option<String>,
    pub secret: Option<String>,
    pub events: Option<Vec<String>>,
    pub enabled: Option<bool>,
}

/// A field's text, or the default.
pub open spec fn text_or(v: Option<String>, default: Seq<char>) -> Seq<char> {
    match v {
        Some(s) => s@,
        None => default,
    }
}

fn or_default(v: Option<String>, default: &str) -> (r: String)
    ensures
        r@ == text_or(v, default@),
{
    match v {
        Some(s) => s,
        None => owned(default),
    }
}

/// A new brand from a request: unnamed brands are "New brand", colours
/// default to white on black, the font to Inter; created now.
pub fn brand_from_value(value: BrandRequest) -> (b: Brand)
    ensures
        b.id@.len() == 0,
        b.name@ == text_or(value.name, "New brand"@),
        b.logo_url == value.logo_url,
        b.primary_color@ == text_or(value.primary_color, "#ffffff"@),
        b.secondary_color@ == text_or(value.secondary_color, "#000000"@),
        b.font_family@ == text_or(value.font_family, "Inter"@),
        b.created_at == b.updated_at,
{
    let timestamp = now();
    Brand {
        id: String::new(),
        name: or_default(value.name, "New brand"),
        logo_url: value.logo_url,
        primary_color: or_default(value.primary_color, "#ffffff"),
        secondary_color: or_default(value.secondary_color, "#000000"),
        font_family: or_default(value.font_family, "Inter"),
        created_at: timestamp,
        updated_at: timestamp,
    }
}

/// A new caption track from a request: named "Captions", in English,
/// with an empty style object, enabled, unless the request says
/// otherwise; created now.
pub fn caption_from_value(value: CaptionRequest) -> (c: Caption)
    ensures
        c.id@.len() == 0,
        c.name@ == text_or(value.name, "Captions"@),
        c.language@ == text_or(value.language, "en"@),
        c.style@ == text_or(value.style, "{}"@),
        c.enabled == match value.enabled {
            Some(e) => e,
            None => true,
        },
        c.created_at == c.updated_at,
{
    let timestamp = now();
    Caption {
        id: String::new(),
        name: or_default(value.name, "Captions"),
        language: or_default(value.language, "en"),
        style: or_default(value.style, "{}"),
        enabled: match value.enabled {
            Some(e) => e,
            None => true,
        },
        created_at: timestamp,
        updated_at: timestamp,
    }
}

/// A new QR code from a request: named "QR code", empty data, black on
/// white, enabled, in the bottom-right corner unless the request says
/// otherwise; created now.
pub fn qr_from_value(value: QrRequest) -> (q: QrCode)
    ensures
        q.id@.len() == 0,
        q.name@ == text_or(value.name, "QR code"@),
        q.data@ == text_or(value.data, ""@),
        q.foreground@ == text_or(value.foreground, "#000000"@),
        q.background@ == text_or(value.background, "#ffffff"@),
        q.enabled == match value.enabled {
            Some(e) => e,
            None => true,
        },
        q.position@ == text_or(value.position, "bottom-right"@),
        q.created_at == q.updated_at,
{
    let timestamp = now();
    QrCode {
        id: String::new(),
        name: or_default(value.name, "QR code"),
        data: or_default(value.data, ""),
        foreground: or_default(value.foreground, "#000000"),
        background: or_default(value.background, "#ffffff"),
        enabled: match value.enabled {
            Some(e) => e,
            None => true,
        },
        position: or_default(value.position, "bottom-right"),
        created_at: timestamp,
        updated_at: timestamp,
    }
}

/// A new ticker from a request: empty text at speed 40, white on black,
/// enabled, first in order unless the request says otherwise; numbers are
/// cut to 32 bits. Created now.
pub fn ticker_from_value(value: TickerRequest) -> (t: Ticker)
    ensures
        t.id@.len() == 0,
        t.text@ == text_or(value.text, ""@),
        t.speed == match value.speed {
            Some(s) => s as u32,
            None => 40u32,
        },
        t.color@ == text_or(value.color, "#ffffff"@),
        t.background_color@ == text_or(value.background_color, "#000000"@),
        t.enabled == match value.enabled {
            Some(e) => e,
            None => true,
        },
        t.order == match value.order {
            Some(o) => o as u32,
            None => 0u32,
        },
        t.created_at == t.updated_at,
{
    let timestamp = now();
    let speed: u32 = match value.speed {
        Some(s) => s as u32,
        None => 40,
    };
    let order: u32 = match value.order {
        Some(o) => o as u32,
        None => 0,
    };
    Ticker {
        id: String::new(),
        text: or_default(value.text, ""),
        speed,
        color: or_default(value.color, "#ffffff"),
        background_color: or_default(value.background_color, "#000000"),
        enabled: match value.enabled {
            Some(e) => e,
            None => true,
        },
        order,
        created_at: timestamp,
        updated_at: timestamp,
    }
}

/// A new webhook from a request: no URL becomes an empty one; without a
/// list it subscribes to `event.started` and `event.ended`; enabled unless
/// the request says otherwise.
pub fn webhook_from_request(request: WebhookRequest) -> (w: WebhookSubscription)
    ensures
        w.id@.len() == 0,
        w.url@ == text_or(request.url, ""@),
        w.secret == request.secret,
        match request.events {
            Some(e) => w.events == e,
            None => w.events.deep_view() == seq!["event.started"@, "event.ended"@],
        },
        w.enabled == match request.enabled {
            Some(e) => e,
            None => true,
        },
        w.created_at == 0,
        w.updated_at == 0,
{
    let events = match request.events {
        Some(e) => e,
        None => {
            let mut v: Vec<String> = Vec::new();
            v.push(owned("event.started"));
            v.push(owned("event.ended"));
            proof {
                assert(v.deep_view() =~= seq!["event.started"@, "event.ended"@]);
            }
            v
        },
    };
    WebhookSubscription {
        id: String::new(),
        url: or_default(request.url, ""),
        secret: request.secret,
        events,
        enabled: match request.enabled {
            Some(e) => e,
            None => true,
        },
        created_at: 0,
        updated_at: 0,
    }
}

} // verus!
