//! Destination channels: their secrets kept apart from the public record,
//! the changes made to them and the destination events those changes
//! announce, and the destinations a stream key publishes to.

use vstd::prelude::*;

use crate::relay::client::{enabled_only, enabled_platforms};
use crate::relay::config::{Orientation, Platform as RelayPlatform, PlatformEvent, platform_id_from, platform_id_of};
use crate::server::api_v1::{ApiError, bad_request, destination_url_problem, is_bad_request, parse_destination_url, required};
use crate::server::records::{
    Keyed, find_keyed, key_at, lemma_key_at, lemma_key_at_same, lemma_lookup_after_remove, lookup, other_key,
    remove_keyed,
};
use crate::server::restream::{Channel, Event, clone_opt};
use crate::parse::{trim_chars, trimmed};
use crate::text::{chars_of, join3, owned, str_eq};
use crate::weburl::{UrlParts, UrlPartsView, url_parse};

verus! {

/// The secret part of a channel: its key and RTMP credentials.
#[derive(Debug, Clone)]
pub struct ChannelSecret {
    pub stream_key: String,
    pub rtmp_username: Option<String>,
    pub rtmp_password: Option<String>,
}

/// The secret of the channel with identifier `channel_id`.
#[derive(Debug, Clone)]
pub struct SecretEntry {
    pub channel_id: String,
    pub secret: ChannelSecret,
}

impl Keyed for SecretEntry {
    open spec fn key(&self) -> Seq<char> {
        self.channel_id@
    }

    fn key_str(&self) -> (r: &str) {
        self.channel_id.as_str()
    }
}

impl Keyed for Channel {
    open spec fn key(&self) -> Seq<char> {
        self.id@
    }

    fn key_str(&self) -> (r: &str) {
        self.id.as_str()
    }
}


impl ChannelSecret {
    /// A copy with the same fields.
    pub fn duplicate(&self) -> (r: ChannelSecret)
        ensures
            r == *self,
    {
        ChannelSecret {
            stream_key: self.stream_key.clone(),
            rtmp_username: clone_opt(&self.rtmp_username),
            rtmp_password: clone_opt(&self.rtmp_password),
        }
    }
}

impl Channel {
    /// A copy with the same fields.
    pub fn duplicate(&self) -> (r: Channel)
        ensures
            r == *self,
    {
        Channel {
            id: self.id.clone(),
            platform_id: self.platform_id.clone(),
            display_name: self.display_name.clone(),
            channel_url: clone_opt(&self.channel_url),
            stream_url: self.stream_url.clone(),
            stream_key: self.stream_key.clone(),
            rtmp_username: clone_opt(&self.rtmp_username),
            rtmp_password: clone_opt(&self.rtmp_password),
            enabled: self.enabled,
            status: self.status.clone(),
            created_at: self.created_at,
            updated_at: self.updated_at,
            last_error: clone_opt(&self.last_error),
        }
    }
}

/// The secret kept for a channel, if any.
pub open spec fn secret_of(secrets: Seq<SecretEntry>, channel_id: Seq<char>) -> Option<ChannelSecret> {
    match lookup(secrets, channel_id) {
        Some(e) => Some(e.secret),
        None => None,
    }
}

/// A channel with its secret filled in from the kept secrets.
pub open spec fn hydrated(c: Channel, secrets: Seq<SecretEntry>) -> Channel {
    match secret_of(secrets, c.id@) {
        Some(s) => Channel {
            stream_key: s.stream_key,
            rtmp_username: s.rtmp_username,
            rtmp_password: s.rtmp_password,
            ..c
        },
        None => c,
    }
}

/// The secret a channel record carries.
pub open spec fn secret_in(c: Channel) -> ChannelSecret {
    ChannelSecret { stream_key: c.stream_key, rtmp_username: c.rtmp_username, rtmp_password: c.rtmp_password }
}

/// Fills in a channel's secret from the kept secrets.
pub fn hydrate_channel(secrets: &Vec<SecretEntry>, channel: &mut Channel)
    ensures
        *final(channel) == hydrated(*old(channel), secrets@),
{
    match find_keyed(secrets, channel.id.as_str()) {
        Some(j) => {
            let s = &secrets[j].secret;
            channel.stream_key = s.stream_key.clone();
            channel.rtmp_username = clone_opt(&s.rtmp_username);
            channel.rtmp_password = clone_opt(&s.rtmp_password);
        },
        None => {},
    }
}

/// Keeps `secret` for the channel `channel_id`, in place of the one kept.
pub fn put_secret(secrets: &mut Vec<SecretEntry>, channel_id: &str, secret: ChannelSecret)
    ensures
        secret_of(final(secrets)@, channel_id@) == Some(secret),
        forall|k: Seq<char>| k != channel_id@ ==> #[trigger] secret_of(final(secrets)@, k) == secret_of(old(secrets)@, k),
{
    let entry = SecretEntry { channel_id: owned(channel_id), secret };
    let ghost e = entry;
    let ghost before = secrets@;
    match find_keyed(secrets, channel_id) {
        Some(j) => {
            secrets.set(j, entry);
            proof {
                let after = secrets@;
                assert(after == before.update(j as int, e));
                lemma_key_at(before, channel_id@, 0);
                lemma_key_at(after, channel_id@, 0);
                assert(after[j as int].key() == channel_id@);
                assert forall|i: int| 0 <= i < j implies #[trigger] after[i] == before[i] by {}
                let r = key_at(after, channel_id@, 0);
                if r != j as int {
                    assert(after[r].key() == channel_id@);
                    assert(before[r].key() == channel_id@);
                }
                assert forall|k: Seq<char>| k != channel_id@ implies #[trigger] secret_of(after, k) == secret_of(before, k) by {
                    assert forall|i: int| 0 <= i < after.len() implies (#[trigger] after[i].key() == k) == (before[i].key() == k) by {
                        if i == j {
                            assert(before[i].key() == channel_id@);
                        }
                    }
                    lemma_key_at_same(after, before, k);
                    lemma_key_at(before, k, 0);
                    if key_at(before, k, 0) != -1 {
                        assert(key_at(before, k, 0) != j);
                    }
                }
            }
        },
        None => {
            secrets.push(entry);
            proof {
                let after = secrets@;
                lemma_key_at(before, channel_id@, 0);
                lemma_key_at(after, channel_id@, 0);
                assert(after[before.len() as int] == e);
                assert(after[before.len() as int].key() == channel_id@);
                assert forall|i: int| 0 <= i < before.len() implies #[trigger] after[i] == before[i] by {}
                let r = key_at(after, channel_id@, 0);
                assert(r != -1);
                if r != before.len() {
                    assert(after[r].key() == channel_id@);
                    assert(before[r].key() == channel_id@);
                }
                assert forall|k: Seq<char>| k != channel_id@ implies #[trigger] secret_of(after, k) == secret_of(before, k) by {
                    lemma_key_at(before, k, 0);
                    lemma_key_at(after, k, 0);
                    assert forall|i: int| 0 <= i < before.len() implies #[trigger] after[i] == before[i] by {}
                    if key_at(before, k, 0) != -1 {
                        assert(after[key_at(before, k, 0)].key() == k);
                    }
                    if key_at(after, k, 0) != -1 {
                        assert(key_at(after, k, 0) < before.len());
                        assert(before[key_at(after, k, 0)].key() == k);
                    }
                }
            }
        },
    }
}

/// Forgets the secret of the channel `channel_id`.
pub fn drop_secret(secrets: &mut Vec<SecretEntry>, channel_id: &str)
    ensures
        secret_of(final(secrets)@, channel_id@).is_none(),
        forall|k: Seq<char>| k != channel_id@ ==> #[trigger] secret_of(final(secrets)@, k) == secret_of(old(secrets)@, k),
{
    let ghost before = secrets@;
    remove_keyed(secrets, channel_id);
    proof {
        let after = secrets@;
        lemma_key_at(after, channel_id@, 0);
        assert forall|i: int| 0 <= i < after.len() implies #[trigger] after[i].key() != channel_id@ by {
            before.lemma_filter_pred(other_key::<SecretEntry>(channel_id@), i);
        }
        assert forall|k: Seq<char>| k != channel_id@ implies #[trigger] secret_of(after, k) == secret_of(before, k) by {
            lemma_lookup_after_remove(before, channel_id@, k);
        }
    }
}

/// A channel just created: enabled, disconnected, no error.
pub open spec fn is_new_channel(
    c: Channel,
    id: Seq<char>,
    now: u64,
    platform_id: String,
    display_name: String,
    channel_url: Option<String>,
    stream_url: String,
    stream_key: String,
    rtmp_username: Option<String>,
    rtmp_password: Option<String>,
) -> bool {
    &&& c.id@ == id
    &&& c.platform_id == platform_id
    &&& c.display_name == display_name
    &&& c.channel_url == channel_url
    &&& c.stream_url == stream_url
    &&& c.stream_key == stream_key
    &&& c.rtmp_username == rtmp_username
    &&& c.rtmp_password == rtmp_password
    &&& c.enabled
    &&& c.status@ == "disconnected"@
    &&& c.created_at == now
    &&& c.updated_at == now
    &&& c.last_error.is_none()
}

/// The event that announces a destination.
pub open spec fn added_event(url: Seq<char>, key: Seq<char>) -> crate::relay::config::PlatformEventView {
    crate::relay::config::PlatformEventView::Added { platform_id: platform_id_of(url, key), url, key }
}

/// The event that withdraws a destination.
pub open spec fn removed_event(url: Seq<char>, key: Seq<char>) -> crate::relay::config::PlatformEventView {
    crate::relay::config::PlatformEventView::Removed { platform_id: platform_id_of(url, key) }
}

/// The event that switches a destination off.
pub open spec fn disabled_event(url: Seq<char>, key: Seq<char>) -> crate::relay::config::PlatformEventView {
    crate::relay::config::PlatformEventView::Toggled { platform_id: platform_id_of(url, key), url, key, enabled: false }
}

fn added(url: &str, key: &str) -> (e: PlatformEvent)
    ensures
        e@ == added_event(url@, key@),
{
    PlatformEvent::Added { platform_id: platform_id_from(url, key), url: owned(url), key: owned(key) }
}

/// Creates channel `id` at `now` with its secret kept apart, and returns it
/// with the event that announces it as a destination.
pub fn create_channel(
    channels: &mut Vec<Channel>,
    secrets: &mut Vec<SecretEntry>,
    id: &str,
    now: u64,
    platform_id: String,
    display_name: String,
    channel_url: Option<String>,
    stream_url: String,
    stream_key: String,
    rtmp_username: Option<String>,
    rtmp_password: Option<String>,
) -> (r: (Channel, PlatformEvent))
    ensures
        is_new_channel(
            r.0,
            id@,
            now,
            platform_id,
            display_name,
            channel_url,
            stream_url,
            stream_key,
            rtmp_username,
            rtmp_password,
        ),
        final(channels)@ == old(channels)@.push(r.0),
        secret_of(final(secrets)@, id@) == Some(secret_in(r.0)),
        forall|k: Seq<char>| k != id@ ==> #[trigger] secret_of(final(secrets)@, k) == secret_of(old(secrets)@, k),
        r.1@ == added_event(stream_url@, stream_key@),
{
    let channel = Channel {
        id: owned(id),
        platform_id,
        display_name,
        channel_url,
        stream_url,
        stream_key,
        rtmp_username,
        rtmp_password,
        enabled: true,
        status: owned("disconnected"),
        created_at: now,
        updated_at: now,
        last_error: None,
    };
    let secret = ChannelSecret {
        stream_key: channel.stream_key.clone(),
        rtmp_username: clone_opt(&channel.rtmp_username),
        rtmp_password: clone_opt(&channel.rtmp_password),
    };
    put_secret(secrets, id, secret);
    channels.push(channel.duplicate());
    let event = added(channel.stream_url.as_str(), channel.stream_key.as_str());
    (channel, event)
}

/// A channel after an update at `now`: each given field replaces the one
/// there (a channel URL is set, never cleared).
pub open spec fn patched(
    c: Channel,
    display_name: Option<String>,
    channel_url: Option<String>,
    stream_url: Option<String>,
    stream_key: Option<String>,
    enabled: Option<bool>,
    now: u64,
) -> Channel {
    Channel {
        display_name: match display_name {
            Some(v) => v,
            None => c.display_name,
        },
        channel_url: match channel_url {
            Some(v) => Some(v),
            None => c.channel_url,
        },
        stream_url: match stream_url {
            Some(v) => v,
            None => c.stream_url,
        },
        stream_key: match stream_key {
            Some(v) => v,
            None => c.stream_key,
        },
        enabled: match enabled {
            Some(v) => v,
            None => c.enabled,
        },
        updated_at: now,
        ..c
    }
}

/// The destination events an update announces: the old destination is
/// withdrawn when its URL or key changed, the new one announced, and
/// switched off when the channel is disabled.
pub open spec fn update_events(previous: Channel, updated: Channel) -> Seq<crate::relay::config::PlatformEventView> {
    let withdraw = if previous.stream_url@ != updated.stream_url@ || previous.stream_key@ != updated.stream_key@ {
        seq![removed_event(previous.stream_url@, previous.stream_key@)]
    } else {
        Seq::empty()
    };
    let announce = seq![added_event(updated.stream_url@, updated.stream_key@)];
    let off = if !updated.enabled {
        seq![disabled_event(updated.stream_url@, updated.stream_key@)]
    } else {
        Seq::empty()
    };
    withdraw + announce + off
}

/// Updates the first channel with identifier `channel_id` at `now`; the
/// channel, with its secret filled in, is patched, stored with its secret
/// kept apart, and returned with the destination events to announce.
/// `None`, and nothing changed, when there is no such channel.
pub fn update_channel(
    channels: &mut Vec<Channel>,
    secrets: &mut Vec<SecretEntry>,
    channel_id: &str,
    display_name: Option<String>,
    channel_url: Option<String>,
    stream_url: Option<String>,
    stream_key: Option<String>,
    enabled: Option<bool>,
    now: u64,
) -> (r: Option<(Channel, Vec<PlatformEvent>)>)
    ensures
        ({
            let cs = old(channels)@;
            let k = key_at(cs, channel_id@, 0);
            if k == -1 {
                &&& r.is_none()
                &&& final(channels)@ == cs
                &&& final(secrets)@ == old(secrets)@
            } else {
                let previous = hydrated(cs[k], old(secrets)@);
                let updated = patched(previous, display_name, channel_url, stream_url, stream_key, enabled, now);
                &&& r matches Some((c, evs)) && c == updated && evs.deep_view() == update_events(previous, updated)
                &&& final(channels)@ == cs.update(k, updated)
                &&& secret_of(final(secrets)@, cs[k].id@) == Some(secret_in(updated))
                &&& forall|key: Seq<char>| key != cs[k].id@ ==> #[trigger] secret_of(final(secrets)@, key) == secret_of(old(secrets)@, key)
            }
        }),
{
    let k = match find_keyed(channels, channel_id) {
        Some(k) => k,
        None => {
            return None;
        },
    };
    let mut channel = channels[k].duplicate();
    hydrate_channel(secrets, &mut channel);
    let previous = channel.duplicate();
    if let Some(v) = display_name {
        channel.display_name = v;
    }
    if let Some(v) = channel_url {
        channel.channel_url = Some(v);
    }
    if let Some(v) = stream_url {
        channel.stream_url = v;
    }
    if let Some(v) = stream_key {
        channel.stream_key = v;
    }
    if let Some(v) = enabled {
        channel.enabled = v;
    }
    channel.updated_at = now;
    channels.set(k, channel.duplicate());
    let secret = ChannelSecret {
        stream_key: channel.stream_key.clone(),
        rtmp_username: clone_opt(&channel.rtmp_username),
        rtmp_password: clone_opt(&channel.rtmp_password),
    };
    put_secret(secrets, channel.id.as_str(), secret);
    let mut events: Vec<PlatformEvent> = Vec::new();
    let url_changed = !str_eq(previous.stream_url.as_str(), channel.stream_url.as_str());
    let key_changed = !str_eq(previous.stream_key.as_str(), channel.stream_key.as_str());
    if url_changed || key_changed {
        events.push(
            PlatformEvent::Removed {
                platform_id: platform_id_from(previous.stream_url.as_str(), previous.stream_key.as_str()),
            },
        );
    }
    events.push(added(channel.stream_url.as_str(), channel.stream_key.as_str()));
    if !channel.enabled {
        events.push(
            PlatformEvent::Toggled {
                platform_id: platform_id_from(channel.stream_url.as_str(), channel.stream_key.as_str()),
                url: channel.stream_url.clone(),
                key: channel.stream_key.clone(),
                enabled: false,
            },
        );
    }
    proof {
        assert(events.deep_view() =~= update_events(previous, channel));
    }
    Some((channel, events))
}

/// Deletes every channel with identifier `channel_id` and its secret; true,
/// with the event that withdraws the first of them as a destination, when
/// there was one.
pub fn delete_channel(channels: &mut Vec<Channel>, secrets: &mut Vec<SecretEntry>, channel_id: &str) -> (r: (
    bool,
    Option<PlatformEvent>,
))
    ensures
        ({
            let cs = old(channels)@;
            let k = key_at(cs, channel_id@, 0);
            &&& r.0 == (k != -1)
            &&& final(channels)@ == cs.filter(other_key::<Channel>(channel_id@))
            &&& secret_of(final(secrets)@, channel_id@).is_none()
            &&& forall|key: Seq<char>| key != channel_id@ ==> #[trigger] secret_of(final(secrets)@, key) == secret_of(old(secrets)@, key)
            &&& if k == -1 {
                r.1.is_none()
            } else {
                let c = hydrated(cs[k], old(secrets)@);
                r.1 matches Some(e) && e@ == removed_event(c.stream_url@, c.stream_key@)
            }
        }),
{
    let found = match find_keyed(channels, channel_id) {
        Some(k) => {
            let mut c = channels[k].duplicate();
            hydrate_channel(secrets, &mut c);
            Some(c)
        },
        None => None,
    };
    let removed = remove_keyed(channels, channel_id);
    drop_secret(secrets, channel_id);
    match found {
        Some(c) => (
            removed,
            Some(
                PlatformEvent::Removed { platform_id: platform_id_from(c.stream_url.as_str(), c.stream_key.as_str()) },
            ),
        ),
        None => (removed, None),
    }
}

/// The key a channel publishes with: the kept one, else its own.
pub open spec fn publishing_key(c: Channel, secrets: Seq<SecretEntry>) -> Seq<char> {
    match secret_of(secrets, c.id@) {
        Some(s) => s.stream_key@,
        None => c.stream_key@,
    }
}

/// Whether `after` is `c` after a status report on `destination_id` at
/// `now`: the channel whose URL and publishing key make that identifier
/// takes the status and error; any other is left as it is.
pub open spec fn status_reported(
    after: Channel,
    c: Channel,
    secrets: Seq<SecretEntry>,
    destination_id: Seq<char>,
    status: Seq<char>,
    last_error: Option<String>,
    now: u64,
) -> bool {
    if platform_id_of(c.stream_url@, publishing_key(c, secrets)) == destination_id {
        after == Channel { status: after.status, last_error, updated_at: now, ..c } && after.status@ == status
    } else {
        after == c
    }
}

/// Records what the relay reports of destination `destination_id` on the
/// channels that publish to it.
pub fn set_channel_status(
    channels: &mut Vec<Channel>,
    secrets: &Vec<SecretEntry>,
    destination_id: &str,
    status: &str,
    last_error: Option<String>,
    now: u64,
)
    ensures
        final(channels)@.len() == old(channels)@.len(),
        forall|i: int|
            0 <= i < old(channels)@.len() ==> status_reported(
                #[trigger] final(channels)@[i],
                old(channels)@[i],
                secrets@,
                destination_id@,
                status@,
                last_error,
                now,
            ),
{
    let ghost before = channels@;
    let n = channels.len();
    for i in 0..n
        invariant
            n == before.len(),
            channels@.len() == n,
            forall|j: int|
                0 <= j < i ==> status_reported(
                    #[trigger] channels@[j],
                    before[j],
                    secrets@,
                    destination_id@,
                    status@,
                    last_error,
                    now,
                ),
            forall|j: int| i <= j < n ==> #[trigger] channels@[j] == before[j],
    {
        let key = match find_keyed(secrets, channels[i].id.as_str()) {
            Some(j) => secrets[j].secret.stream_key.clone(),
            None => channels[i].stream_key.clone(),
        };
        let pid = platform_id_from(channels[i].stream_url.as_str(), key.as_str());
        if str_eq(pid.as_str(), destination_id) {
            let mut c = channels[i].duplicate();
            c.status = owned(status);
            c.last_error = clone_opt(&last_error);
            c.updated_at = now;
            channels.set(i, c);
        }
    }
}

/// The stream key of an event, as the ingest accepts it.
#[derive(Debug, Clone)]
pub struct EventKey {
    pub event_id: String,
    pub stream_key: String,
}

/// Event keys are looked up by the key itself.
impl Keyed for EventKey {
    open spec fn key(&self) -> Seq<char> {
        self.stream_key@
    }

    fn key_str(&self) -> (r: &str) {
        self.stream_key.as_str()
    }
}

impl Keyed for Event {
    open spec fn key(&self) -> Seq<char> {
        self.id@
    }

    fn key_str(&self) -> (r: &str) {
        self.id.as_str()
    }
}

/// The destinations behind channel identifiers, in order: each channel's
/// URL and publishing key, disabled channels left out; `None` when an
/// identifier names no channel or a channel's URL does not parse.
pub open spec fn channel_destinations(ids: Seq<String>, channels: Seq<Channel>, secrets: Seq<SecretEntry>) -> Option<
    Seq<(UrlPartsView, Seq<char>)>,
>
    decreases ids.len(),
{
    if ids.len() == 0 {
        Some(Seq::empty())
    } else {
        match channel_destinations(ids.drop_last(), channels, secrets) {
            None => None,
            Some(prefix) => match lookup(channels, ids.last()@) {
                None => None,
                Some(c) => {
                    let h = hydrated(c, secrets);
                    if !h.enabled {
                        Some(prefix)
                    } else {
                        match url_parse(h.stream_url@) {
                            None => None,
                            Some(u) => Some(prefix.push((u, h.stream_key@))),
                        }
                    }
                },
            },
        }
    }
}

/// Whether relay destinations stand for the given URLs and keys, enabled
/// and horizontal.
pub open spec fn platforms_are(ps: Seq<RelayPlatform>, ds: Seq<(UrlPartsView, Seq<char>)>) -> bool {
    &&& ps.len() == ds.len()
    &&& forall|i: int|
        0 <= i < ps.len() ==> {
            &&& (#[trigger] ps[i]).url@ == ds[i].0
            &&& ps[i].key@ == ds[i].1
            &&& ps[i].enabled
            &&& ps[i].orientation == Orientation::Horizontal
        }
}

/// The destinations an event publishes to.
fn destinations_of(ids: &Vec<String>, channels: &Vec<Channel>, secrets: &Vec<SecretEntry>) -> (r: Option<Vec<RelayPlatform>>)
    ensures
        match channel_destinations(ids@, channels@, secrets@) {
            None => r.is_none(),
            Some(ds) => r matches Some(ps) && platforms_are(ps@, ds),
        },
{
    let mut out: Vec<RelayPlatform> = Vec::new();
    let n = ids.len();
    for i in 0..n
        invariant
            n == ids@.len(),
            channel_destinations(ids@.subrange(0, i as int), channels@, secrets@) matches Some(ds) && platforms_are(
                out@,
                ds,
            ),
    {
        proof {
            let s = ids@.subrange(0, i + 1);
            assert(s.drop_last() =~= ids@.subrange(0, i as int));
            assert(s.last() == ids@[i as int]);
        }
        let ghost ds = channel_destinations(ids@.subrange(0, i as int), channels@, secrets@)->Some_0;
        let k = match find_keyed(channels, ids[i].as_str()) {
            Some(k) => k,
            None => {
                proof {
                    lemma_none_stays(ids@, channels@, secrets@, i + 1);
                }
                return None;
            },
        };
        let mut c = channels[k].duplicate();
        hydrate_channel(secrets, &mut c);
        if c.enabled {
            match UrlParts::parse(c.stream_url.as_str()) {
                Some(u) => {
                    let ghost prev = out@;
                    out.push(RelayPlatform { url: u, key: c.stream_key, enabled: true, orientation: Orientation::Horizontal });
                    proof {
                        let ds2 = channel_destinations(ids@.subrange(0, i + 1), channels@, secrets@)->Some_0;
                        assert(ds2 == ds.push((url_parse(c.stream_url@)->Some_0, c.stream_key@)));
                        assert forall|j: int| 0 <= j < prev.len() implies #[trigger] out@[j] == prev[j] by {}
                        assert(platforms_are(out@, ds2));
                    }
                },
                None => {
                    proof {
                        lemma_none_stays(ids@, channels@, secrets@, i + 1);
                    }
                    return None;
                },
            }
        }
    }
    proof {
        assert(ids@.subrange(0, n as int) =~= ids@);
    }
    Some(out)
}

/// Once some identifier fails, every longer prefix fails too.
proof fn lemma_none_stays(ids: Seq<String>, channels: Seq<Channel>, secrets: Seq<SecretEntry>, i: int)
    requires
        0 <= i <= ids.len(),
        channel_destinations(ids.subrange(0, i), channels, secrets).is_none(),
    ensures
        channel_destinations(ids, channels, secrets).is_none(),
    decreases ids.len() - i,
{
    if i < ids.len() {
        let s = ids.subrange(0, i + 1);
        assert(s.drop_last() =~= ids.subrange(0, i));
        lemma_none_stays(ids, channels, secrets, i + 1);
    } else {
        assert(ids.subrange(0, i) =~= ids);
    }
}

/// The destinations a stream key publishes to: the enabled configured
/// destinations for the ingest's own key (when it has one); for an event's
/// key, the channels of that event; `None` for any other key, when the
/// event is gone, or when its channels cannot be resolved.
pub open spec fn key_destinations(
    runtime_key: Seq<char>,
    runtime_platforms: Seq<RelayPlatform>,
    event_keys: Seq<EventKey>,
    events: Seq<Event>,
    channels: Seq<Channel>,
    secrets: Seq<SecretEntry>,
    stream_key: Seq<char>,
) -> Option<Result<Seq<RelayPlatform>, Seq<(UrlPartsView, Seq<char>)>>> {
    if runtime_key.len() > 0 && runtime_key == stream_key {
        Some(Ok(enabled_only(runtime_platforms)))
    } else {
        match lookup(event_keys, stream_key) {
            None => None,
            Some(k) => match lookup(events, k.event_id@) {
                None => None,
                Some(e) => match channel_destinations(e.destination_ids@, channels, secrets) {
                    None => None,
                    Some(ds) => Some(Err(ds)),
                },
            },
        }
    }
}

/// The destinations a stream key publishes to. Event keys are searched in
/// list order; each event has its own key.
pub fn platforms_for_key(
    runtime_key: &str,
    runtime_platforms: &Vec<RelayPlatform>,
    event_keys: &Vec<EventKey>,
    events: &Vec<Event>,
    channels: &Vec<Channel>,
    secrets: &Vec<SecretEntry>,
    stream_key: &str,
) -> (r: Option<Vec<RelayPlatform>>)
    ensures
        match key_destinations(runtime_key@, runtime_platforms@, event_keys@, events@, channels@, secrets@, stream_key@) {
            None => r.is_none(),
            Some(Ok(ps)) => r matches Some(v) && v@ == ps,
            Some(Err(ds)) => r matches Some(v) && platforms_are(v@, ds),
        },
{
    if runtime_key.unicode_len() > 0 && str_eq(runtime_key, stream_key) {
        return Some(enabled_platforms(runtime_platforms));
    }
    let k = match find_keyed(event_keys, stream_key) {
        Some(k) => k,
        None => {
            return None;
        },
    };
    let e = match find_keyed(events, event_keys[k].event_id.as_str()) {
        Some(e) => e,
        None => {
            return None;
        },
    };
    destinations_of(&events[e].destination_ids, channels, secrets)
}

/// Everything but the slashes at the end.
pub open spec fn without_trailing_slashes(s: Seq<char>) -> Seq<char>
    decreases s.len(),
{
    if s.len() > 0 && s.last() == '/' {
        without_trailing_slashes(s.drop_last())
    } else {
        s
    }
}

/// The input URL a stream is registered under: the ingest URL, without
/// trailing slashes, then `/` and the key.
pub fn input_url_for_key(ingest_url: &str, stream_key: &str) -> (r: String)
    ensures
        r@ == without_trailing_slashes(ingest_url@) + "/"@ + stream_key@,
{
    let chars = chars_of(ingest_url);
    let mut n = chars.len();
    proof {
        assert(chars@.subrange(0, n as int) =~= chars@);
    }
    while n > 0 && chars[n - 1] == '/'
        invariant
            n <= chars@.len(),
            chars@ == ingest_url@,
            without_trailing_slashes(chars@.subrange(0, n as int)) == without_trailing_slashes(ingest_url@),
        decreases n,
    {
        proof {
            assert(chars@.subrange(0, n as int).drop_last() =~= chars@.subrange(0, n - 1));
        }
        n = n - 1;
    }
    proof {
        assert(without_trailing_slashes(chars@.subrange(0, n as int)) == chars@.subrange(0, n as int));
    }
    let base = crate::text::string_of(&crate::parse::slice_chars(&chars, 0, n));
    join3(base.as_str(), "/", stream_key)
}

/// The first thing wrong with a request for a new channel: the platform,
/// stream URL and key are required, and the URL must be a destination.
pub open spec fn new_channel_problem(platform_id: Seq<char>, stream_url: Seq<char>, stream_key: Seq<char>) -> Option<
    Seq<char>,
> {
    if trimmed(platform_id).len() == 0 {
        Some("platformId"@ + " is required"@)
    } else if trimmed(stream_url).len() == 0 {
        Some("streamUrl"@ + " is required"@)
    } else {
        match destination_url_problem(trimmed(stream_url), "streamUrl"@) {
            Some(m) => Some(m),
            None => if trimmed(stream_key).len() == 0 {
                Some("streamKey"@ + " is required"@)
            } else {
                None
            },
        }
    }
}

/// Checks a request for a new channel; the trimmed platform, URL and key.
pub fn check_new_channel(platform_id: &str, stream_url: &str, stream_key: &str) -> (r: Result<
    (String, String, String),
    ApiError,
>)
    ensures
        match new_channel_problem(platform_id@, stream_url@, stream_key@) {
            Some(m) => r matches Err(e) && is_bad_request(e, m),
            None => r matches Ok((p, u, k)) && p@ == trimmed(platform_id@) && u@ == trimmed(stream_url@) && k@
                == trimmed(stream_key@),
        },
{
    let p = match required(platform_id, "platformId") {
        Ok(p) => p,
        Err(e) => {
            return Err(e);
        },
    };
    let u = match required(stream_url, "streamUrl") {
        Ok(u) => u,
        Err(e) => {
            return Err(e);
        },
    };
    if let Err(e) = parse_destination_url(u.as_str(), "streamUrl") {
        return Err(e);
    }
    let k = match required(stream_key, "streamKey") {
        Ok(k) => k,
        Err(e) => {
            return Err(e);
        },
    };
    Ok((p, u, k))
}

/// The first thing wrong with a channel update: a new stream URL must be a
/// destination, and a new key must not be blank.
pub open spec fn channel_update_problem(stream_url: Option<Seq<char>>, stream_key: Option<Seq<char>>) -> Option<
    Seq<char>,
> {
    match stream_url {
        Some(u) if destination_url_problem(u, "streamUrl"@).is_some() => destination_url_problem(u, "streamUrl"@),
        _ => match stream_key {
            Some(k) if trimmed(k).len() == 0 => Some("streamKey cannot be empty; omit it to keep the existing key"@),
            _ => None,
        },
    }
}

/// Checks a channel update.
pub fn check_channel_update(stream_url: Option<&str>, stream_key: Option<&str>) -> (r: Result<(), ApiError>)
    ensures
        match channel_update_problem(
            match stream_url {
                Some(u) => Some(u@),
                None => None,
            },
            match stream_key {
                Some(k) => Some(k@),
                None => None,
            },
        ) {
            Some(m) => r matches Err(e) && is_bad_request(e, m),
            None => r is Ok,
        },
{
    if let Some(u) = stream_url {
        if let Err(e) = parse_destination_url(u, "streamUrl") {
            return Err(e);
        }
    }
    if let Some(k) = stream_key {
        let chars = chars_of(k);
        if trim_chars(&chars).len() == 0 {
            return Err(bad_request(owned("streamKey cannot be empty; omit it to keep the existing key")));
        }
    }
    Ok(())
}

/// The name of a new channel: the one given, else `New channel`.
pub fn channel_display_name(display_name: Option<String>) -> (r: String)
    ensures
        r@ == match display_name {
            Some(n) => n@,
            None => "New channel"@,
        },
{
    match display_name {
        Some(n) => n,
        None => owned("New channel"),
    }
}

} // verus!
