//! The streams being relayed and the destinations they go to, with the
//! events each change announces.

use vstd::prelude::*;

use crate::fresh::{new_uuid_v4, now};
use crate::relay::config::{PlatformEvent, PlatformEventView, platform_id_from, platform_id_of};
use crate::text::{owned, str_eq};
use crate::weburl::{UrlParts, url_parse};

verus! {

/// Where a stream stands.
#[derive(Debug, Clone, PartialEq, Eq)]
pub enum StreamStatus {
    Idle,
    Live,
    Error(String),
}

impl Default for StreamStatus {
    fn default() -> (s: Self)
        ensures
            s == StreamStatus::Idle,
    {
        StreamStatus::Idle
    }
}

/// A stream coming in.
#[derive(Debug, Clone)]
pub struct StreamInfo {
    pub id: String,
    pub name: String,
    pub input_url: String,
    pub status: StreamStatus,
    pub started_at: Option<u64>,
    pub viewers: u32,
    pub bitrate: u64,
}

/// A destination managed through the HTTP API.
#[derive(Debug, Clone)]
pub struct Platform {
    pub id: String,
    pub name: String,
    pub url: String,
    pub key: String,
    pub enabled: bool,
}

/// What happened to a stream.
#[derive(Debug, Clone)]
pub enum StreamEvent {
    Started { id: String, name: String, input_url: String },
    Stopped { id: String },
    Updated { id: String, viewers: u32, bitrate: u64 },
    Error { id: String, message: String },
}

/// The value of a `StreamEvent`.
pub enum StreamEventView {
    Started { id: Seq<char>, name: Seq<char>, input_url: Seq<char> },
    Stopped { id: Seq<char> },
    Updated { id: Seq<char>, viewers: u32, bitrate: u64 },
    Error { id: Seq<char>, message: Seq<char> },
}

impl View for StreamEvent {
    type V = StreamEventView;

    open spec fn view(&self) -> StreamEventView {
        match *self {
            StreamEvent::Started { id, name, input_url } => StreamEventView::Started {
                id: id@,
                name: name@,
                input_url: input_url@,
            },
            StreamEvent::Stopped { id } => StreamEventView::Stopped { id: id@ },
            StreamEvent::Updated { id, viewers, bitrate } => StreamEventView::Updated { id: id@, viewers, bitrate },
            StreamEvent::Error { id, message } => StreamEventView::Error { id: id@, message: message@ },
        }
    }
}

impl DeepView for StreamEvent {
    type V = StreamEventView;

    open spec fn deep_view(&self) -> StreamEventView {
        self@
    }
}

impl StreamStatus {
    /// A copy of the status.
    pub fn duplicate(&self) -> (r: StreamStatus)
        ensures
            r == *self,
    {
        match self {
            StreamStatus::Idle => StreamStatus::Idle,
            StreamStatus::Live => StreamStatus::Live,
            StreamStatus::Error(m) => StreamStatus::Error(m.clone()),
        }
    }
}

impl StreamInfo {
    /// A copy with the same fields.
    pub fn duplicate(&self) -> (r: StreamInfo)
        ensures
            r == *self,
    {
        StreamInfo {
            id: self.id.clone(),
            name: self.name.clone(),
            input_url: self.input_url.clone(),
            status: self.status.duplicate(),
            started_at: self.started_at,
            viewers: self.viewers,
            bitrate: self.bitrate,
        }
    }
}

impl Platform {
    /// A copy with the same fields.
    pub fn duplicate(&self) -> (r: Platform)
        ensures
            r == *self,
    {
        Platform {
            id: self.id.clone(),
            name: self.name.clone(),
            url: self.url.clone(),
            key: self.key.clone(),
            enabled: self.enabled,
        }
    }
}

/// The relay identifier of a destination: the digest of its URL and key.
pub open spec fn relay_id(p: Platform) -> Seq<char> {
    platform_id_of(p.url@, p.key@)
}

/// Holds of a stream whose identifier is not `id`.
pub open spec fn stream_other_than(id: Seq<char>) -> spec_fn(StreamInfo) -> bool {
    |s: StreamInfo| s.id@ != id
}

/// Holds of a destination whose identifier is not `id`.
pub open spec fn platform_other_than(id: Seq<char>) -> spec_fn(Platform) -> bool {
    |p: Platform| p.id@ != id
}

/// The first index from `i` on of a stream with identifier `id`, or -1.
pub open spec fn stream_at(ss: Seq<StreamInfo>, id: Seq<char>, i: int) -> int
    decreases ss.len() - i,
{
    if i < 0 || i >= ss.len() {
        -1
    } else if ss[i].id@ == id {
        i
    } else {
        stream_at(ss, id, i + 1)
    }
}

/// The first index from `i` on of a destination with identifier `id`, or -1.
pub open spec fn platform_at(ps: Seq<Platform>, id: Seq<char>, i: int) -> int
    decreases ps.len() - i,
{
    if i < 0 || i >= ps.len() {
        -1
    } else if ps[i].id@ == id {
        i
    } else {
        platform_at(ps, id, i + 1)
    }
}

/// The first index from `i` on of a destination with relay identifier
/// `pid`, or -1.
pub open spec fn platform_with_relay_id(ps: Seq<Platform>, pid: Seq<char>, i: int) -> int
    decreases ps.len() - i,
{
    if i < 0 || i >= ps.len() {
        -1
    } else if relay_id(ps[i]) == pid {
        i
    } else {
        platform_with_relay_id(ps, pid, i + 1)
    }
}

/// The stream a new live stream starts as.
pub open spec fn started_stream(id: String, now: u64, name: String, input_url: String) -> StreamInfo {
    StreamInfo {
        id,
        name,
        input_url,
        status: StreamStatus::Live,
        started_at: Some(now),
        viewers: 0,
        bitrate: 0,
    }
}

/// The destination a new one starts as: enabled.
pub open spec fn new_platform(id: String, name: String, url: String, key: String) -> Platform {
    Platform { id, name, url, key, enabled: true }
}

/// The destination list after `id` is switched on or off.
pub open spec fn toggled(ps: Seq<Platform>, id: Seq<char>, enabled: bool) -> Seq<Platform> {
    let k = platform_at(ps, id, 0);
    if k == -1 {
        ps
    } else {
        ps.update(k, Platform { id: ps[k].id, name: ps[k].name, url: ps[k].url, key: ps[k].key, enabled })
    }
}

/// What switching `id` on or off announces.
pub open spec fn toggle_events(ps: Seq<Platform>, id: Seq<char>, enabled: bool) -> Seq<PlatformEventView> {
    let k = platform_at(ps, id, 0);
    if k == -1 {
        seq![]
    } else {
        seq![PlatformEventView::Toggled { platform_id: relay_id(ps[k]), url: ps[k].url@, key: ps[k].key@, enabled }]
    }
}

/// What removing `id` announces: the relay identifier of the first
/// destination with that identifier.
pub open spec fn removal_events(ps: Seq<Platform>, id: Seq<char>) -> Seq<PlatformEventView> {
    let k = platform_at(ps, id, 0);
    if k == -1 {
        seq![]
    } else {
        seq![PlatformEventView::Removed { platform_id: relay_id(ps[k]) }]
    }
}

/// A destination with the given fields replaced.
pub open spec fn edited(
    p: Platform,
    name: Option<String>,
    url: Option<String>,
    key: Option<String>,
    enabled: Option<bool>,
) -> Platform {
    Platform {
        id: p.id,
        name: match name {
            Some(n) => n,
            None => p.name,
        },
        url: match url {
            Some(u) => u,
            None => p.url,
        },
        key: match key {
            Some(k) => k,
            None => p.key,
        },
        enabled: match enabled {
            Some(e) => e,
            None => p.enabled,
        },
    }
}

/// What an edit announces. A new URL or key is a new destination: the old
/// one is removed and, when enabled, the new one added. Otherwise a change
/// of the enabled flag, or an explicit one, is announced as a toggle.
pub open spec fn edit_events(before: Platform, after: Platform, enabled_given: bool) -> Seq<PlatformEventView> {
    let prev = relay_id(before);
    let cur = relay_id(after);
    if prev != cur {
        if after.enabled {
            seq![
                PlatformEventView::Removed { platform_id: prev },
                PlatformEventView::Added { platform_id: cur, url: after.url@, key: after.key@ },
            ]
        } else {
            seq![PlatformEventView::Removed { platform_id: prev }]
        }
    } else if enabled_given || before.enabled != after.enabled {
        seq![PlatformEventView::Toggled { platform_id: cur, url: after.url@, key: after.key@, enabled: after.enabled }]
    } else {
        seq![]
    }
}

/// The host of a URL, or "custom destination" when it has none or does
/// not parse.
pub open spec fn host_name_of(url: Seq<char>) -> Seq<char> {
    match url_parse(url) {
        Some(u) => match u.host {
            Some(h) => h,
            None => "custom destination"@,
        },
        None => "custom destination"@,
    }
}

/// The name given to a destination that arrives by event: its URL's host.
pub fn url_host_name(url: &str) -> (r: String)
    ensures
        r@ == host_name_of(url@),
{
    match UrlParts::parse(url) {
        Some(u) => match u.host {
            Some(h) => h,
            None => owned("custom destination"),
        },
        None => owned("custom destination"),
    }
}

fn stream_index(streams: &Vec<StreamInfo>, id: &str) -> (r: Option<usize>)
    ensures
        match r {
            Some(i) => i < streams@.len() && stream_at(streams@, id@, 0) == i,
            None => stream_at(streams@, id@, 0) == -1,
        },
{
    let n = streams.len();
    for i in 0..n
        invariant
            n == streams@.len(),
            stream_at(streams@, id@, 0) == stream_at(streams@, id@, i as int),
    {
        if str_eq(streams[i].id.as_str(), id) {
            return Some(i);
        }
    }
    None
}

fn platform_index(platforms: &Vec<Platform>, id: &str) -> (r: Option<usize>)
    ensures
        match r {
            Some(i) => i < platforms@.len() && platform_at(platforms@, id@, 0) == i,
            None => platform_at(platforms@, id@, 0) == -1,
        },
{
    let n = platforms.len();
    for i in 0..n
        invariant
            n == platforms@.len(),
            platform_at(platforms@, id@, 0) == platform_at(platforms@, id@, i as int),
    {
        if str_eq(platforms[i].id.as_str(), id) {
            return Some(i);
        }
    }
    None
}

fn platform_relay_index(platforms: &Vec<Platform>, pid: &str) -> (r: Option<usize>)
    ensures
        match r {
            Some(i) => i < platforms@.len() && platform_with_relay_id(platforms@, pid@, 0) == i,
            None => platform_with_relay_id(platforms@, pid@, 0) == -1,
        },
{
    let n = platforms.len();
    for i in 0..n
        invariant
            n == platforms@.len(),
            platform_with_relay_id(platforms@, pid@, 0) == platform_with_relay_id(platforms@, pid@, i as int),
    {
        let p = &platforms[i];
        let rid = platform_id_from(p.url.as_str(), p.key.as_str());
        if str_eq(rid.as_str(), pid) {
            return Some(i);
        }
    }
    None
}

proof fn lemma_stream_at_found(ss: Seq<StreamInfo>, id: Seq<char>, i: int)
    requires
        0 <= i,
    ensures
        stream_at(ss, id, i) != -1 <==> exists|j: int| i <= j < ss.len() && #[trigger] ss[j].id@ == id,
        stream_at(ss, id, i) != -1 ==> i <= stream_at(ss, id, i) < ss.len() && ss[stream_at(ss, id, i)].id@ == id,
    decreases ss.len() - i,
{
    if i < ss.len() {
        lemma_stream_at_found(ss, id, i + 1);
    }
}

proof fn lemma_platform_at_found(ps: Seq<Platform>, id: Seq<char>, i: int)
    requires
        0 <= i,
    ensures
        platform_at(ps, id, i) != -1 <==> exists|j: int| i <= j < ps.len() && #[trigger] ps[j].id@ == id,
        platform_at(ps, id, i) != -1 ==> i <= platform_at(ps, id, i) < ps.len() && ps[platform_at(ps, id, i)].id@
            == id,
    decreases ps.len() - i,
{
    if i < ps.len() {
        lemma_platform_at_found(ps, id, i + 1);
    }
}

proof fn lemma_relay_at_found(ps: Seq<Platform>, pid: Seq<char>, i: int)
    requires
        0 <= i,
    ensures
        platform_with_relay_id(ps, pid, i) != -1 <==> exists|j: int| i <= j < ps.len() && relay_id(#[trigger] ps[j]) == pid,
        platform_with_relay_id(ps, pid, i) != -1 ==> i <= platform_with_relay_id(ps, pid, i) < ps.len()
            && relay_id(ps[platform_with_relay_id(ps, pid, i)]) == pid,
    decreases ps.len() - i,
{
    if i < ps.len() {
        lemma_relay_at_found(ps, pid, i + 1);
    }
}

/// The streams and destinations the HTTP side manages. Each change that
/// the API makes is announced by appending events to an outbox the caller
/// passes in.
pub struct StreamManager {
    streams: Vec<StreamInfo>,
    platforms: Vec<Platform>,
}

impl StreamManager {
    /// The streams, in the order they were added.
    pub closed spec fn stream_list(&self) -> Seq<StreamInfo> {
        self.streams@
    }

    /// The destinations, in the order they were added.
    pub closed spec fn platform_list(&self) -> Seq<Platform> {
        self.platforms@
    }

    /// A manager with no streams and no destinations.
    pub fn new() -> (m: StreamManager)
        ensures
            m.stream_list().len() == 0,
            m.platform_list().len() == 0,
    {
        StreamManager { streams: Vec::new(), platforms: Vec::new() }
    }

    /// Records a live stream under `id`, started at `now`, and announces it.
    pub fn insert_stream(
        &mut self,
        id: String,
        now: u64,
        name: String,
        input_url: String,
        events: &mut Vec<StreamEvent>,
    )
        ensures
            final(self).stream_list() == old(self).stream_list().push(started_stream(id, now, name, input_url)),
            final(self).platform_list() == old(self).platform_list(),
            final(events).deep_view() == old(events).deep_view().push(
                StreamEventView::Started { id: id@, name: name@, input_url: input_url@ },
            ),
    {
        let ev = StreamEvent::Started { id: id.clone(), name: name.clone(), input_url: input_url.clone() };
        self.streams.push(
            StreamInfo { id, name, input_url, status: StreamStatus::Live, started_at: Some(now), viewers: 0, bitrate: 0 },
        );
        events.push(ev);
        proof {
            assert(final(events).deep_view() =~= old(events).deep_view().push(ev@));
        }
    }

    /// Records a live stream under a fresh identifier, started now, and
    /// announces it; returns the identifier.
    pub fn add_stream(&mut self, name: String, input_url: String, events: &mut Vec<StreamEvent>) -> (id: String)
        ensures
            id@.len() == 36,
            exists|now: u64|
                final(self).stream_list() == old(self).stream_list().push(
                    #[trigger] started_stream(id, now, name, input_url),
                ),
            final(self).platform_list() == old(self).platform_list(),
            final(events).deep_view() == old(events).deep_view().push(
                StreamEventView::Started { id: id@, name: name@, input_url: input_url@ },
            ),
    {
        let id = new_uuid_v4();
        let now = now();
        self.insert_stream(id.clone(), now, name, input_url, events);
        proof {
            assert(final(self).stream_list() == old(self).stream_list().push(started_stream(id, now, name, input_url)));
        }
        id
    }

    /// Drops every stream with identifier `id`; true, and a `Stopped` event,
    /// when there was one.
    pub fn remove_stream(&mut self, id: &str, events: &mut Vec<StreamEvent>) -> (removed: bool)
        ensures
            removed == exists|j: int| 0 <= j < old(self).stream_list().len() && #[trigger] old(self).stream_list()[j].id@ == id@,
            final(self).stream_list() == old(self).stream_list().filter(stream_other_than(id@)),
            final(self).platform_list() == old(self).platform_list(),
            final(events).deep_view() == if removed {
                old(events).deep_view().push(StreamEventView::Stopped { id: id@ })
            } else {
                old(events).deep_view()
            },
    {
        let ghost before = self.streams@;
        let ghost pred = stream_other_than(id@);
        let mut kept: Vec<StreamInfo> = Vec::new();
        let n = self.streams.len();
        let mut removed = false;
        for i in 0..n
            invariant
                n == before.len(),
                self.streams@ == before,
                pred == stream_other_than(id@),
                kept@ == before.subrange(0, i as int).filter(pred),
                removed == exists|j: int| 0 <= j < i && #[trigger] before[j].id@ == id@,
        {
            let ghost prev = kept@;
            let same = str_eq(self.streams[i].id.as_str(), id);
            if same {
                removed = true;
            } else {
                kept.push(self.streams[i].duplicate());
            }
            proof {
                reveal(Seq::filter);
                let s = before.subrange(0, i + 1);
                assert(s.drop_last() =~= before.subrange(0, i as int));
                assert(s.last() == before[i as int]);
                assert(pred(s.last()) == !same);
                assert(s.filter(pred) == if pred(s.last()) { prev.push(s.last()) } else { prev });
                assert(kept@ =~= s.filter(pred));
            }
        }
        proof {
            assert(before.subrange(0, n as int) =~= before);
        }
        self.streams = kept;
        if removed {
            let ev = StreamEvent::Stopped { id: owned(id) };
            events.push(ev);
            proof {
                assert(final(events).deep_view() =~= old(events).deep_view().push(ev@));
            }
        }
        removed
    }

    /// Copies of the streams.
    pub fn get_streams(&self) -> (r: Vec<StreamInfo>)
        ensures
            r@ == self.stream_list(),
    {
        let mut r: Vec<StreamInfo> = Vec::new();
        let n = self.streams.len();
        for i in 0..n
            invariant
                n == self.streams@.len(),
                r@ == self.streams@.subrange(0, i as int),
        {
            r.push(self.streams[i].duplicate());
            proof {
                assert(r@ =~= self.streams@.subrange(0, i + 1));
            }
        }
        proof {
            assert(self.streams@.subrange(0, n as int) =~= self.streams@);
        }
        r
    }

    /// Sets the status of the first stream with identifier `id`.
    pub fn update_status(&mut self, id: &str, status: StreamStatus)
        ensures
            ({
                let k = stream_at(old(self).stream_list(), id@, 0);
                let ss = old(self).stream_list();
                final(self).stream_list() == if k == -1 {
                    ss
                } else {
                    ss.update(
                        k,
                        StreamInfo {
                            id: ss[k].id,
                            name: ss[k].name,
                            input_url: ss[k].input_url,
                            status,
                            started_at: ss[k].started_at,
                            viewers: ss[k].viewers,
                            bitrate: ss[k].bitrate,
                        },
                    )
                }
            }),
            final(self).platform_list() == old(self).platform_list(),
    {
        if let Some(k) = stream_index(&self.streams, id) {
            let mut s = self.streams[k].duplicate();
            s.status = status;
            self.streams.set(k, s);
        }
    }

    /// Sets the viewer count and bitrate of the first stream with
    /// identifier `id`, and announces them.
    pub fn update_stream_stats(&mut self, id: &str, viewers: u32, bitrate: u64, events: &mut Vec<StreamEvent>)
        ensures
            ({
                let k = stream_at(old(self).stream_list(), id@, 0);
                let ss = old(self).stream_list();
                &&& final(self).stream_list() == if k == -1 {
                    ss
                } else {
                    ss.update(
                        k,
                        StreamInfo {
                            id: ss[k].id,
                            name: ss[k].name,
                            input_url: ss[k].input_url,
                            status: ss[k].status,
                            started_at: ss[k].started_at,
                            viewers,
                            bitrate,
                        },
                    )
                }
                &&& final(events).deep_view() == if k == -1 {
                    old(events).deep_view()
                } else {
                    old(events).deep_view().push(StreamEventView::Updated { id: id@, viewers, bitrate })
                }
            }),
            final(self).platform_list() == old(self).platform_list(),
    {
        if let Some(k) = stream_index(&self.streams, id) {
            let mut s = self.streams[k].duplicate();
            s.viewers = viewers;
            s.bitrate = bitrate;
            self.streams.set(k, s);
            let ev = StreamEvent::Updated { id: owned(id), viewers, bitrate };
            events.push(ev);
            proof {
                assert(final(events).deep_view() =~= old(events).deep_view().push(ev@));
            }
        }
    }

    /// Records an enabled destination under `id` and announces it to the
    /// relay.
    pub fn insert_platform(
        &mut self,
        id: String,
        name: String,
        url: String,
        key: String,
        events: &mut Vec<PlatformEvent>,
    )
        ensures
            final(self).platform_list() == old(self).platform_list().push(new_platform(id, name, url, key)),
            final(self).stream_list() == old(self).stream_list(),
            final(events).deep_view() == old(events).deep_view().push(
                PlatformEventView::Added { platform_id: platform_id_of(url@, key@), url: url@, key: key@ },
            ),
    {
        let pid = platform_id_from(url.as_str(), key.as_str());
        let ev = PlatformEvent::Added { platform_id: pid, url: url.clone(), key: key.clone() };
        self.platforms.push(Platform { id, name, url, key, enabled: true });
        events.push(ev);
        proof {
            assert(final(events).deep_view() =~= old(events).deep_view().push(ev@));
        }
    }

    /// Records an enabled destination under a fresh identifier and
    /// announces it; returns the identifier.
    pub fn add_platform(&mut self, name: String, url: String, key: String, events: &mut Vec<PlatformEvent>) -> (id: String)
        ensures
            id@.len() == 36,
            final(self).platform_list() == old(self).platform_list().push(new_platform(id, name, url, key)),
            final(self).stream_list() == old(self).stream_list(),
            final(events).deep_view() == old(events).deep_view().push(
                PlatformEventView::Added { platform_id: platform_id_of(url@, key@), url: url@, key: key@ },
            ),
    {
        let id = new_uuid_v4();
        self.insert_platform(id.clone(), name, url, key, events);
        id
    }

    /// Drops every destination with identifier `id`; true, and a `Removed`
    /// event for the first of them, when there was one.
    pub fn remove_platform(&mut self, id: &str, events: &mut Vec<PlatformEvent>) -> (removed: bool)
        ensures
            removed == (platform_at(old(self).platform_list(), id@, 0) != -1),
            final(self).platform_list() == old(self).platform_list().filter(platform_other_than(id@)),
            final(self).stream_list() == old(self).stream_list(),
            final(events).deep_view() == old(events).deep_view() + removal_events(old(self).platform_list(), id@),
    {
        let ghost before = self.platforms@;
        let ghost pred = platform_other_than(id@);
        let first = platform_index(&self.platforms, id);
        let mut kept: Vec<Platform> = Vec::new();
        let n = self.platforms.len();
        for i in 0..n
            invariant
                n == before.len(),
                self.platforms@ == before,
                pred == platform_other_than(id@),
                kept@ == before.subrange(0, i as int).filter(pred),
        {
            if !str_eq(self.platforms[i].id.as_str(), id) {
                kept.push(self.platforms[i].duplicate());
            }
            proof {
                reveal(Seq::filter);
                let s = before.subrange(0, i + 1);
                assert(s.drop_last() =~= before.subrange(0, i as int));
                assert(s.last() == before[i as int]);
                assert(kept@ =~= s.filter(pred));
            }
        }
        proof {
            assert(before.subrange(0, n as int) =~= before);
            lemma_platform_at_found(before, id@, 0);
        }
        match first {
            Some(k) => {
                let p = &self.platforms[k];
                let pid = platform_id_from(p.url.as_str(), p.key.as_str());
                self.platforms = kept;
                let ev = PlatformEvent::Removed { platform_id: pid };
                events.push(ev);
                proof {
                    assert(final(events).deep_view() =~= old(events).deep_view() + removal_events(before, id@));
                }
                true
            },
            None => {
                self.platforms = kept;
                proof {
                    assert(old(events).deep_view() + removal_events(before, id@) =~= old(events).deep_view());
                }
                false
            },
        }
    }

    /// Copies of the destinations.
    pub fn get_platforms(&self) -> (r: Vec<Platform>)
        ensures
            r@ == self.platform_list(),
    {
        let mut r: Vec<Platform> = Vec::new();
        let n = self.platforms.len();
        for i in 0..n
            invariant
                n == self.platforms@.len(),
                r@ == self.platforms@.subrange(0, i as int),
        {
            r.push(self.platforms[i].duplicate());
            proof {
                assert(r@ =~= self.platforms@.subrange(0, i + 1));
            }
        }
        proof {
            assert(self.platforms@.subrange(0, n as int) =~= self.platforms@);
        }
        r
    }

    /// Switches the first destination with identifier `id` on or off and
    /// announces it.
    pub fn toggle_platform(&mut self, id: &str, enabled: bool, events: &mut Vec<PlatformEvent>)
        ensures
            final(self).platform_list() == toggled(old(self).platform_list(), id@, enabled),
            final(self).stream_list() == old(self).stream_list(),
            final(events).deep_view() == old(events).deep_view() + toggle_events(old(self).platform_list(), id@, enabled),
    {
        match platform_index(&self.platforms, id) {
            Some(k) => {
                let mut p = self.platforms[k].duplicate();
                p.enabled = enabled;
                let pid = platform_id_from(p.url.as_str(), p.key.as_str());
                let ev = PlatformEvent::Toggled { platform_id: pid, url: p.url.clone(), key: p.key.clone(), enabled };
                self.platforms.set(k, p);
                events.push(ev);
                proof {
                    assert(final(events).deep_view() =~= old(events).deep_view() + toggle_events(
                        old(self).platform_list(),
                        id@,
                        enabled,
                    ));
                }
            },
            None => {
                proof {
                    assert(old(events).deep_view() + toggle_events(old(self).platform_list(), id@, enabled)
                        =~= old(events).deep_view());
                }
            },
        }
    }

    /// Edits the first destination with identifier `id`: each field given
    /// is replaced. Returns whether there was one; the change is announced
    /// as `edit_events` says.
    pub fn update_platform(
        &mut self,
        id: &str,
        name: Option<String>,
        url: Option<String>,
        key: Option<String>,
        enabled: Option<bool>,
        events: &mut Vec<PlatformEvent>,
    ) -> (found: bool)
        ensures
            ({
                let ps = old(self).platform_list();
                let k = platform_at(ps, id@, 0);
                &&& found == (k != -1)
                &&& final(self).platform_list() == if k == -1 {
                    ps
                } else {
                    ps.update(k, edited(ps[k], name, url, key, enabled))
                }
                &&& final(events).deep_view() == if k == -1 {
                    old(events).deep_view()
                } else {
                    old(events).deep_view() + edit_events(ps[k], edited(ps[k], name, url, key, enabled), enabled.is_some())
                }
            }),
            final(self).stream_list() == old(self).stream_list(),
    {
        let ghost ps = self.platforms@;
        match platform_index(&self.platforms, id) {
            Some(k) => {
                let before = self.platforms[k].duplicate();
                let mut p = self.platforms[k].duplicate();
                let previous_id = platform_id_from(p.url.as_str(), p.key.as_str());
                let previous_enabled = p.enabled;
                if let Some(n) = name {
                    p.name = n;
                }
                if let Some(u) = url {
                    p.url = u;
                }
                if let Some(kk) = key {
                    p.key = kk;
                }
                if let Some(e) = enabled {
                    p.enabled = e;
                }
                let current_id = platform_id_from(p.url.as_str(), p.key.as_str());
                let current_enabled = p.enabled;
                let changed = !str_eq(previous_id.as_str(), current_id.as_str());
                let ghost after = p;
                let ghost start = events.deep_view();
                if changed {
                    events.push(PlatformEvent::Removed { platform_id: previous_id });
                    if current_enabled {
                        events.push(PlatformEvent::Added { platform_id: current_id, url: p.url.clone(), key: p.key.clone() });
                    }
                } else if enabled.is_some() || previous_enabled != current_enabled {
                    events.push(
                        PlatformEvent::Toggled {
                            platform_id: current_id,
                            url: p.url.clone(),
                            key: p.key.clone(),
                            enabled: current_enabled,
                        },
                    );
                }
                proof {
                    assert(after == edited(before, name, url, key, enabled));
                    assert(events.deep_view() =~= start + edit_events(before, after, enabled.is_some()));
                }
                self.platforms.set(k, p);
                true
            },
            None => false,
        }
    }

    /// Applies a destination change that arrives from the product API:
    /// `Added` creates a destination, named after the URL's host, unless one
    /// with the relay identifier exists; `Removed` and `Toggled` act on the
    /// first destination with the relay identifier, if any.
    pub fn apply_platform_event(&mut self, event: PlatformEvent, events: &mut Vec<PlatformEvent>)
        ensures
            final(self).stream_list() == old(self).stream_list(),
            ({
                let ps = old(self).platform_list();
                match event {
                    PlatformEvent::Added { platform_id, url, key } => {
                        if platform_with_relay_id(ps, platform_id@, 0) != -1 {
                            &&& final(self).platform_list() == ps
                            &&& final(events).deep_view() == old(events).deep_view()
                        } else {
                            let q = final(self).platform_list().last();
                            &&& final(self).platform_list() == ps.push(q)
                            &&& q.id@.len() == 36
                            &&& q.name@ == host_name_of(url@)
                            &&& q.url == url
                            &&& q.key == key
                            &&& q.enabled
                            &&& final(events).deep_view() == old(events).deep_view().push(
                                PlatformEventView::Added { platform_id: platform_id_of(url@, key@), url: url@, key: key@ },
                            )
                        }
                    },
                    PlatformEvent::Removed { platform_id } => {
                        let j = platform_with_relay_id(ps, platform_id@, 0);
                        if j == -1 {
                            &&& final(self).platform_list() == ps
                            &&& final(events).deep_view() == old(events).deep_view()
                        } else {
                            &&& final(self).platform_list() == ps.filter(platform_other_than(ps[j].id@))
                            &&& final(events).deep_view() == old(events).deep_view() + removal_events(ps, ps[j].id@)
                        }
                    },
                    PlatformEvent::Toggled { platform_id, enabled, .. } => {
                        let j = platform_with_relay_id(ps, platform_id@, 0);
                        if j == -1 {
                            &&& final(self).platform_list() == ps
                            &&& final(events).deep_view() == old(events).deep_view()
                        } else {
                            &&& final(self).platform_list() == toggled(ps, ps[j].id@, enabled)
                            &&& final(events).deep_view() == old(events).deep_view() + toggle_events(ps, ps[j].id@, enabled)
                        }
                    },
                }
            }),
    {
        let ghost ps = self.platforms@;
        match event {
            PlatformEvent::Added { platform_id, url, key } => {
                if platform_relay_index(&self.platforms, platform_id.as_str()).is_none() {
                    let name = url_host_name(url.as_str());
                    self.add_platform(name, url, key, events);
                }
            },
            PlatformEvent::Removed { platform_id } => {
                if let Some(j) = platform_relay_index(&self.platforms, platform_id.as_str()) {
                    let id = self.platforms[j].id.clone();
                    self.remove_platform(id.as_str(), events);
                }
            },
            PlatformEvent::Toggled { platform_id, enabled, .. } => {
                if let Some(j) = platform_relay_index(&self.platforms, platform_id.as_str()) {
                    let id = self.platforms[j].id.clone();
                    self.toggle_platform(id.as_str(), enabled, events);
                }
            },
        }
    }
}

/// After a removal no destination with that identifier is left.
pub proof fn law_removed_platform_gone(ps: Seq<Platform>, id: Seq<char>)
    ensures
        forall|i: int|
            0 <= i < ps.filter(platform_other_than(id)).len() ==> (#[trigger] ps.filter(platform_other_than(id))[i]).id@
                != id,
{
    assert forall|i: int| 0 <= i < ps.filter(platform_other_than(id)).len() implies (#[trigger] ps.filter(
        platform_other_than(id),
    )[i]).id@ != id by {
        ps.lemma_filter_pred(platform_other_than(id), i);
    }
}

/// Removing a destination just added under a fresh identifier gives the
/// list back as it was, and announces the relay identifier its addition
/// announced.
pub proof fn law_add_then_remove_platform(ps: Seq<Platform>, id: String, name: String, url: String, key: String)
    requires
        forall|i: int| 0 <= i < ps.len() ==> (#[trigger] ps[i]).id@ != id@,
    ensures
        ps.push(new_platform(id, name, url, key)).filter(platform_other_than(id@)) == ps,
        removal_events(ps.push(new_platform(id, name, url, key)), id@) == seq![
            PlatformEventView::Removed { platform_id: platform_id_of(url@, key@) },
        ],
{
    let q = new_platform(id, name, url, key);
    let all = ps.push(q);
    lemma_filter_keeps_all(ps, id@);
    reveal(Seq::filter);
    assert(all.drop_last() =~= ps);
    assert(platform_at(all, id@, 0) == ps.len()) by {
        lemma_platform_at_skips(all, id@, 0, ps.len() as int);
    }
}

proof fn lemma_filter_keeps_all(ps: Seq<Platform>, id: Seq<char>)
    requires
        forall|i: int| 0 <= i < ps.len() ==> (#[trigger] ps[i]).id@ != id,
    ensures
        ps.filter(platform_other_than(id)) == ps,
    decreases ps.len(),
{
    reveal(Seq::filter);
    if ps.len() > 0 {
        let prefix = ps.drop_last();
        assert forall|i: int| 0 <= i < prefix.len() implies (#[trigger] prefix[i]).id@ != id by {
            assert(prefix[i] == ps[i]);
        }
        lemma_filter_keeps_all(prefix, id);
        assert(ps.last().id@ != id);
        assert(prefix.push(ps.last()) =~= ps);
    }
}

proof fn lemma_platform_at_skips(ps: Seq<Platform>, id: Seq<char>, i: int, k: int)
    requires
        0 <= i <= k < ps.len(),
        ps[k].id@ == id,
        forall|j: int| i <= j < k ==> (#[trigger] ps[j]).id@ != id,
    ensures
        platform_at(ps, id, i) == k,
    decreases k - i,
{
    if i < k {
        lemma_platform_at_skips(ps, id, i + 1, k);
    }
}

/// Switching a destination twice leaves it as the second switch says.
pub proof fn law_toggle_last_wins(ps: Seq<Platform>, id: Seq<char>, first: bool, second: bool)
    ensures
        toggled(toggled(ps, id, first), id, second) == toggled(ps, id, second),
{
    let k = platform_at(ps, id, 0);
    if k != -1 {
        lemma_platform_at_found(ps, id, 0);
        let once = toggled(ps, id, first);
        assert forall|j: int| 0 <= j < once.len() implies (#[trigger] once[j]).id == ps[j].id by {}
        lemma_same_ids_same_index(ps, once, id, 0);
        assert(toggled(once, id, second) =~= toggled(ps, id, second));
    }
}

proof fn lemma_same_ids_same_index(a: Seq<Platform>, b: Seq<Platform>, id: Seq<char>, i: int)
    requires
        a.len() == b.len(),
        forall|j: int| 0 <= j < b.len() ==> (#[trigger] b[j]).id == a[j].id,
    ensures
        platform_at(a, id, i) == platform_at(b, id, i),
    decreases a.len() - i,
{
    if 0 <= i < a.len() {
        assert(b[i].id == a[i].id);
        lemma_same_ids_same_index(a, b, id, i + 1);
    }
}

} // verus!
