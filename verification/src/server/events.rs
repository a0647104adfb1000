//! The life of an event: scheduling, going live, ending, cancelling, and
//! the audience figures recorded while it runs.

use vstd::prelude::*;

use vstd::string::StringExecFns;

use crate::fresh::{new_uuid_v4, now};
use crate::server::restream::{
    AnalyticsReport, DestinationAnalytics, Event, EventStatus, IngestCredentials, StreamType, ViewerSample, clone_strings, clone_opt};
use crate::server::schedule::{scheduled_epoch, scheduled_seconds};
use crate::text::{join2, owned, str_eq};

verus! {

/// Two events with the same fields.
pub open spec fn same_event(a: Event, b: Event) -> bool {
    &&& a.id == b.id
    &&& a.draft_id == b.draft_id
    &&& a.stream_type == b.stream_type
    &&& a.title == b.title
    &&& a.description == b.description
    &&& a.status == b.status
    &&& a.scheduled_for == b.scheduled_for
    &&& a.created_at == b.created_at
    &&& a.updated_at == b.updated_at
    &&& a.started_at == b.started_at
    &&& a.ended_at == b.ended_at
    &&& a.duration_seconds == b.duration_seconds
    &&& a.destination_ids@ == b.destination_ids@
    &&& a.source_file_id == b.source_file_id
    &&& a.loops_count == b.loops_count
    &&& a.guest_link == b.guest_link
    &&& a.ingest == b.ingest
    &&& a.recording_file_id == b.recording_file_id
    &&& a.current_viewers == b.current_viewers
    &&& a.peak_viewers == b.peak_viewers
    &&& a.chat_message_count == b.chat_message_count
}


impl IngestCredentials {
    /// A copy with the same fields.
    pub fn duplicate(&self) -> (r: IngestCredentials)
        ensures
            r == *self,
    {
        IngestCredentials {
            server_url: self.server_url.clone(),
            stream_key: self.stream_key.clone(),
            backup_server_url: clone_opt(&self.backup_server_url),
            protocol: self.protocol.clone(),
        }
    }
}

impl Event {
    /// A copy with the same fields.
    pub fn duplicate(&self) -> (r: Event)
        ensures
            same_event(r, *self),
    {
        Event {
            id: self.id.clone(),
            draft_id: clone_opt(&self.draft_id),
            stream_type: self.stream_type,
            title: self.title.clone(),
            description: self.description.clone(),
            status: self.status,
            scheduled_for: clone_opt(&self.scheduled_for),
            created_at: self.created_at,
            updated_at: self.updated_at,
            started_at: self.started_at,
            ended_at: self.ended_at,
            duration_seconds: self.duration_seconds,
            destination_ids: clone_strings(&self.destination_ids),
            source_file_id: clone_opt(&self.source_file_id),
            loops_count: self.loops_count,
            guest_link: clone_opt(&self.guest_link),
            ingest: self.ingest.duplicate(),
            recording_file_id: clone_opt(&self.recording_file_id),
            current_viewers: self.current_viewers,
            peak_viewers: self.peak_viewers,
            chat_message_count: self.chat_message_count,
        }
    }
}

/// The first index from `i` on of an event with identifier `id`, or -1.
pub open spec fn event_at(es: Seq<Event>, id: Seq<char>, i: int) -> int
    decreases es.len() - i,
{
    if i < 0 || i >= es.len() {
        -1
    } else if es[i].id@ == id {
        i
    } else {
        event_at(es, id, i + 1)
    }
}

pub(crate) fn event_index(events: &Vec<Event>, id: &str) -> (r: Option<usize>)
    ensures
        match r {
            Some(i) => i < events@.len() && event_at(events@, id@, 0) == i,
            None => event_at(events@, id@, 0) == -1,
        },
{
    let n = events.len();
    for i in 0..n
        invariant
            n == events@.len(),
            event_at(events@, id@, 0) == event_at(events@, id@, i as int),
    {
        if str_eq(events[i].id.as_str(), id) {
            return Some(i);
        }
    }
    None
}

/// Whether an event is over for good.
pub open spec fn finished(s: EventStatus) -> bool {
    s == EventStatus::Ended || s == EventStatus::Cancelled
}

/// An event gone live at `now`.
pub open spec fn gone_live(e: Event, now: u64) -> Event {
    Event { status: EventStatus::Live, started_at: Some(now), updated_at: now, ..e }
}

/// An event ended at `now`: its duration runs from its start, no viewers
/// remain.
pub open spec fn ended(e: Event, now: u64) -> Event {
    Event {
        status: EventStatus::Ended,
        ended_at: Some(now),
        updated_at: now,
        duration_seconds: match e.started_at {
            Some(s) => Some(
                if now >= s {
                    (now - s) as u64
                } else {
                    0
                },
            ),
            None => None,
        },
        current_viewers: 0,
        ..e
    }
}

/// An event cancelled at `now`.
pub open spec fn cancelled(e: Event, now: u64) -> Event {
    Event { status: EventStatus::Cancelled, updated_at: now, ..e }
}

/// Goes live with the first event with identifier `event_id`. An event that
/// is over cannot go live again; one already live is left as it is.
pub fn set_event_live(events: &mut Vec<Event>, event_id: &str, now: u64) -> (r: Option<Event>)
    ensures
        ({
            let es = old(events)@;
            let k = event_at(es, event_id@, 0);
            if k == -1 || finished(es[k].status) {
                r.is_none() && final(events)@ == es
            } else if es[k].status == EventStatus::Live {
                final(events)@ == es && (r matches Some(x) && same_event(x, es[k]))
            } else {
                final(events)@ == es.update(k, gone_live(es[k], now)) && (r matches Some(x) && same_event(
                    x,
                    gone_live(es[k], now),
                ))
            }
        }),
{
    let k = match event_index(events, event_id) {
        Some(k) => k,
        None => {
            return None;
        },
    };
    let status = events[k].status;
    if status == EventStatus::Ended || status == EventStatus::Cancelled {
        return None;
    }
    if status == EventStatus::Live {
        return Some(events[k].duplicate());
    }
    let e = &mut events[k];
    e.status = EventStatus::Live;
    e.started_at = Some(now);
    e.updated_at = now;
    Some(events[k].duplicate())
}

/// Ends the first event with identifier `event_id`, if it is live.
pub fn end_event(events: &mut Vec<Event>, event_id: &str, now: u64) -> (r: Option<Event>)
    ensures
        ({
            let es = old(events)@;
            let k = event_at(es, event_id@, 0);
            if k == -1 || es[k].status != EventStatus::Live {
                r.is_none() && final(events)@ == es
            } else {
                final(events)@ == es.update(k, ended(es[k], now)) && (r matches Some(x) && same_event(
                    x,
                    ended(es[k], now),
                ))
            }
        }),
{
    let k = match event_index(events, event_id) {
        Some(k) => k,
        None => {
            return None;
        },
    };
    if events[k].status != EventStatus::Live {
        return None;
    }
    let e = &mut events[k];
    e.status = EventStatus::Ended;
    e.ended_at = Some(now);
    e.updated_at = now;
    e.duration_seconds = match e.started_at {
        Some(s) => Some(now.saturating_sub(s)),
        None => None,
    };
    e.current_viewers = 0;
    Some(events[k].duplicate())
}

/// Cancels the first event with identifier `event_id`, whatever its state.
pub fn cancel_event(events: &mut Vec<Event>, event_id: &str, now: u64) -> (r: Option<Event>)
    ensures
        ({
            let es = old(events)@;
            let k = event_at(es, event_id@, 0);
            if k == -1 {
                r.is_none() && final(events)@ == es
            } else {
                final(events)@ == es.update(k, cancelled(es[k], now)) && (r matches Some(x) && same_event(
                    x,
                    cancelled(es[k], now),
                ))
            }
        }),
{
    let k = match event_index(events, event_id) {
        Some(k) => k,
        None => {
            return None;
        },
    };
    let e = &mut events[k];
    e.status = EventStatus::Cancelled;
    e.updated_at = now;
    Some(events[k].duplicate())
}

/// The status after the schedule is set to `scheduled_for`: a draft with a
/// time becomes scheduled, a scheduled event without one a draft again.
pub open spec fn status_for_schedule(s: EventStatus, scheduled_for: Option<String>) -> EventStatus {
    if s == EventStatus::Draft && scheduled_for.is_some() {
        EventStatus::Scheduled
    } else if s == EventStatus::Scheduled && scheduled_for.is_none() {
        EventStatus::Draft
    } else {
        s
    }
}

/// An event with the given fields replaced, updated at `now`.
pub open spec fn edited_event(
    e: Event,
    title: Option<String>,
    description: Option<String>,
    scheduled_for: Option<Option<String>>,
    destination_ids: Option<Vec<String>>,
    now: u64,
) -> Event {
    Event {
        title: match title {
            Some(t) => t,
            None => e.title,
        },
        description: match description {
            Some(d) => d,
            None => e.description,
        },
        scheduled_for: match scheduled_for {
            Some(sf) => sf,
            None => e.scheduled_for,
        },
        status: match scheduled_for {
            Some(sf) => status_for_schedule(e.status, sf),
            None => e.status,
        },
        destination_ids: match destination_ids {
            Some(d) => d,
            None => e.destination_ids,
        },
        updated_at: now,
        ..e
    }
}

/// Edits the first event with identifier `event_id`.
pub fn update_event(
    events: &mut Vec<Event>,
    event_id: &str,
    title: Option<String>,
    description: Option<String>,
    scheduled_for: Option<Option<String>>,
    destination_ids: Option<Vec<String>>,
    now: u64,
) -> (r: Option<Event>)
    ensures
        ({
            let es = old(events)@;
            let k = event_at(es, event_id@, 0);
            let e2 = edited_event(es[k], title, description, scheduled_for, destination_ids, now);
            if k == -1 {
                r.is_none() && final(events)@ == es
            } else {
                final(events)@ == es.update(k, e2) && (r matches Some(x) && same_event(x, e2))
            }
        }),
{
    let k = match event_index(events, event_id) {
        Some(k) => k,
        None => {
            return None;
        },
    };
    let e = &mut events[k];
    if let Some(t) = title {
        e.title = t;
    }
    if let Some(d) = description {
        e.description = d;
    }
    if let Some(sf) = scheduled_for {
        e.scheduled_for = sf;
        if e.status == EventStatus::Draft && e.scheduled_for.is_some() {
            e.status = EventStatus::Scheduled;
        } else if e.status == EventStatus::Scheduled && e.scheduled_for.is_none() {
            e.status = EventStatus::Draft;
        }
    }
    if let Some(d) = destination_ids {
        e.destination_ids = d;
    }
    e.updated_at = now;
    Some(events[k].duplicate())
}

/// Whether a scheduled event's time has come by `now`.
pub open spec fn due(e: Event, now: u64) -> bool {
    &&& e.status == EventStatus::Scheduled
    &&& e.scheduled_for matches Some(sf)
    &&& scheduled_seconds(sf@) matches Some(t)
    &&& t <= now
}

/// An event after the due ones went live at `now`.
pub open spec fn promoted(e: Event, now: u64) -> Event {
    if due(e, now) {
        gone_live(e, now)
    } else {
        e
    }
}

/// The events that go live at `now`, as they are afterwards, in order.
pub open spec fn promoted_events(es: Seq<Event>, now: u64) -> Seq<Event>
    decreases es.len(),
{
    if es.len() == 0 {
        seq![]
    } else if due(es.last(), now) {
        promoted_events(es.drop_last(), now).push(gone_live(es.last(), now))
    } else {
        promoted_events(es.drop_last(), now)
    }
}

fn is_due(e: &Event, now: u64) -> (r: bool)
    ensures
        r == due(*e, now),
{
    if e.status != EventStatus::Scheduled {
        return false;
    }
    match &e.scheduled_for {
        Some(sf) => match scheduled_epoch(sf.as_str()) {
            Some(t) => t <= now,
            None => false,
        },
        None => false,
    }
}

/// Sends live every scheduled event whose time has come; returns them.
pub fn promote_due_events(events: &mut Vec<Event>, now: u64) -> (r: Vec<Event>)
    ensures
        final(events)@.len() == old(events)@.len(),
        forall|i: int| 0 <= i < old(events)@.len() ==> #[trigger] final(events)@[i] == promoted(old(events)@[i], now),
        r@.len() == promoted_events(old(events)@, now).len(),
        forall|i: int| 0 <= i < r@.len() ==> same_event(#[trigger] r@[i], promoted_events(old(events)@, now)[i]),
{
    let ghost es = events@;
    let mut r: Vec<Event> = Vec::new();
    let n = events.len();
    for i in 0..n
        invariant
            n == es.len(),
            events@.len() == n,
            forall|j: int| 0 <= j < i ==> #[trigger] events@[j] == promoted(es[j], now),
            forall|j: int| i <= j < n ==> #[trigger] events@[j] == es[j],
            r@.len() == promoted_events(es.subrange(0, i as int), now).len(),
            forall|j: int| 0 <= j < r@.len() ==> same_event(#[trigger] r@[j], promoted_events(es.subrange(0, i as int), now)[j]),
    {
        let ghost before = promoted_events(es.subrange(0, i as int), now);
        proof {
            let s = es.subrange(0, i + 1);
            assert(s.drop_last() =~= es.subrange(0, i as int));
            assert(s.last() == es[i as int]);
        }
        if is_due(&events[i], now) {
            let e = &mut events[i];
            e.status = EventStatus::Live;
            e.started_at = Some(now);
            e.updated_at = now;
            r.push(events[i].duplicate());
        }
        proof {
            let after = promoted_events(es.subrange(0, i + 1), now);
            assert forall|j: int| 0 <= j < r@.len() implies same_event(#[trigger] r@[j], after[j]) by {
                if j < before.len() {
                    assert(after[j] == before[j]);
                }
            }
        }
    }
    proof {
        assert(es.subrange(0, n as int) =~= es);
    }
    r
}

/// An event's audience after a sample of `viewers`.
pub open spec fn with_viewers(e: Event, viewers: u32, now: u64) -> Event {
    Event {
        current_viewers: viewers,
        peak_viewers: if viewers > e.peak_viewers {
            viewers
        } else {
            e.peak_viewers
        },
        updated_at: now,
        ..e
    }
}

/// Records the audience of the first event with identifier `event_id`:
/// its current and peak viewers, and a sample. False when there is none.
pub fn record_viewers(
    events: &mut Vec<Event>,
    samples: &mut Vec<ViewerSample>,
    event_id: &str,
    viewers: u32,
    bitrate_kbps: u64,
    now: u64,
) -> (found: bool)
    ensures
        ({
            let es = old(events)@;
            let k = event_at(es, event_id@, 0);
            &&& found == (k != -1)
            &&& final(events)@ == if k == -1 {
                es
            } else {
                es.update(k, with_viewers(es[k], viewers, now))
            }
            &&& if k == -1 {
                final(samples)@ == old(samples)@
            } else {
                &&& final(samples)@.len() == old(samples)@.len() + 1
                &&& final(samples)@.drop_last() == old(samples)@
                &&& final(samples)@.last().event_id@ == event_id@
                &&& final(samples)@.last().timestamp == now
                &&& final(samples)@.last().viewers == viewers
                &&& final(samples)@.last().bitrate_kbps == bitrate_kbps
            }
        }),
{
    let k = match event_index(events, event_id) {
        Some(k) => k,
        None => {
            return false;
        },
    };
    let e = &mut events[k];
    e.current_viewers = viewers;
    if viewers > e.peak_viewers {
        e.peak_viewers = viewers;
    }
    e.updated_at = now;
    samples.push(ViewerSample { event_id: owned(event_id), timestamp: now, viewers, bitrate_kbps });
    proof {
        assert(final(samples)@.drop_last() =~= old(samples)@);
    }
    true
}

/// Adds a destination to an event's list unless it is there already.
pub fn add_destination(ids: &mut Vec<String>, channel_id: &str)
    ensures
        if exists|i: int| 0 <= i < old(ids)@.len() && (#[trigger] old(ids)@[i])@ == channel_id@ {
            final(ids)@ == old(ids)@
        } else {
            final(ids)@.len() == old(ids)@.len() + 1 && final(ids)@.drop_last() == old(ids)@
                && final(ids)@.last()@ == channel_id@
        },
{
    let n = ids.len();
    for i in 0..n
        invariant
            n == ids@.len(),
            ids@ == old(ids)@,
            forall|j: int| 0 <= j < i ==> (#[trigger] ids@[j])@ != channel_id@,
    {
        if str_eq(ids[i].as_str(), channel_id) {
            return;
        }
    }
    ids.push(owned(channel_id));
    proof {
        assert(final(ids)@.drop_last() =~= old(ids)@);
    }
}

/// Holds of a destination other than `id`.
pub open spec fn other_destination(id: Seq<char>) -> spec_fn(String) -> bool {
    |s: String| s@ != id
}

/// Removes a destination from an event's list.
pub fn remove_destination(ids: &mut Vec<String>, channel_id: &str)
    ensures
        final(ids)@ == old(ids)@.filter(other_destination(channel_id@)),
{
    let ghost before = ids@;
    let ghost pred = other_destination(channel_id@);
    let mut kept: Vec<String> = Vec::new();
    let n = ids.len();
    for i in 0..n
        invariant
            n == before.len(),
            ids@ == before,
            pred == other_destination(channel_id@),
            kept@ == before.subrange(0, i as int).filter(pred),
    {
        let ghost prev = kept@;
        let same = str_eq(ids[i].as_str(), channel_id);
        if !same {
            kept.push(ids[i].clone());
        }
        proof {
            reveal(Seq::filter);
            let s = before.subrange(0, i + 1);
            assert(s.drop_last() =~= before.subrange(0, i as int));
            assert(s.last() == before[i as int]);
            assert(pred(s.last()) == !same);
            assert(kept@ =~= s.filter(pred));
        }
    }
    proof {
        assert(before.subrange(0, n as int) =~= before);
    }
    *ids = kept;
}

/// `s` with every `-` taken out.
pub open spec fn without_hyphens(s: Seq<char>) -> Seq<char>
    decreases s.len(),
{
    if s.len() == 0 {
        seq![]
    } else if s.last() == '-' {
        without_hyphens(s.drop_last())
    } else {
        without_hyphens(s.drop_last()).push(s.last())
    }
}

/// `s` with every `-` taken out.
pub fn strip_hyphens(s: &str) -> (r: String)
    ensures
        r@ == without_hyphens(s@),
{
    let n = s.unicode_len();
    let mut r = String::new();
    let mut i: usize = 0;
    while i < n
        invariant
            i <= n == s@.len(),
            r@ == without_hyphens(s@.subrange(0, i as int)),
        decreases n - i,
    {
        let c = s.get_char(i);
        proof {
            let t = s@.subrange(0, i + 1);
            assert(t.drop_last() =~= s@.subrange(0, i as int));
            assert(t.last() == c);
        }
        if c != '-' {
            crate::text::push_char(&mut r, c);
        }
        i = i + 1;
    }
    proof {
        assert(s@.subrange(0, n as int) =~= s@);
    }
    r
}

/// A new event as created under `event_id` at `now`: scheduled when it has
/// a time, a draft otherwise; its own ingest key and guest link.
pub open spec fn is_new_event(
    e: Event,
    event_id: Seq<char>,
    now: u64,
    server_url: Seq<char>,
    draft_id: Option<String>,
    stream_type: StreamType,
    title: String,
    description: String,
    scheduled_for: Option<String>,
    destination_ids: Vec<String>,
    source_file_id: Option<String>,
    loops_count: u8,
) -> bool {
    &&& e.id@ == event_id
    &&& e.draft_id == draft_id
    &&& e.stream_type == stream_type
    &&& e.title == title
    &&& e.description == description
    &&& e.status == if scheduled_for.is_some() {
        EventStatus::Scheduled
    } else {
        EventStatus::Draft
    }
    &&& e.scheduled_for == scheduled_for
    &&& e.created_at == now
    &&& e.updated_at == now
    &&& e.started_at.is_none()
    &&& e.ended_at.is_none()
    &&& e.duration_seconds.is_none()
    &&& e.destination_ids == destination_ids
    &&& e.source_file_id == source_file_id
    &&& e.loops_count == loops_count
    &&& e.guest_link matches Some(g) && g@ == "/studio/guest/"@ + event_id
    &&& e.ingest.server_url@ == server_url
    &&& e.ingest.stream_key@ == "event-"@ + without_hyphens(event_id)
    &&& e.ingest.backup_server_url.is_none()
    &&& e.ingest.protocol@ == "rtmp"@
    &&& e.recording_file_id.is_none()
    &&& e.current_viewers == 0
    &&& e.peak_viewers == 0
    &&& e.chat_message_count == 0
}

/// The event created under `event_id` at `now`, publishing to `server_url`.
pub fn new_event(
    event_id: &str,
    now: u64,
    server_url: &str,
    draft_id: Option<String>,
    stream_type: StreamType,
    title: String,
    description: String,
    scheduled_for: Option<String>,
    destination_ids: Vec<String>,
    source_file_id: Option<String>,
    loops_count: u8,
) -> (e: Event)
    ensures
        is_new_event(
            e,
            event_id@,
            now,
            server_url@,
            draft_id,
            stream_type,
            title,
            description,
            scheduled_for,
            destination_ids,
            source_file_id,
            loops_count,
        ),
{
    let bare = strip_hyphens(event_id);
    let stream_key = join2("event-", bare.as_str());
    let status = if scheduled_for.is_some() {
        EventStatus::Scheduled
    } else {
        EventStatus::Draft
    };
    Event {
        id: owned(event_id),
        draft_id,
        stream_type,
        title,
        description,
        status,
        scheduled_for,
        created_at: now,
        updated_at: now,
        started_at: None,
        ended_at: None,
        duration_seconds: None,
        destination_ids,
        source_file_id,
        loops_count,
        guest_link: Some(join2("/studio/guest/", event_id)),
        ingest: IngestCredentials {
            server_url: owned(server_url),
            stream_key,
            backup_server_url: None,
            protocol: owned("rtmp"),
        },
        recording_file_id: None,
        current_viewers: 0,
        peak_viewers: 0,
        chat_message_count: 0,
    }
}

/// Creates an event under a fresh identifier, now, and adds it to the list;
/// returns a copy.
pub fn create_event(
    events: &mut Vec<Event>,
    server_url: &str,
    draft_id: Option<String>,
    stream_type: StreamType,
    title: String,
    description: String,
    scheduled_for: Option<String>,
    destination_ids: Vec<String>,
    source_file_id: Option<String>,
    loops_count: u8,
) -> (r: Event)
    ensures
        final(events)@.len() == old(events)@.len() + 1,
        final(events)@.drop_last() == old(events)@,
        same_event(r, final(events)@.last()),
        r.id@.len() == 36,
        exists|t: u64|
            is_new_event(
                #[trigger] final(events)@.last(),
                r.id@,
                t,
                server_url@,
                draft_id,
                stream_type,
                title,
                description,
                scheduled_for,
                destination_ids,
                source_file_id,
                loops_count,
            ),
{
    let id = new_uuid_v4();
    let t = now();
    let e = new_event(
        id.as_str(),
        t,
        server_url,
        draft_id,
        stream_type,
        title,
        description,
        scheduled_for,
        destination_ids,
        source_file_id,
        loops_count,
    );
    let copy = e.duplicate();
    events.push(e);
    proof {
        assert(final(events)@.drop_last() =~= old(events)@);
        assert(is_new_event(
            final(events)@.last(),
            copy.id@,
            t,
            server_url@,
            draft_id,
            stream_type,
            title,
            description,
            scheduled_for,
            destination_ids,
            source_file_id,
            loops_count,
        ));
    }
    copy
}

/// Counts one more chat message on the first event with identifier
/// `event_id`.
pub fn count_chat_message(events: &mut Vec<Event>, event_id: &str, now: u64)
    ensures
        ({
            let es = old(events)@;
            let k = event_at(es, event_id@, 0);
            final(events)@ == if k == -1 || es[k].chat_message_count == u64::MAX {
                es
            } else {
                es.update(k, Event { chat_message_count: (es[k].chat_message_count + 1) as u64, updated_at: now, ..es[k] })
            }
        }),
{
    if let Some(k) = event_index(events, event_id) {
        if events[k].chat_message_count < u64::MAX {
            let e = &mut events[k];
            e.chat_message_count = e.chat_message_count + 1;
            e.updated_at = now;
        }
    }
}

/// Holds of an event other than `id`.
pub open spec fn other_event(id: Seq<char>) -> spec_fn(Event) -> bool {
    |e: Event| e.id@ != id
}

/// Deletes every event with identifier `event_id`; true when there was one.
pub fn delete_event(events: &mut Vec<Event>, event_id: &str) -> (deleted: bool)
    ensures
        deleted == (event_at(old(events)@, event_id@, 0) != -1),
        final(events)@ == old(events)@.filter(other_event(event_id@)),
{
    let ghost before = events@;
    let ghost pred = other_event(event_id@);
    let mut kept: Vec<Event> = Vec::new();
    let mut rest: Vec<Event> = Vec::new();
    std::mem::swap(&mut rest, events);
    let first = event_index(&rest, event_id);
    let mut taken: Vec<Event> = Vec::new();
    let ghost all = rest@;
    while rest.len() > 0
        invariant
            all == before,
            rest@ == all.subrange(0, rest@.len() as int),
            taken@.len() + rest@.len() == all.len(),
            forall|j: int| 0 <= j < taken@.len() ==> #[trigger] taken@[j] == all[all.len() - 1 - j],
        decreases rest@.len(),
    {
        let x = rest.pop().unwrap();
        taken.push(x);
    }
    while taken.len() > 0
        invariant
            all == before,
            pred == other_event(event_id@),
            taken@.len() <= all.len(),
            forall|j: int| 0 <= j < taken@.len() ==> #[trigger] taken@[j] == all[all.len() - 1 - j],
            kept@ == all.subrange(0, all.len() - taken@.len()).filter(pred),
        decreases taken@.len(),
    {
        let ghost prev = kept@;
        let ghost i = all.len() - taken@.len();
        let x = taken.pop().unwrap();
        let same = str_eq(x.id.as_str(), event_id);
        if !same {
            kept.push(x);
        }
        proof {
            reveal(Seq::filter);
            let s = all.subrange(0, i + 1);
            assert(s.drop_last() =~= all.subrange(0, i));
            assert(s.last() == all[i]);
            assert(kept@ =~= s.filter(pred));
        }
    }
    proof {
        assert(all.subrange(0, all.len() as int) =~= all);
    }
    *events = kept;
    first.is_some()
}

/// Holds of a sample of event `id`.
pub open spec fn sample_of(id: Seq<char>) -> spec_fn(ViewerSample) -> bool {
    |v: ViewerSample| v.event_id@ == id
}

/// The viewers of all samples, added up.
pub open spec fn viewer_total(ss: Seq<ViewerSample>) -> int
    decreases ss.len(),
{
    if ss.len() == 0 {
        0
    } else {
        viewer_total(ss.drop_last()) + ss.last().viewers
    }
}

/// How long an event has run at `now`: its recorded duration, or the time
/// since it started, or nothing.
pub open spec fn running_time(e: Event, now: u64) -> u64 {
    match e.duration_seconds {
        Some(d) => d,
        None => match e.started_at {
            Some(s) => if now >= s {
                (now - s) as u64
            } else {
                0
            },
            None => 0,
        },
    }
}

impl ViewerSample {
    /// A copy with the same fields.
    pub fn duplicate(&self) -> (r: ViewerSample)
        ensures
            r == *self,
    {
        ViewerSample {
            event_id: self.event_id.clone(),
            timestamp: self.timestamp,
            viewers: self.viewers,
            bitrate_kbps: self.bitrate_kbps,
        }
    }
}

proof fn lemma_total_bound(ss: Seq<ViewerSample>)
    ensures
        0 <= viewer_total(ss) <= ss.len() * 4294967295,
    decreases ss.len(),
{
    if ss.len() > 0 {
        lemma_total_bound(ss.drop_last());
    }
}

/// Whether `r` is the audience report of the first event with identifier
/// `event_id` at `now`: `None` when there is no such event; else its
/// figures, every sample of it counted, each destination listed with no
/// figures of its own.
pub open spec fn is_report(
    r: Option<AnalyticsReport>,
    events: Seq<Event>,
    samples: Seq<ViewerSample>,
    event_id: Seq<char>,
    now: u64,
) -> bool {
    let k = event_at(events, event_id, 0);
    let mine = samples.filter(sample_of(event_id));
    let total = viewer_total(mine);
    if k == -1 {
        r.is_none()
    } else {
        let e = events[k];
        &&& r matches Some(rep)
        &&& rep.event_id == e.id
        &&& rep.title == e.title
        &&& rep.status == e.status
        &&& rep.views == total
        &&& rep.peak_concurrent_viewers == e.peak_viewers
        &&& rep.average_concurrent_viewers == if mine.len() == 0 {
            0
        } else {
            total / mine.len() as int
        }
        &&& rep.chat_messages == e.chat_message_count
        &&& rep.duration_seconds == running_time(e, now)
        &&& rep.destinations@.len() == e.destination_ids@.len()
        &&& forall|i: int|
            0 <= i < rep.destinations@.len() ==> {
                let d = #[trigger] rep.destinations@[i];
                &&& d.destination_id == e.destination_ids@[i]
                &&& d.views == 0
                &&& d.peak_viewers == 0
                &&& d.status@ == "unknown"@
            }
        &&& rep.timeseries@ == mine
    }
}

/// The audience report of the first event with identifier `event_id` at
/// `now`, from its samples. The views add up every sample's viewers, which
/// must fit in 64 bits.
pub fn analytics(events: &Vec<Event>, samples: &Vec<ViewerSample>, event_id: &str, now: u64) -> (r: Option<
    AnalyticsReport,
>)
    requires
        viewer_total(samples@.filter(sample_of(event_id@))) <= u64::MAX,
    ensures
        is_report(r, events@, samples@, event_id@, now),
{
    let k = match event_index(events, event_id) {
        Some(k) => k,
        None => {
            return None;
        },
    };
    let e = &events[k];
    let ghost pred = sample_of(event_id@);
    let mut mine: Vec<ViewerSample> = Vec::new();
    let mut total: u64 = 0;
    let n = samples.len();
    for i in 0..n
        invariant
            n == samples@.len(),
            pred == sample_of(event_id@),
            viewer_total(samples@.filter(pred)) <= u64::MAX,
            mine@ == samples@.subrange(0, i as int).filter(pred),
            total == viewer_total(mine@),
    {
        let ghost prev = mine@;
        let same = str_eq(samples[i].event_id.as_str(), event_id);
        proof {
            reveal(Seq::filter);
            let s = samples@.subrange(0, i + 1);
            assert(s.drop_last() =~= samples@.subrange(0, i as int));
            assert(s.last() == samples@[i as int]);
            assert(pred(s.last()) == same);
            let all = samples@;
            assert(all.subrange(0, i + 1) + all.subrange(i + 1, all.len() as int) =~= all);
            Seq::filter_distributes_over_add(all.subrange(0, i + 1), all.subrange(i + 1, all.len() as int), pred);
            if same {
                assert(s.filter(pred) =~= prev.push(samples@[i as int]));
                assert(s.filter(pred).drop_last() =~= prev);
                lemma_total_prefix(s.filter(pred), all.subrange(i + 1, all.len() as int).filter(pred));
            }
        }
        if same {
            total = total + samples[i].viewers as u64;
            mine.push(samples[i].duplicate());
            proof {
                assert(mine@.drop_last() =~= prev);
            }
        }
        proof {
            assert(mine@ =~= samples@.subrange(0, i + 1).filter(pred));
        }
    }
    proof {
        assert(samples@.subrange(0, n as int) =~= samples@);
        lemma_total_bound(mine@);
    }
    let count = mine.len();
    let average: u32 = if count == 0 {
        0
    } else {
        proof {
            assert(total as int / count as int <= 4294967295) by (nonlinear_arith)
                requires
                    total <= count * 4294967295,
                    count > 0,
            ;
        }
        (total / (count as u64)) as u32
    };
    let duration: u64 = match e.duration_seconds {
        Some(d) => d,
        None => match e.started_at {
            Some(s) => now.saturating_sub(s),
            None => 0,
        },
    };
    let mut destinations: Vec<DestinationAnalytics> = Vec::new();
    let m = e.destination_ids.len();
    for i in 0..m
        invariant
            m == e.destination_ids@.len(),
            destinations@.len() == i,
            forall|j: int|
                0 <= j < i ==> {
                    let d = #[trigger] destinations@[j];
                    &&& d.destination_id == e.destination_ids@[j]
                    &&& d.views == 0
                    &&& d.peak_viewers == 0
                    &&& d.status@ == "unknown"@
                },
    {
        destinations.push(
            DestinationAnalytics {
                destination_id: e.destination_ids[i].clone(),
                views: 0,
                peak_viewers: 0,
                status: owned("unknown"),
            },
        );
    }
    Some(
        AnalyticsReport {
            event_id: e.id.clone(),
            title: e.title.clone(),
            status: e.status,
            views: total,
            peak_concurrent_viewers: e.peak_viewers,
            average_concurrent_viewers: average,
            chat_messages: e.chat_message_count,
            duration_seconds: duration,
            destinations,
            timeseries: mine,
        },
    )
}

proof fn lemma_total_prefix(a: Seq<ViewerSample>, b: Seq<ViewerSample>)
    ensures
        viewer_total(a) <= viewer_total(a + b),
    decreases b.len(),
{
    lemma_total_bound(b);
    if b.len() > 0 {
        assert((a + b).drop_last() =~= a + b.drop_last());
        lemma_total_prefix(a, b.drop_last());
    } else {
        assert(a + b =~= a);
    }
}

/// An event that went live and then ended records how long it ran; it is
/// then over, so it cannot go live again.
pub proof fn law_ended_event_records_duration(e: Event, started: u64, stopped: u64)
    requires
        started <= stopped,
    ensures
        ended(gone_live(e, started), stopped).duration_seconds == Some((stopped - started) as u64),
        ended(gone_live(e, started), stopped).status == EventStatus::Ended,
        finished(ended(gone_live(e, started), stopped).status),
        finished(cancelled(e, stopped).status),
{
}

/// Setting a time on a draft schedules it, and clearing the time makes it a
/// draft again.
pub proof fn law_schedule_round_trip(t: String)
    ensures
        status_for_schedule(EventStatus::Draft, Some(t)) == EventStatus::Scheduled,
        status_for_schedule(status_for_schedule(EventStatus::Draft, Some(t)), None) == EventStatus::Draft,
{
}

} // verus!
