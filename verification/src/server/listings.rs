//! The lists the API shows: events, files, clips and chat in the order
//! the product shows them, and overlays in the order the user chose.

use vstd::prelude::*;

use crate::server::channels::EventKey;
use crate::server::events::{analytics, event_at, is_report, running_time, sample_of, viewer_total};
use crate::server::restream::{
    AnalyticsOverview, AnalyticsReport, ChatMessage, ClipProject, Event, EventStatus, IngestCredentials, QrCode, StorageFile,
    Ticker, ViewerSample,
};
use crate::server::schedule::{scheduled_epoch, scheduled_seconds};
use crate::server::sorting::{records_of, sort_stable, sorted_stable, take_records};
use crate::parse::trimmed;
use crate::text::{chars_of, str_eq};

verus! {

/// The stream key kept for an event, if any: the first kept for it.
pub open spec fn kept_key(keys: Seq<EventKey>, event_id: Seq<char>) -> Option<String>
    decreases keys.len(),
{
    if keys.len() == 0 {
        None
    } else if kept_key(keys.drop_last(), event_id).is_some() {
        kept_key(keys.drop_last(), event_id)
    } else if keys.last().event_id@ == event_id {
        Some(keys.last().stream_key)
    } else {
        None
    }
}

fn find_kept_key(keys: &Vec<EventKey>, event_id: &str) -> (r: Option<String>)
    ensures
        r == kept_key(keys@, event_id@),
{
    let n = keys.len();
    let mut i: usize = 0;
    while i < n
        invariant
            n == keys@.len(),
            i <= n,
            kept_key(keys@.subrange(0, i as int), event_id@).is_none(),
        decreases n - i,
    {
        proof {
            let s = keys@.subrange(0, i + 1);
            assert(s.drop_last() =~= keys@.subrange(0, i as int));
        }
        if str_eq(keys[i].event_id.as_str(), event_id) {
            proof {
                lemma_kept_prefix(keys@, event_id@, i + 1);
            }
            return Some(keys[i].stream_key.clone());
        }
        i = i + 1;
    }
    proof {
        assert(keys@.subrange(0, n as int) =~= keys@);
    }
    None
}

proof fn lemma_kept_prefix(keys: Seq<EventKey>, event_id: Seq<char>, i: int)
    requires
        0 <= i <= keys.len(),
        kept_key(keys.subrange(0, i), event_id).is_some(),
    ensures
        kept_key(keys, event_id) == kept_key(keys.subrange(0, i), event_id),
    decreases keys.len() - i,
{
    if i < keys.len() {
        let s = keys.subrange(0, i + 1);
        assert(s.drop_last() =~= keys.subrange(0, i));
        lemma_kept_prefix(keys, event_id, i + 1);
    } else {
        assert(keys.subrange(0, i) =~= keys);
    }
}

/// An event with its kept stream key filled in.
pub open spec fn with_kept_key(e: Event, keys: Seq<EventKey>) -> Event {
    match kept_key(keys, e.id@) {
        Some(k) => Event { ingest: IngestCredentials { stream_key: k, ..e.ingest }, ..e },
        None => e,
    }
}

/// The number that puts later updates first.
pub open spec fn newest_first(t: u64) -> u64 {
    (u64::MAX - t) as u64
}

/// The events to list, with their keys filled in and each paired with the
/// number it is ordered by; only those in `status` when one is given.
pub open spec fn event_entries(es: Seq<Event>, keys: Seq<EventKey>, status: Option<EventStatus>) -> Seq<(u64, Event)>
    decreases es.len(),
{
    if es.len() == 0 {
        Seq::empty()
    } else {
        let prev = event_entries(es.drop_last(), keys, status);
        let h = with_kept_key(es.last(), keys);
        if status matches Some(s) && h.status != s {
            prev
        } else {
            prev.push((newest_first(h.updated_at), h))
        }
    }
}

/// The events, with their stream keys filled in, the most recently
/// updated first (equal times in list order); only those in `status` when
/// one is given.
pub fn list_events(events: Vec<Event>, keys: &Vec<EventKey>, status: Option<EventStatus>) -> (r: Vec<Event>)
    ensures
        r@ == records_of(sorted_stable(event_entries(events@, keys@, status))),
{
    let ghost input = events@;
    let mut rest = events;
    let mut entries: Vec<(u64, Event)> = Vec::new();
    let n = rest.len();
    let mut i: usize = 0;
    while i < n
        invariant
            n == input.len(),
            i <= n,
            rest@ == input.subrange(i as int, n as int),
            entries@ == event_entries(input.subrange(0, i as int), keys@, status),
        decreases n - i,
    {
        let mut e = rest.remove(0);
        proof {
            let s = input.subrange(0, i + 1);
            assert(s.drop_last() =~= input.subrange(0, i as int));
            assert(s.last() == e);
            assert(rest@ =~= input.subrange(i + 1, n as int));
        }
        if let Some(k) = find_kept_key(keys, e.id.as_str()) {
            e.ingest.stream_key = k;
        }
        let keep = match status {
            Some(s) => e.status == s,
            None => true,
        };
        if keep {
            entries.push((u64::MAX - e.updated_at, e));
        }
        i = i + 1;
    }
    proof {
        assert(input.subrange(0, n as int) =~= input);
    }
    take_records(sort_stable(entries))
}

/// The clips to list, each paired with the number it is ordered by; only
/// those of `event_id` when one is given.
pub open spec fn clip_entries(cs: Seq<ClipProject>, event_id: Option<Seq<char>>) -> Seq<(u64, ClipProject)>
    decreases cs.len(),
{
    if cs.len() == 0 {
        Seq::empty()
    } else {
        let prev = clip_entries(cs.drop_last(), event_id);
        let c = cs.last();
        if event_id matches Some(id) && c.event_id@ != id {
            prev
        } else {
            prev.push((newest_first(c.updated_at), c))
        }
    }
}

/// The clips, the most recently updated first (equal times in list
/// order); only those of `event_id` when one is given.
pub fn list_clips(clips: Vec<ClipProject>, event_id: Option<&str>) -> (r: Vec<ClipProject>)
    ensures
        r@ == records_of(
            sorted_stable(
                clip_entries(
                    clips@,
                    match event_id {
                        Some(e) => Some(e@),
                        None => None,
                    },
                ),
            ),
        ),
{
    let ghost input = clips@;
    let ghost wanted = match event_id {
        Some(e) => Some(e@),
        None => None,
    };
    let mut rest = clips;
    let mut entries: Vec<(u64, ClipProject)> = Vec::new();
    let n = rest.len();
    let mut i: usize = 0;
    while i < n
        invariant
            n == input.len(),
            i <= n,
            rest@ == input.subrange(i as int, n as int),
            entries@ == clip_entries(input.subrange(0, i as int), wanted),
            wanted == match event_id {
                Some(e) => Some(e@),
                None => None::<Seq<char>>,
            },
        decreases n - i,
    {
        let c = rest.remove(0);
        proof {
            let s = input.subrange(0, i + 1);
            assert(s.drop_last() =~= input.subrange(0, i as int));
            assert(s.last() == c);
            assert(rest@ =~= input.subrange(i + 1, n as int));
        }
        let keep = match event_id {
            Some(id) => str_eq(c.event_id.as_str(), id),
            None => true,
        };
        if keep {
            entries.push((u64::MAX - c.updated_at, c));
        }
        i = i + 1;
    }
    proof {
        assert(input.subrange(0, n as int) =~= input);
    }
    take_records(sort_stable(entries))
}

/// The chat to list, each message paired with the number it is ordered
/// by: messages not deleted, only those of `event_id` when one is given.
pub open spec fn chat_entries(ms: Seq<ChatMessage>, event_id: Option<Seq<char>>) -> Seq<(u64, ChatMessage)>
    decreases ms.len(),
{
    if ms.len() == 0 {
        Seq::empty()
    } else {
        let prev = chat_entries(ms.drop_last(), event_id);
        let m = ms.last();
        if (event_id matches Some(id) && m.event_id@ != id) || m.deleted {
            prev
        } else {
            prev.push((m.created_at, m))
        }
    }
}

/// The chat, oldest first (equal times in list order), without deleted
/// messages; only that of `event_id` when one is given.
pub fn list_chat(chat: Vec<ChatMessage>, event_id: Option<&str>) -> (r: Vec<ChatMessage>)
    ensures
        r@ == records_of(
            sorted_stable(
                chat_entries(
                    chat@,
                    match event_id {
                        Some(e) => Some(e@),
                        None => None,
                    },
                ),
            ),
        ),
{
    let ghost input = chat@;
    let ghost wanted = match event_id {
        Some(e) => Some(e@),
        None => None,
    };
    let mut rest = chat;
    let mut entries: Vec<(u64, ChatMessage)> = Vec::new();
    let n = rest.len();
    let mut i: usize = 0;
    while i < n
        invariant
            n == input.len(),
            i <= n,
            rest@ == input.subrange(i as int, n as int),
            entries@ == chat_entries(input.subrange(0, i as int), wanted),
            wanted == match event_id {
                Some(e) => Some(e@),
                None => None::<Seq<char>>,
            },
        decreases n - i,
    {
        let m = rest.remove(0);
        proof {
            let s = input.subrange(0, i + 1);
            assert(s.drop_last() =~= input.subrange(0, i as int));
            assert(s.last() == m);
            assert(rest@ =~= input.subrange(i + 1, n as int));
        }
        let keep = match event_id {
            Some(id) => str_eq(m.event_id.as_str(), id),
            None => true,
        } && !m.deleted;
        if keep {
            entries.push((m.created_at, m));
        }
        i = i + 1;
    }
    proof {
        assert(input.subrange(0, n as int) =~= input);
    }
    take_records(sort_stable(entries))
}

/// The place an overlay is given by the list of identifiers: the last
/// place the list names it at, else after all of them.
pub open spec fn place_in(ids: Seq<String>, id: Seq<char>) -> u64
    decreases ids.len(),
{
    if ids.len() == 0 {
        0
    } else if ids.last()@ == id {
        (ids.len() - 1) as u64
    } else if place_in(ids.drop_last(), id) == ids.len() - 1 {
        ids.len() as u64
    } else {
        place_in(ids.drop_last(), id)
    }
}

fn place_of(ids: &Vec<String>, id: &str) -> (r: u64)
    requires
        ids@.len() < u64::MAX,
    ensures
        r == place_in(ids@, id@),
{
    let n = ids.len();
    let mut r: u64 = 0;
    let mut i: usize = 0;
    while i < n
        invariant
            n == ids@.len(),
            n < u64::MAX,
            i <= n,
            r == place_in(ids@.subrange(0, i as int), id@),
        decreases n - i,
    {
        proof {
            let s = ids@.subrange(0, i + 1);
            assert(s.drop_last() =~= ids@.subrange(0, i as int));
            assert(s.last() == ids@[i as int]);
        }
        if str_eq(ids[i].as_str(), id) {
            r = i as u64;
        } else if r == i as u64 {
            r = (i + 1) as u64;
        }
        i = i + 1;
    }
    proof {
        assert(ids@.subrange(0, n as int) =~= ids@);
    }
    r
}

/// The tickers, each paired with its place.
pub open spec fn ticker_entries(ts: Seq<Ticker>, ids: Seq<String>) -> Seq<(u64, Ticker)> {
    ts.map_values(|t: Ticker| (place_in(ids, t.id@), t))
}

/// The tickers in the chosen order, numbered from 0 and stamped `now`.
pub open spec fn reordered_tickers(ts: Seq<Ticker>, ids: Seq<String>, now: u64) -> Seq<Ticker> {
    let sorted = records_of(sorted_stable(ticker_entries(ts, ids)));
    Seq::new(sorted.len(), |i: int| Ticker { order: i as u32, updated_at: now, ..sorted[i] })
}

/// Puts the tickers in the order of `ids` (those it names in that order,
/// the others after them as they were), numbers them and stamps them at
/// `now`; returns a copy of the list.
pub fn reorder_tickers(tickers: &mut Vec<Ticker>, ids: &Vec<String>, now: u64) -> (r: Vec<Ticker>)
    requires
        ids@.len() < u64::MAX,
        old(tickers)@.len() <= u32::MAX,
    ensures
        final(tickers)@ == reordered_tickers(old(tickers)@, ids@, now),
        r@ == final(tickers)@,
{
    let ghost input = tickers@;
    let mut rest: Vec<Ticker> = Vec::new();
    std::mem::swap(&mut rest, tickers);
    let mut entries: Vec<(u64, Ticker)> = Vec::new();
    let n = rest.len();
    let mut i: usize = 0;
    while i < n
        invariant
            n == input.len(),
            i <= n,
            ids@.len() < u64::MAX,
            rest@ == input.subrange(i as int, n as int),
            entries@ == ticker_entries(input.subrange(0, i as int), ids@),
        decreases n - i,
    {
        let t = rest.remove(0);
        proof {
            assert(rest@ =~= input.subrange(i + 1, n as int));
        }
        let p = place_of(ids, t.id.as_str());
        entries.push((p, t));
        proof {
            assert(entries@ =~= ticker_entries(input.subrange(0, i + 1), ids@));
        }
        i = i + 1;
    }
    proof {
        assert(input.subrange(0, n as int) =~= input);
    }
    let sorted = take_records(sort_stable(entries));
    proof {
        crate::server::sorting::lemma_sorted_ascending(ticker_entries(input, ids@));
    }
    let ghost target = reordered_tickers(input, ids@, now);
    let m = sorted.len();
    let mut out: Vec<Ticker> = Vec::new();
    let mut copy: Vec<Ticker> = Vec::new();
    let mut rest2 = sorted;
    let ghost s2 = rest2@;
    let mut j: usize = 0;
    while j < m
        invariant
            m == s2.len(),
            m <= u32::MAX,
            j <= m,
            rest2@ == s2.subrange(j as int, m as int),
            s2 == records_of(sorted_stable(ticker_entries(input, ids@))),
            target == reordered_tickers(input, ids@, now),
            out@ == target.subrange(0, j as int),
            copy@ == out@,
        decreases m - j,
    {
        let mut t = rest2.remove(0);
        proof {
            assert(rest2@ =~= s2.subrange(j + 1, m as int));
        }
        t.order = j as u32;
        t.updated_at = now;
        copy.push(t.duplicate());
        out.push(t);
        proof {
            assert(out@ =~= target.subrange(0, j + 1));
        }
        j = j + 1;
    }
    proof {
        assert(target.subrange(0, m as int) =~= target);
    }
    *tickers = out;
    copy
}

impl Ticker {
    /// A copy with the same fields.
    pub fn duplicate(&self) -> (r: Ticker)
        ensures
            r == *self,
    {
        Ticker {
            id: self.id.clone(),
            text: self.text.clone(),
            speed: self.speed,
            color: self.color.clone(),
            background_color: self.background_color.clone(),
            enabled: self.enabled,
            order: self.order,
            created_at: self.created_at,
            updated_at: self.updated_at,
        }
    }
}

impl QrCode {
    /// A copy with the same fields.
    pub fn duplicate(&self) -> (r: QrCode)
        ensures
            r == *self,
    {
        QrCode {
            id: self.id.clone(),
            name: self.name.clone(),
            data: self.data.clone(),
            foreground: self.foreground.clone(),
            background: self.background.clone(),
            enabled: self.enabled,
            position: self.position.clone(),
            created_at: self.created_at,
            updated_at: self.updated_at,
        }
    }
}

/// The QR codes, each paired with its place.
pub open spec fn qr_entries(qs: Seq<QrCode>, ids: Seq<String>) -> Seq<(u64, QrCode)> {
    qs.map_values(|q: QrCode| (place_in(ids, q.id@), q))
}

/// Puts the QR codes in the order of `ids` (those it names in that order,
/// the others after them as they were); returns a copy of the list.
pub fn reorder_qr_codes(qr_codes: &mut Vec<QrCode>, ids: &Vec<String>) -> (r: Vec<QrCode>)
    requires
        ids@.len() < u64::MAX,
    ensures
        final(qr_codes)@ == records_of(sorted_stable(qr_entries(old(qr_codes)@, ids@))),
        r@ == final(qr_codes)@,
{
    let ghost input = qr_codes@;
    let mut rest: Vec<QrCode> = Vec::new();
    std::mem::swap(&mut rest, qr_codes);
    let mut entries: Vec<(u64, QrCode)> = Vec::new();
    let n = rest.len();
    let mut i: usize = 0;
    while i < n
        invariant
            n == input.len(),
            i <= n,
            ids@.len() < u64::MAX,
            rest@ == input.subrange(i as int, n as int),
            entries@ == qr_entries(input.subrange(0, i as int), ids@),
        decreases n - i,
    {
        let q = rest.remove(0);
        proof {
            assert(rest@ =~= input.subrange(i + 1, n as int));
        }
        let p = place_of(ids, q.id.as_str());
        entries.push((p, q));
        proof {
            assert(entries@ =~= qr_entries(input.subrange(0, i + 1), ids@));
        }
        i = i + 1;
    }
    proof {
        assert(input.subrange(0, n as int) =~= input);
    }
    let sorted = take_records(sort_stable(entries));
    let mut copy: Vec<QrCode> = Vec::new();
    let m = sorted.len();
    for j in 0..m
        invariant
            m == sorted@.len(),
            copy@ == sorted@.subrange(0, j as int),
    {
        copy.push(sorted[j].duplicate());
        proof {
            assert(copy@ =~= sorted@.subrange(0, j + 1));
        }
    }
    proof {
        assert(sorted@.subrange(0, m as int) =~= sorted@);
    }
    *qr_codes = sorted;
    copy
}

/// `str::to_lowercase`: the text in lower case by Unicode's rules.
pub uninterp spec fn lowercase_of(s: Seq<char>) -> Seq<char>;

/// `str::to_lowercase`. The result is the named function of the text.
#[verifier::external_body]
pub(crate) fn to_lowercase(s: &str) -> (r: String)
    ensures
        r@ == lowercase_of(s@),
{
    s.to_lowercase()
}

/// Whether `needle` occurs in `hay`.
pub open spec fn contains_text(hay: Seq<char>, needle: Seq<char>) -> bool {
    exists|i: int| 0 <= i <= hay.len() - needle.len() && #[trigger] hay.subrange(i, i + needle.len()) == needle
}

fn matches_at(hay: &Vec<char>, needle: &Vec<char>, i: usize) -> (r: bool)
    requires
        i + needle@.len() <= hay@.len(),
    ensures
        r == (hay@.subrange(i as int, i + needle@.len()) == needle@),
{
    let m = needle.len();
    for j in 0..m
        invariant
            m == needle@.len(),
            i + m <= hay.len(),
            hay.len() == hay@.len(),
            forall|x: int| 0 <= x < j ==> hay@[i + x] == needle@[x],
    {
        if hay[i + j] != needle[j] {
            proof {
                assert(hay@.subrange(i as int, i + m)[j as int] != needle@[j as int]);
            }
            return false;
        }
    }
    proof {
        assert(hay@.subrange(i as int, i + m) =~= needle@);
    }
    true
}

fn text_contains(hay: &str, needle: &str) -> (r: bool)
    ensures
        r == contains_text(hay@, needle@),
{
    let h = chars_of(hay);
    let nd = chars_of(needle);
    let n = h.len();
    let m = nd.len();
    if m > n {
        proof {
            assert forall|i: int| 0 <= i <= hay@.len() - needle@.len() implies #[trigger] hay@.subrange(i, i + needle@.len()) != needle@ by {}
        }
        return false;
    }
    if m == 0 {
        proof {
            assert(hay@.subrange(0, 0 + needle@.len() as int) =~= needle@);
        }
        return true;
    }
    let last = n - m;
    let mut i: usize = 0;
    while i <= last
        invariant
            n == h@.len(),
            m == nd@.len(),
            h@ == hay@,
            nd@ == needle@,
            last == n - m,
            m >= 1,
            i <= last + 1,
            forall|x: int| 0 <= x < i ==> #[trigger] hay@.subrange(x, x + needle@.len()) != needle@,
        decreases last + 1 - i,
    {
        if matches_at(&h, &nd, i) {
            return true;
        }
        i = i + 1;
    }
    false
}

/// Whether a file answers a search: its name or one of its labels
/// contains the query, in lower case.
pub open spec fn file_matches(f: StorageFile, query: Seq<char>) -> bool {
    let q = lowercase_of(query);
    contains_text(lowercase_of(f.name@), q) || exists|i: int|
        0 <= i < f.labels@.len() && contains_text(lowercase_of(#[trigger] f.labels@[i]@), q)
}

fn file_found(f: &StorageFile, q: &str) -> (r: bool)
    ensures
        r == (contains_text(lowercase_of(f.name@), q@) || exists|i: int|
            0 <= i < f.labels@.len() && contains_text(lowercase_of(#[trigger] f.labels@[i]@), q@)),
{
    let name = to_lowercase(f.name.as_str());
    if text_contains(name.as_str(), q) {
        return true;
    }
    let n = f.labels.len();
    for i in 0..n
        invariant
            n == f.labels@.len(),
            forall|x: int| 0 <= x < i ==> !contains_text(lowercase_of(#[trigger] f.labels@[x]@), q@),
    {
        let l = to_lowercase(f.labels[i].as_str());
        if text_contains(l.as_str(), q) {
            return true;
        }
    }
    false
}

/// The files to list, each paired with the number it is ordered by; only
/// those that answer the query when a query that is not blank is given.
pub open spec fn file_entries(fs: Seq<StorageFile>, query: Option<Seq<char>>) -> Seq<(u64, StorageFile)>
    decreases fs.len(),
{
    if fs.len() == 0 {
        Seq::empty()
    } else {
        let prev = file_entries(fs.drop_last(), query);
        let f = fs.last();
        if query matches Some(q) && trimmed(q).len() != 0 && !file_matches(f, q) {
            prev
        } else {
            prev.push((newest_first(f.updated_at), f))
        }
    }
}

/// The files, the most recently updated first (equal times in list order);
/// only those whose name or a label contains the query, in lower case, when
/// a query that is not blank is given.
pub fn list_files(files: Vec<StorageFile>, query: Option<&str>) -> (r: Vec<StorageFile>)
    ensures
        r@ == records_of(
            sorted_stable(
                file_entries(
                    files@,
                    match query {
                        Some(q) => Some(q@),
                        None => None,
                    },
                ),
            ),
        ),
{
    let ghost input = files@;
    let ghost wanted = match query {
        Some(q) => Some(q@),
        None => None,
    };
    let search: Option<String> = match query {
        Some(q) => {
            let c = chars_of(q);
            if crate::parse::trim_chars(&c).len() == 0 {
                None
            } else {
                Some(to_lowercase(q))
            }
        },
        None => None,
    };
    let mut rest = files;
    let mut entries: Vec<(u64, StorageFile)> = Vec::new();
    let n = rest.len();
    let mut i: usize = 0;
    while i < n
        invariant
            n == input.len(),
            i <= n,
            rest@ == input.subrange(i as int, n as int),
            entries@ == file_entries(input.subrange(0, i as int), wanted),
            wanted == match query {
                Some(q) => Some(q@),
                None => None::<Seq<char>>,
            },
            match search {
                Some(s) => wanted matches Some(q) && trimmed(q).len() != 0 && s@ == lowercase_of(q),
                None => !(wanted matches Some(q) && trimmed(q).len() != 0),
            },
        decreases n - i,
    {
        let f = rest.remove(0);
        proof {
            let s = input.subrange(0, i + 1);
            assert(s.drop_last() =~= input.subrange(0, i as int));
            assert(s.last() == f);
            assert(rest@ =~= input.subrange(i + 1, n as int));
        }
        let keep = match &search {
            Some(q) => file_found(&f, q.as_str()),
            None => true,
        };
        if keep {
            entries.push((u64::MAX - f.updated_at, f));
        }
        i = i + 1;
    }
    proof {
        assert(input.subrange(0, n as int) =~= input);
    }
    take_records(sort_stable(entries))
}

/// The Unix time a bound of a period names, when it reads.
pub open spec fn bound_of(v: Option<String>) -> Option<int> {
    match v {
        Some(s) => scheduled_seconds(s@),
        None => None,
    }
}

/// Whether an event ended within the period: its end (or, without one,
/// its last update) is not before `from` nor after `to`.
pub open spec fn ended_in(e: Event, from: Option<int>, to: Option<int>) -> bool {
    let t = match e.ended_at {
        Some(x) => x,
        None => e.updated_at,
    };
    (from matches Some(f) ==> t >= f) && (to matches Some(u) ==> t <= u)
}

/// The ended events within the period, each identifier paired with the
/// number it is ordered by.
pub open spec fn ended_entries(es: Seq<Event>, from: Option<int>, to: Option<int>) -> Seq<(u64, String)>
    decreases es.len(),
{
    if es.len() == 0 {
        Seq::empty()
    } else {
        let prev = ended_entries(es.drop_last(), from, to);
        let e = es.last();
        if e.status == EventStatus::Ended && ended_in(e, from, to) {
            prev.push((newest_first(e.updated_at), e.id))
        } else {
            prev
        }
    }
}

/// The ended events of the period, most recently updated first.
pub open spec fn overview_ids(es: Seq<Event>, from: Option<String>, to: Option<String>) -> Seq<String> {
    records_of(sorted_stable(ended_entries(es, bound_of(from), bound_of(to))))
}

/// The views of the events named, added up.
pub open spec fn views_sum(ids: Seq<String>, samples: Seq<ViewerSample>) -> int
    decreases ids.len(),
{
    if ids.len() == 0 {
        0
    } else {
        views_sum(ids.drop_last(), samples) + viewer_total(samples.filter(sample_of(ids.last()@)))
    }
}

/// The chat messages of the events named, added up.
pub open spec fn chat_sum(ids: Seq<String>, events: Seq<Event>) -> int
    decreases ids.len(),
{
    if ids.len() == 0 {
        0
    } else {
        chat_sum(ids.drop_last(), events) + events[event_at(events, ids.last()@, 0)].chat_message_count
    }
}

/// How long the events named ran, added up.
pub open spec fn duration_sum(ids: Seq<String>, events: Seq<Event>, now: u64) -> int
    decreases ids.len(),
{
    if ids.len() == 0 {
        0
    } else {
        duration_sum(ids.drop_last(), events, now) + running_time(events[event_at(events, ids.last()@, 0)], now)
    }
}

fn ended_ids(events: &Vec<Event>, from: Option<u64>, to: Option<u64>) -> (r: Vec<(u64, String)>)
    ensures
        r@ == ended_entries(
            events@,
            match from {
                Some(f) => Some(f as int),
                None => None,
            },
            match to {
                Some(t) => Some(t as int),
                None => None,
            },
        ),
{
    let ghost f = match from {
        Some(f) => Some(f as int),
        None => None,
    };
    let ghost t = match to {
        Some(t) => Some(t as int),
        None => None,
    };
    let mut r: Vec<(u64, String)> = Vec::new();
    let n = events.len();
    for i in 0..n
        invariant
            n == events@.len(),
            f == match from {
                Some(x) => Some(x as int),
                None => None::<int>,
            },
            t == match to {
                Some(x) => Some(x as int),
                None => None::<int>,
            },
            r@ == ended_entries(events@.subrange(0, i as int), f, t),
    {
        proof {
            let s = events@.subrange(0, i + 1);
            assert(s.drop_last() =~= events@.subrange(0, i as int));
            assert(s.last() == events@[i as int]);
        }
        let e = &events[i];
        let stamp = match e.ended_at {
            Some(x) => x,
            None => e.updated_at,
        };
        let after_from = match from {
            Some(x) => stamp >= x,
            None => true,
        };
        let before_to = match to {
            Some(x) => stamp <= x,
            None => true,
        };
        if e.status == EventStatus::Ended && after_from && before_to {
            r.push((u64::MAX - e.updated_at, e.id.clone()));
        }
    }
    proof {
        assert(events@.subrange(0, n as int) =~= events@);
    }
    r
}

/// The audience over the events that ended in a period (bounds that do
/// not read are left open), most recently updated first, with the views,
/// chat messages and events counted and the average running time. The
/// sums must fit in 64 bits.
pub fn analytics_overview(
    events: &Vec<Event>,
    samples: &Vec<ViewerSample>,
    from: Option<String>,
    to: Option<String>,
    now: u64,
) -> (r: AnalyticsOverview)
    requires
        views_sum(overview_ids(events@, from, to), samples@) <= u64::MAX,
        chat_sum(overview_ids(events@, from, to), events@) <= u64::MAX,
        duration_sum(overview_ids(events@, from, to), events@, now) <= u64::MAX,
    ensures
        ({
            let ids = overview_ids(events@, from, to);
            &&& r.from == from
            &&& r.to == to
            &&& r.streams@.len() == ids.len()
            &&& forall|i: int|
                0 <= i < ids.len() ==> is_report(Some(#[trigger] r.streams@[i]), events@, samples@, ids[i]@, now)
            &&& r.total_views == views_sum(ids, samples@)
            &&& r.total_streams == ids.len()
            &&& r.total_chat_messages == chat_sum(ids, events@)
            &&& r.average_duration_seconds == if ids.len() == 0 {
                0
            } else {
                duration_sum(ids, events@, now) / ids.len() as int
            }
        }),
{
    let from_epoch = match &from {
        Some(v) => scheduled_epoch(v.as_str()),
        None => None,
    };
    let to_epoch = match &to {
        Some(v) => scheduled_epoch(v.as_str()),
        None => None,
    };
    let ids = take_records(sort_stable(ended_ids(events, from_epoch, to_epoch)));
    let ghost all = overview_ids(events@, from, to);
    assert(ids@ == all);
    let mut streams: Vec<AnalyticsReport> = Vec::new();
    let mut views: u64 = 0;
    let mut chats: u64 = 0;
    let mut duration: u64 = 0;
    let n = ids.len();
    for i in 0..n
        invariant
            n == all.len(),
            all == overview_ids(events@, from, to),
            ids@ == all,
            views_sum(all, samples@) <= u64::MAX,
            chat_sum(all, events@) <= u64::MAX,
            duration_sum(all, events@, now) <= u64::MAX,
            streams@.len() == i,
            forall|j: int| 0 <= j < i ==> is_report(Some(#[trigger] streams@[j]), events@, samples@, all[j]@, now),
            views == views_sum(all.subrange(0, i as int), samples@),
            chats == chat_sum(all.subrange(0, i as int), events@),
            duration == duration_sum(all.subrange(0, i as int), events@, now),
    {
        let ghost pre = all.subrange(0, i as int);
        let ghost s = all.subrange(0, i + 1);
        proof {
            assert(s.drop_last() =~= pre);
            assert(s.last() == all[i as int]);
            lemma_sums_grow(all, samples@, events@, now, i + 1);
            lemma_event_listed(events@, from, to, i as int);
        }
        let rep = analytics(events, samples, ids[i].as_str(), now);
        match rep {
            Some(x) => {
                views = views + x.views;
                chats = chats + x.chat_messages;
                duration = duration + x.duration_seconds;
                streams.push(x);
            },
            None => {
                proof {
                    assert(false);
                }
            },
        }
    }
    proof {
        assert(all.subrange(0, n as int) =~= all);
    }
    let count = streams.len() as u64;
    let average = if count == 0 {
        0
    } else {
        duration / count
    };
    AnalyticsOverview {
        from,
        to,
        total_views: views,
        total_streams: count,
        total_chat_messages: chats,
        average_duration_seconds: average,
        streams,
    }
}

/// Each prefix of the sums is no more than the whole.
proof fn lemma_sums_grow(ids: Seq<String>, samples: Seq<ViewerSample>, events: Seq<Event>, now: u64, i: int)
    requires
        0 <= i <= ids.len(),
    ensures
        views_sum(ids.subrange(0, i), samples) <= views_sum(ids, samples),
        chat_sum(ids.subrange(0, i), events) <= chat_sum(ids, events),
        duration_sum(ids.subrange(0, i), events, now) <= duration_sum(ids, events, now),
        viewer_total(samples.filter(sample_of(ids[i - 1]@))) <= views_sum(ids.subrange(0, i), samples) || i == 0,
    decreases ids.len() - i,
{
    if i < ids.len() {
        lemma_sums_grow(ids, samples, events, now, i + 1);
        let s = ids.subrange(0, i + 1);
        assert(s.drop_last() =~= ids.subrange(0, i));
        lemma_sums_nonneg(ids.subrange(0, i), samples, events, now);
        lemma_total_nonneg(samples.filter(sample_of(ids[i]@)));
    } else {
        assert(ids.subrange(0, i) =~= ids);
    }
    if i > 0 {
        let s = ids.subrange(0, i);
        assert(s.drop_last() =~= ids.subrange(0, i - 1));
        assert(s.last() == ids[i - 1]);
        lemma_sums_nonneg(ids.subrange(0, i - 1), samples, events, now);
    }
}

proof fn lemma_sums_nonneg(ids: Seq<String>, samples: Seq<ViewerSample>, events: Seq<Event>, now: u64)
    ensures
        views_sum(ids, samples) >= 0,
        chat_sum(ids, events) >= 0,
        duration_sum(ids, events, now) >= 0,
    decreases ids.len(),
{
    if ids.len() > 0 {
        lemma_sums_nonneg(ids.drop_last(), samples, events, now);
        lemma_total_nonneg(samples.filter(sample_of(ids.last()@)));
    }
}

proof fn lemma_total_nonneg(ss: Seq<ViewerSample>)
    ensures
        viewer_total(ss) >= 0,
    decreases ss.len(),
{
    if ss.len() > 0 {
        lemma_total_nonneg(ss.drop_last());
    }
}

/// Every listed identifier names an event.
proof fn lemma_event_listed(events: Seq<Event>, from: Option<String>, to: Option<String>, i: int)
    requires
        0 <= i < overview_ids(events, from, to).len(),
    ensures
        event_at(events, overview_ids(events, from, to)[i]@, 0) != -1,
{
    let ents = ended_entries(events, bound_of(from), bound_of(to));
    let sorted = sorted_stable(ents);
    lemma_sorted_elements(ents);
    crate::server::sorting::lemma_sorted_ascending(ents);
    assert(overview_ids(events, from, to)[i] == sorted[i].1);
    assert(ents.contains(sorted[i]));
    let j = choose|j: int| 0 <= j < ents.len() && ents[j] == sorted[i];
    lemma_ended_entries_from(events, bound_of(from), bound_of(to), j);
    let k = choose|k: int| 0 <= k < events.len() && events[k].id == ents[j].1;
    lemma_event_at_found(events, sorted[i].1@, k, 0);
}

/// Every entry of the stable ordering comes from the list ordered.
proof fn lemma_sorted_elements<T>(s: Seq<(u64, T)>)
    ensures
        forall|i: int| 0 <= i < sorted_stable(s).len() ==> s.contains(#[trigger] sorted_stable(s)[i]),
    decreases s.len(),
{
    crate::server::sorting::lemma_sorted_ascending(s);
    if s.len() > 0 {
        let init = s.drop_last();
        lemma_sorted_elements(init);
        crate::server::sorting::lemma_sorted_ascending(init);
        let t = sorted_stable(init);
        let p = crate::server::sorting::first_above(t, s.last().0, 0);
        crate::server::sorting::lemma_first_above_bounds(t, s.last().0, 0);
        let u = t.insert(p, s.last());
        assert forall|i: int| 0 <= i < u.len() implies s.contains(#[trigger] u[i]) by {
            if i < p {
                assert(u[i] == t[i]);
                assert(init.contains(t[i]));
                let j = choose|j: int| 0 <= j < init.len() && init[j] == t[i];
                assert(s[j] == init[j]);
            } else if i == p {
                assert(u[i] == s[s.len() - 1]);
            } else {
                assert(u[i] == t[i - 1]);
                assert(init.contains(t[i - 1]));
                let j = choose|j: int| 0 <= j < init.len() && init[j] == t[i - 1];
                assert(s[j] == init[j]);
            }
        }
    }
}

/// Each listed entry names one of the events.
proof fn lemma_ended_entries_from(es: Seq<Event>, from: Option<int>, to: Option<int>, j: int)
    requires
        0 <= j < ended_entries(es, from, to).len(),
    ensures
        exists|k: int| 0 <= k < es.len() && #[trigger] es[k].id == ended_entries(es, from, to)[j].1,
    decreases es.len(),
{
    let prev = ended_entries(es.drop_last(), from, to);
    if j < prev.len() {
        lemma_ended_entries_from(es.drop_last(), from, to, j);
        let k = choose|k: int| 0 <= k < es.drop_last().len() && #[trigger] es.drop_last()[k].id == prev[j].1;
        assert(es[k] == es.drop_last()[k]);
    } else {
        assert(es[es.len() - 1].id == ended_entries(es, from, to)[j].1);
    }
}

/// An identifier some event has is found.
proof fn lemma_event_at_found(es: Seq<Event>, id: Seq<char>, k: int, i: int)
    requires
        0 <= i <= k < es.len(),
        es[k].id@ == id,
    ensures
        event_at(es, id, i) != -1,
    decreases k - i,
{
    if es[i].id@ != id {
        lemma_event_at_found(es, id, k, i + 1);
    }
}

} // verus!
