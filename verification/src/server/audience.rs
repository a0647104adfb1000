//! The audience figures of one event: viewers over time, and chat activity
//! per minute and per channel.

use vstd::prelude::*;

use crate::server::restream::{AnalyticsReport, ChatMessage, ViewerSample};
use crate::text::{chars_of, owned, str_eq};
use crate::text_order::{less_text, lemma_text_less_total, lemma_text_less_transitive, text_less};

verus! {

broadcast use vstd::seq_lib::group_seq_properties;

/// Whether sample `i` is the last one with the most viewers.
pub open spec fn is_last_peak(s: Seq<ViewerSample>, i: int) -> bool {
    &&& 0 <= i < s.len()
    &&& forall|j: int| 0 <= j < s.len() ==> s[j].viewers <= s[i].viewers
    &&& forall|j: int| i < j < s.len() ==> s[j].viewers < s[i].viewers
}

/// When the audience peaked: the time of the last sample with the most
/// viewers; nothing without samples.
pub fn peak_time(samples: &Vec<ViewerSample>) -> (r: Option<u64>)
    ensures
        samples@.len() == 0 <==> r is None,
        r matches Some(t) ==> exists|i: int| is_last_peak(samples@, i) && samples@[i].timestamp == t,
{
    if samples.len() == 0 {
        return None;
    }
    let mut best: usize = 0;
    let mut i: usize = 1;
    while i < samples.len()
        invariant
            1 <= i <= samples.len(),
            is_last_peak(samples@.take(i as int), best as int),
        decreases samples.len() - i,
    {
        if samples[i].viewers >= samples[best].viewers {
            best = i;
        }
        i = i + 1;
    }
    proof {
        assert(samples@.take(samples.len() as int) =~= samples@);
    }
    Some(samples[best].timestamp)
}

/// `n`, or the largest `u64` where `n` is larger.
pub open spec fn capped(n: int) -> u64 {
    if n > u64::MAX {
        u64::MAX
    } else {
        n as u64
    }
}

/// The time watched: the duration times the mean audience, capped at the
/// largest `u64`.
pub fn watched_time(duration_seconds: u64, mean: u32) -> (r: u64)
    ensures
        r == capped(duration_seconds * mean),
{
    match duration_seconds.checked_mul(mean as u64) {
        Some(n) => n,
        None => u64::MAX,
    }
}

/// The audience at each sample: its time and its viewers.
pub open spec fn timeline(s: Seq<ViewerSample>) -> Seq<(u64, u32)> {
    s.map_values(|v: ViewerSample| (v.timestamp, v.viewers))
}

fn viewer_timeline(samples: &Vec<ViewerSample>) -> (r: Vec<(u64, u32)>)
    ensures
        r@ == timeline(samples@),
{
    let mut out: Vec<(u64, u32)> = Vec::new();
    for i in 0..samples.len()
        invariant
            out@ == timeline(samples@.take(i as int)),
    {
        out.push((samples[i].timestamp, samples[i].viewers));
        proof {
            assert(samples@.take(i + 1) =~= samples@.take(i as int).push(samples@[i as int]));
        }
    }
    proof {
        assert(samples@.take(samples@.len() as int) =~= samples@);
    }
    out
}

/// The audience figures of an event, or of one of its channels.
#[derive(Debug, Clone)]
pub struct ViewerFigures {
    pub mean: u32,
    pub max: u32,
    pub views_total: u64,
    pub peak_time: Option<u64>,
    pub watched_time: u64,
    pub viewers_per_minute: Vec<(u64, u32)>,
}

/// The audience figures of one channel.
#[derive(Debug, Clone)]
pub struct ChannelViewers {
    pub channel_id: String,
    pub figures: ViewerFigures,
}

/// The audience figures of an event in total and per channel.
#[derive(Debug, Clone)]
pub struct ViewerAnalytics {
    pub total: ViewerFigures,
    pub by_channel: Vec<ChannelViewers>,
}

/// Whether `f` holds the figures of report `r` with the highest audience
/// `max`.
pub open spec fn figures_of(f: ViewerFigures, r: AnalyticsReport, max: u32) -> bool {
    &&& f.mean == r.average_concurrent_viewers
    &&& f.max == max
    &&& f.views_total == r.views
    &&& (r.timeseries@.len() == 0 <==> f.peak_time is None)
    &&& (f.peak_time matches Some(t) ==> exists|i: int|
        is_last_peak(r.timeseries@, i) && r.timeseries@[i].timestamp == t)
    &&& f.watched_time == capped(r.duration_seconds * r.average_concurrent_viewers)
    &&& f.viewers_per_minute@ == timeline(r.timeseries@)
}

/// The larger of two audiences.
pub open spec fn larger(a: u32, b: u32) -> u32 {
    if a >= b {
        a
    } else {
        b
    }
}

/// The audience figures of an event: the report's own in total, and for
/// each destination the same with the destination's peak where it is
/// higher.
pub fn viewer_analytics(report: &AnalyticsReport) -> (a: ViewerAnalytics)
    ensures
        figures_of(a.total, *report, report.peak_concurrent_viewers),
        a.by_channel@.len() == report.destinations@.len(),
        forall|k: int|
            0 <= k < a.by_channel@.len() ==> {
                &&& (#[trigger] a.by_channel@[k]).channel_id@ == report.destinations@[k].destination_id@
                &&& figures_of(
                    a.by_channel@[k].figures,
                    *report,
                    larger(report.destinations@[k].peak_viewers, report.peak_concurrent_viewers),
                )
            },
{
    let peak = peak_time(&report.timeseries);
    let watched = watched_time(report.duration_seconds, report.average_concurrent_viewers);
    let mut by_channel: Vec<ChannelViewers> = Vec::new();
    for k in 0..report.destinations.len()
        invariant
            report.timeseries@.len() == 0 <==> peak is None,
            peak matches Some(t) ==> exists|i: int|
                is_last_peak(report.timeseries@, i) && report.timeseries@[i].timestamp == t,
            watched == capped(report.duration_seconds * report.average_concurrent_viewers),
            by_channel@.len() == k,
            forall|q: int|
                0 <= q < k ==> {
                    &&& (#[trigger] by_channel@[q]).channel_id@ == report.destinations@[q].destination_id@
                    &&& figures_of(
                        by_channel@[q].figures,
                        *report,
                        larger(report.destinations@[q].peak_viewers, report.peak_concurrent_viewers),
                    )
                },
    {
        let d = &report.destinations[k];
        let max = if d.peak_viewers >= report.peak_concurrent_viewers {
            d.peak_viewers
        } else {
            report.peak_concurrent_viewers
        };
        let figures = ViewerFigures {
            mean: report.average_concurrent_viewers,
            max,
            views_total: report.views,
            peak_time: peak,
            watched_time: watched,
            viewers_per_minute: viewer_timeline(&report.timeseries),
        };
        by_channel.push(ChannelViewers { channel_id: owned(d.destination_id.as_str()), figures });
    }
    let total = ViewerFigures {
        mean: report.average_concurrent_viewers,
        max: report.peak_concurrent_viewers,
        views_total: report.views,
        peak_time: peak,
        watched_time: watched,
        viewers_per_minute: viewer_timeline(&report.timeseries),
    };
    ViewerAnalytics { total, by_channel }
}

/// Who wrote a message: the author's id, or else the author's name.
pub open spec fn chatter_of(m: ChatMessage) -> Seq<char> {
    match m.author_id {
        Some(a) => a@,
        None => m.author_name@,
    }
}

/// Where a message was written: its destination, or `unified`.
pub open spec fn channel_of(m: ChatMessage) -> Seq<char> {
    match m.destination_id {
        Some(d) => d@,
        None => "unified"@,
    }
}

/// The start of the minute in which a message was written.
pub open spec fn minute_of(m: ChatMessage) -> u64 {
    (m.created_at / 60 * 60) as u64
}

/// Who wrote each message.
pub open spec fn chatter_keys(ms: Seq<ChatMessage>) -> Seq<Seq<char>> {
    ms.map_values(|m: ChatMessage| chatter_of(m))
}

/// The distinct people who wrote messages.
pub open spec fn chatters(ms: Seq<ChatMessage>) -> Set<Seq<char>> {
    chatter_keys(ms).to_set()
}

/// The minute of each message.
pub open spec fn minutes(ms: Seq<ChatMessage>) -> Seq<u64> {
    ms.map_values(|m: ChatMessage| minute_of(m))
}

/// The channel of each message.
pub open spec fn channels(ms: Seq<ChatMessage>) -> Seq<Seq<char>> {
    ms.map_values(|m: ChatMessage| channel_of(m))
}

/// Messages of a minute.
pub open spec fn in_minute(b: u64) -> spec_fn(ChatMessage) -> bool {
    |m: ChatMessage| minute_of(m) == b
}

/// Messages of a channel.
pub open spec fn in_channel(c: Seq<char>) -> spec_fn(ChatMessage) -> bool {
    |m: ChatMessage| channel_of(m) == c
}

/// The texts of strings.
pub open spec fn texts(s: Seq<String>) -> Seq<Seq<char>> {
    s.map_values(|x: String| x@)
}

/// Whether the numbers rise strictly.
pub open spec fn rising(s: Seq<u64>) -> bool {
    forall|i: int, j: int| 0 <= i < j < s.len() ==> s[i] < s[j]
}

/// Whether the texts rise strictly in text order.
pub open spec fn rising_texts(s: Seq<Seq<char>>) -> bool {
    forall|i: int, j: int| 0 <= i < j < s.len() ==> text_less(s[i], s[j])
}

fn add_minute(v: &mut Vec<u64>, x: u64)
    requires
        rising(old(v)@),
    ensures
        rising(final(v)@),
        final(v)@.to_set() == old(v)@.to_set().insert(x),
{
    let ghost s = v@;
    let mut pos: usize = 0;
    while pos < v.len() && v[pos] < x
        invariant
            v@ == s,
            pos <= v.len(),
            forall|k: int| 0 <= k < pos ==> v@[k] < x,
        decreases v.len() - pos,
    {
        pos = pos + 1;
    }
    if pos < v.len() && v[pos] == x {
        proof {
            assert(s.contains(s[pos as int]));
            assert(s.to_set().insert(x) =~= s.to_set());
        }
        return;
    }
    v.insert(pos, x);
    proof {
        let t = v@;
        assert(t =~= s.insert(pos as int, x));
        assert forall|i: int, j: int| 0 <= i < j < t.len() implies t[i] < t[j] by {
            if j == pos {
                assert(t[i] == s[i]);
            } else if i == pos {
                assert(t[j] == s[j - 1]);
                assert(x < s[pos as int]);
            } else {
                let a = if i < pos { i } else { i - 1 };
                let b = if j < pos { j } else { j - 1 };
                assert(t[i] == s[a]);
                assert(t[j] == s[b]);
            }
        }
        assert forall|e: u64| t.to_set().contains(e) == s.to_set().insert(x).contains(e) by {
            if s.contains(e) {
                let k = choose|k: int| 0 <= k < s.len() && s[k] == e;
                if k < pos {
                    assert(t[k] == e);
                } else {
                    assert(t[k + 1] == e);
                }
            }
            if e == x {
                assert(t[pos as int] == x);
            }
            if t.contains(e) {
                let k = choose|k: int| 0 <= k < t.len() && t[k] == e;
                if k < pos {
                    assert(s[k] == e);
                } else if k > pos {
                    assert(s[k - 1] == e);
                }
            }
        }
        assert(t.to_set() =~= s.to_set().insert(x));
    }
}

fn add_text(v: &mut Vec<String>, x: String)
    requires
        rising_texts(texts(old(v)@)),
    ensures
        rising_texts(texts(final(v)@)),
        texts(final(v)@).to_set() == texts(old(v)@).to_set().insert(x@),
{
    let ghost s = texts(v@);
    let xc = chars_of(x.as_str());
    let mut pos: usize = 0;
    while pos < v.len() && less_text(&chars_of(v[pos].as_str()), &xc)
        invariant
            texts(v@) == s,
            xc@ == x@,
            pos <= v.len(),
            forall|k: int| 0 <= k < pos ==> text_less(s[k], x@),
        decreases v.len() - pos,
    {
        pos = pos + 1;
    }
    if pos < v.len() && str_eq(v[pos].as_str(), x.as_str()) {
        proof {
            assert(s[pos as int] == x@);
            assert(s.contains(s[pos as int]));
            assert(s.to_set().insert(x@) =~= s.to_set());
        }
        return;
    }
    proof {
        if pos < s.len() {
            assert(s[pos as int] != x@);
            lemma_text_less_total(s[pos as int], x@);
        }
    }
    let ghost old_v = v@;
    v.insert(pos, x);
    proof {
        let t = texts(v@);
        assert(v@ =~= old_v.insert(pos as int, x));
        assert(t =~= s.insert(pos as int, x@));
        assert forall|i: int, j: int| 0 <= i < j < t.len() implies text_less(t[i], t[j]) by {
            if j == pos {
                assert(t[i] == s[i]);
            } else if i == pos {
                assert(t[j] == s[j - 1]);
                if j - 1 > pos {
                    lemma_text_less_transitive(x@, s[pos as int], s[j - 1]);
                }
            } else {
                let a = if i < pos { i } else { i - 1 };
                let b = if j < pos { j } else { j - 1 };
                assert(t[i] == s[a]);
                assert(t[j] == s[b]);
            }
        }
        assert forall|e: Seq<char>| t.to_set().contains(e) == s.to_set().insert(x@).contains(e) by {
            if s.contains(e) {
                let k = choose|k: int| 0 <= k < s.len() && s[k] == e;
                if k < pos {
                    assert(t[k] == e);
                } else {
                    assert(t[k + 1] == e);
                }
            }
            if e == x@ {
                assert(t[pos as int] == x@);
            }
            if t.contains(e) {
                let k = choose|k: int| 0 <= k < t.len() && t[k] == e;
                if k < pos {
                    assert(s[k] == e);
                } else if k > pos {
                    assert(s[k - 1] == e);
                }
            }
        }
        assert(t.to_set() =~= s.to_set().insert(x@));
    }
}

/// How many different texts there are among `keys`.
fn distinct_count(keys: &Vec<String>) -> (r: u64)
    ensures
        r == texts(keys@).to_set().len(),
{
    let mut seen: Vec<String> = Vec::new();
    let mut i: usize = 0;
    while i < keys.len()
        invariant
            i <= keys.len(),
            seen@.len() <= i,
            texts(seen@).no_duplicates(),
            texts(seen@).to_set() == texts(keys@.take(i as int)).to_set(),
        decreases keys.len() - i,
    {
        let mut found = false;
        let mut j: usize = 0;
        while j < seen.len()
            invariant
                i < keys.len(),
                j <= seen.len(),
                found <==> exists|k: int| 0 <= k < j && seen@[k]@ == keys@[i as int]@,
            decreases seen.len() - j,
        {
            if str_eq(seen[j].as_str(), keys[i].as_str()) {
                found = true;
            }
            j = j + 1;
        }
        let ghost before = texts(seen@);
        proof {
            assert(texts(keys@.take(i + 1)) =~= texts(keys@.take(i as int)).push(keys@[i as int]@));
            texts(keys@.take(i as int)).lemma_push_to_set_commute(keys@[i as int]@);
        }
        if !found {
            seen.push(owned(keys[i].as_str()));
            proof {
                assert(texts(seen@) =~= before.push(keys@[i as int]@));
                before.lemma_push_to_set_commute(keys@[i as int]@);
                assert forall|k: int| 0 <= k < before.len() implies before[k] != keys@[i as int]@ by {
                    assert(before[k] == seen@[k]@);
                }
            }
        } else {
            proof {
                let k = choose|k: int| 0 <= k < j && seen@[k]@ == keys@[i as int]@;
                assert(before[k] == keys@[i as int]@);
                assert(before.to_set().contains(keys@[i as int]@));
                assert(before.to_set().insert(keys@[i as int]@) =~= before.to_set());
            }
        }
        i = i + 1;
    }
    proof {
        assert(keys@.take(keys@.len() as int) =~= keys@);
        texts(seen@).unique_seq_to_set();
    }
    seen.len() as u64
}

fn minute_key(m: &ChatMessage) -> (r: u64)
    ensures
        r == minute_of(*m),
{
    let q = m.created_at / 60;
    assert(q * 60 <= m.created_at);
    q * 60
}

fn channel_key(m: &ChatMessage) -> (r: String)
    ensures
        r@ == channel_of(*m),
{
    match &m.destination_id {
        Some(d) => owned(d.as_str()),
        None => owned("unified"),
    }
}

fn chatter_key(m: &ChatMessage) -> (r: String)
    ensures
        r@ == chatter_of(*m),
{
    match &m.author_id {
        Some(a) => owned(a.as_str()),
        None => owned(m.author_name.as_str()),
    }
}

fn count_in_minute(messages: &Vec<ChatMessage>, b: u64) -> (r: u64)
    ensures
        r == messages@.filter(in_minute(b)).len(),
{
    let mut count: u64 = 0;
    for i in 0..messages.len()
        invariant
            count <= i,
            count == messages@.take(i as int).filter(in_minute(b)).len(),
    {
        let ghost before = messages@.take(i as int);
        proof {
            assert(messages@.take(i + 1) =~= before.push(messages@[i as int]));
            before.lemma_filter_push(messages@[i as int], in_minute(b));
        }
        if minute_key(&messages[i]) == b {
            count = count + 1;
        }
    }
    proof {
        assert(messages@.take(messages@.len() as int) =~= messages@);
    }
    count
}

/// The chat figures of one channel.
#[derive(Debug, Clone)]
pub struct ChannelMessages {
    pub channel_id: String,
    pub messages_total: u64,
    pub chatters_total: u64,
}

fn channel_figures(messages: &Vec<ChatMessage>, id: &String) -> (r: ChannelMessages)
    ensures
        r.channel_id@ == id@,
        r.messages_total == messages@.filter(in_channel(id@)).len(),
        r.chatters_total == chatters(messages@.filter(in_channel(id@))).len(),
{
    let mut count: u64 = 0;
    let mut keys: Vec<String> = Vec::new();
    for i in 0..messages.len()
        invariant
            count <= i,
            count == messages@.take(i as int).filter(in_channel(id@)).len(),
            texts(keys@) == chatter_keys(messages@.take(i as int).filter(in_channel(id@))),
    {
        let ghost before = messages@.take(i as int);
        let ghost kept = before.filter(in_channel(id@));
        proof {
            assert(messages@.take(i + 1) =~= before.push(messages@[i as int]));
            before.lemma_filter_push(messages@[i as int], in_channel(id@));
        }
        let c = channel_key(&messages[i]);
        if str_eq(c.as_str(), id.as_str()) {
            let ghost ks = texts(keys@);
            count = count + 1;
            keys.push(chatter_key(&messages[i]));
            proof {
                assert(texts(keys@) =~= ks.push(chatter_of(messages@[i as int])));
                assert(chatter_keys(kept.push(messages@[i as int])) =~= chatter_keys(kept).push(
                    chatter_of(messages@[i as int]),
                ));
            }
        }
    }
    proof {
        assert(messages@.take(messages@.len() as int) =~= messages@);
    }
    let chatters_total = distinct_count(&keys);
    ChannelMessages { channel_id: owned(id.as_str()), messages_total: count, chatters_total }
}

/// The chat figures of an event.
#[derive(Debug, Clone)]
pub struct MessageAnalytics {
    pub messages_total: u64,
    pub chatters_total: u64,
    pub messages_per_minute: Vec<(u64, u64)>,
    pub by_channel: Vec<ChannelMessages>,
}

/// The minute of each count.
pub open spec fn count_minutes(pm: Seq<(u64, u64)>) -> Seq<u64> {
    pm.map_values(|p: (u64, u64)| p.0)
}

/// The channel of each channel's figures.
pub open spec fn channel_ids(bc: Seq<ChannelMessages>) -> Seq<Seq<char>> {
    bc.map_values(|c: ChannelMessages| c.channel_id@)
}

/// Whether `pm` counts the messages of each minute in which any was
/// written, earliest minute first.
pub open spec fn per_minute_of(ms: Seq<ChatMessage>, pm: Seq<(u64, u64)>) -> bool {
    &&& rising(count_minutes(pm))
    &&& count_minutes(pm).to_set() == minutes(ms).to_set()
    &&& forall|k: int| 0 <= k < pm.len() ==> (#[trigger] pm[k]).1 == ms.filter(in_minute(pm[k].0)).len()
}

/// Whether `bc` holds the figures of each channel in which any message was
/// written, in text order of the channels.
pub open spec fn per_channel_of(ms: Seq<ChatMessage>, bc: Seq<ChannelMessages>) -> bool {
    &&& rising_texts(channel_ids(bc))
    &&& channel_ids(bc).to_set() == channels(ms).to_set()
    &&& forall|k: int|
        0 <= k < bc.len() ==> {
            &&& (#[trigger] bc[k]).messages_total == ms.filter(in_channel(bc[k].channel_id@)).len()
            &&& bc[k].chatters_total == chatters(ms.filter(in_channel(bc[k].channel_id@))).len()
        }
}

/// The chat figures of an event's messages: how many, by how many people,
/// per minute and per channel.
pub fn message_analytics(messages: &Vec<ChatMessage>) -> (a: MessageAnalytics)
    ensures
        a.messages_total == messages@.len(),
        a.chatters_total == chatters(messages@).len(),
        per_minute_of(messages@, a.messages_per_minute@),
        per_channel_of(messages@, a.by_channel@),
{
    let mut mins: Vec<u64> = Vec::new();
    let mut chans: Vec<String> = Vec::new();
    let mut authors: Vec<String> = Vec::new();
    for i in 0..messages.len()
        invariant
            rising(mins@),
            mins@.to_set() == minutes(messages@.take(i as int)).to_set(),
            rising_texts(texts(chans@)),
            texts(chans@).to_set() == channels(messages@.take(i as int)).to_set(),
            texts(authors@) == chatter_keys(messages@.take(i as int)),
    {
        let ghost before = messages@.take(i as int);
        let ghost m = messages@[i as int];
        proof {
            assert(messages@.take(i + 1) =~= before.push(m));
            assert(minutes(before.push(m)) =~= minutes(before).push(minute_of(m)));
            assert(channels(before.push(m)) =~= channels(before).push(channel_of(m)));
            assert(chatter_keys(before.push(m)) =~= chatter_keys(before).push(chatter_of(m)));
            minutes(before).lemma_push_to_set_commute(minute_of(m));
            channels(before).lemma_push_to_set_commute(channel_of(m));
        }
        add_minute(&mut mins, minute_key(&messages[i]));
        add_text(&mut chans, channel_key(&messages[i]));
        let ghost ks = texts(authors@);
        authors.push(chatter_key(&messages[i]));
        proof {
            assert(texts(authors@) =~= ks.push(chatter_of(m)));
        }
    }
    proof {
        assert(messages@.take(messages@.len() as int) =~= messages@);
    }
    let chatters_total = distinct_count(&authors);
    let mut per_minute: Vec<(u64, u64)> = Vec::new();
    for k in 0..mins.len()
        invariant
            count_minutes(per_minute@) == mins@.take(k as int),
            forall|q: int|
                0 <= q < per_minute@.len() ==> (#[trigger] per_minute@[q]).1 == messages@.filter(
                    in_minute(per_minute@[q].0),
                ).len(),
    {
        let ghost before = per_minute@;
        let n = count_in_minute(messages, mins[k]);
        per_minute.push((mins[k], n));
        proof {
            assert(mins@.take(k + 1) =~= mins@.take(k as int).push(mins@[k as int]));
            assert(count_minutes(per_minute@) =~= count_minutes(before).push(mins@[k as int]));
        }
    }
    proof {
        assert(mins@.take(mins@.len() as int) =~= mins@);
    }
    let mut by_channel: Vec<ChannelMessages> = Vec::new();
    for k in 0..chans.len()
        invariant
            channel_ids(by_channel@) == texts(chans@).take(k as int),
            forall|q: int|
                0 <= q < by_channel@.len() ==> {
                    &&& (#[trigger] by_channel@[q]).messages_total == messages@.filter(
                        in_channel(by_channel@[q].channel_id@),
                    ).len()
                    &&& by_channel@[q].chatters_total == chatters(
                        messages@.filter(in_channel(by_channel@[q].channel_id@)),
                    ).len()
                },
    {
        let ghost before = by_channel@;
        let f = channel_figures(messages, &chans[k]);
        by_channel.push(f);
        proof {
            assert(texts(chans@).take(k + 1) =~= texts(chans@).take(k as int).push(chans@[k as int]@));
            assert(channel_ids(by_channel@) =~= channel_ids(before).push(f.channel_id@));
        }
    }
    proof {
        assert(texts(chans@).take(chans@.len() as int) =~= texts(chans@));
    }
    MessageAnalytics {
        messages_total: messages.len() as u64,
        chatters_total,
        messages_per_minute: per_minute,
        by_channel,
    }
}

} // verus!
