//! Decisions of the publisher loop: recognising codec headers, picking the
//! destinations for a key, and keeping the destination list in step with
//! the events that change it.

use vstd::prelude::*;

use crate::relay::config::{Orientation, Platform, PlatformEvent, platform_id_from, platform_id_of};
use crate::text::str_eq;
use crate::weburl::{UrlParts, url_parse};

verus! {

/// Whether an FLV video payload is an AVC sequence header: a keyframe of
/// codec 7 (`0x17`) followed by packet type 0.
pub open spec fn video_sequence_header(data: Seq<u8>) -> bool {
    data.len() > 1 && data[0] == 0x17 && data[1] == 0x00
}

/// Whether an FLV audio payload is an AAC sequence header: sound format 10
/// in the high nibble, followed by packet type 0.
pub open spec fn audio_sequence_header(data: Seq<u8>) -> bool {
    data.len() > 1 && data[0] / 16 == 0xA && data[1] == 0x00
}

/// Tells a video sequence header from other video data.
pub fn is_video_sequence_header(data: &[u8]) -> (r: bool)
    ensures
        r == video_sequence_header(data@),
{
    data.len() > 1 && data[0] == 0x17 && data[1] == 0x00
}

/// Tells an audio sequence header from other audio data.
pub fn is_audio_sequence_header(data: &[u8]) -> (r: bool)
    ensures
        r == audio_sequence_header(data@),
{
    if data.len() > 1 {
        let b = data[0];
        assert((b & 0xF0) == 0xA0 <==> b / 16 == 0xA) by (bit_vector);
        (b & 0xF0) == 0xA0 && data[1] == 0x00
    } else {
        false
    }
}

/// The identifier of a configured destination.
pub open spec fn destination_id(p: Platform) -> Seq<char> {
    platform_id_of(p.url.serialized@, p.key@)
}

impl Platform {
    /// A copy with the same fields.
    pub fn duplicate(&self) -> (r: Platform)
        ensures
            r == *self,
    {
        Platform {
            url: self.url.duplicate(),
            key: self.key.clone(),
            enabled: self.enabled,
            orientation: self.orientation,
        }
    }
}

/// The first index from `i` on whose destination has identifier `id`, or -1.
pub open spec fn find_destination(ps: Seq<Platform>, id: Seq<char>, i: int) -> int
    decreases ps.len() - i,
{
    if i < 0 || i >= ps.len() {
        -1
    } else if destination_id(ps[i]) == id {
        i
    } else {
        find_destination(ps, id, i + 1)
    }
}

/// The destinations whose identifier is not `id`, in order.
pub open spec fn without_destination(ps: Seq<Platform>, id: Seq<char>) -> Seq<Platform>
    decreases ps.len(),
{
    if ps.len() == 0 {
        seq![]
    } else if destination_id(ps.last()) == id {
        without_destination(ps.drop_last(), id)
    } else {
        without_destination(ps.drop_last(), id).push(ps.last())
    }
}

/// The enabled destinations, in order.
pub open spec fn enabled_only(ps: Seq<Platform>) -> Seq<Platform>
    decreases ps.len(),
{
    if ps.len() == 0 {
        seq![]
    } else if ps.last().enabled {
        enabled_only(ps.drop_last()).push(ps.last())
    } else {
        enabled_only(ps.drop_last())
    }
}

/// A new enabled destination for an event URL that parsed.
pub open spec fn new_destination(url: UrlParts, key: Seq<char>, p: Platform) -> bool {
    p.url == url && p.key@ == key && p.enabled && p.orientation == Orientation::Horizontal
}

fn index_of_destination(platforms: &Vec<Platform>, id: &str) -> (r: Option<usize>)
    ensures
        match r {
            Some(i) => i < platforms@.len() && find_destination(platforms@, id@, 0) == i,
            None => find_destination(platforms@, id@, 0) == -1,
        },
{
    let n = platforms.len();
    for i in 0..n
        invariant
            n == platforms@.len(),
            find_destination(platforms@, id@, 0) == find_destination(platforms@, id@, i as int),
    {
        let p = &platforms[i];
        let pid = platform_id_from(p.url.as_str(), p.key.as_str());
        if str_eq(pid.as_str(), id) {
            return Some(i);
        }
    }
    None
}

/// The enabled destinations, in order; the publisher fans out to these.
pub fn enabled_platforms(platforms: &Vec<Platform>) -> (r: Vec<Platform>)
    ensures
        r@ == enabled_only(platforms@),
{
    let mut r: Vec<Platform> = Vec::new();
    let n = platforms.len();
    for i in 0..n
        invariant
            n == platforms@.len(),
            r@ == enabled_only(platforms@.subrange(0, i as int)),
    {
        let p = &platforms[i];
        proof {
            let s = platforms@.subrange(0, i + 1);
            assert(s.drop_last() =~= platforms@.subrange(0, i as int));
            assert(s.last() == platforms@[i as int]);
        }
        if p.enabled {
            r.push(p.duplicate());
        }
    }
    proof {
        assert(platforms@.subrange(0, n as int) =~= platforms@);
    }
    r
}

/// Whether some enabled destination has identifier `id`.
pub open spec fn destination_enabled(ps: Seq<Platform>, id: Seq<char>) -> bool {
    exists|i: int| 0 <= i < ps.len() && destination_id(ps[i]) == id && #[trigger] ps[i].enabled
}

/// Whether some enabled destination has identifier `id`; a reconnect for a
/// destination that is gone or disabled is abandoned.
pub fn platform_still_enabled(platforms: &Vec<Platform>, id: &str) -> (r: bool)
    ensures
        r == destination_enabled(platforms@, id@),
{
    let n = platforms.len();
    for i in 0..n
        invariant
            n == platforms@.len(),
            forall|j: int| 0 <= j < i ==> !(destination_id(platforms@[j]) == id@ && #[trigger] platforms@[j].enabled),
    {
        let p = &platforms[i];
        let pid = platform_id_from(p.url.as_str(), p.key.as_str());
        if p.enabled && str_eq(pid.as_str(), id) {
            return true;
        }
    }
    false
}

/// Whether `after` is `before` brought in step with `event`: see
/// `sync_platforms_for_event`.
pub open spec fn synced(before: Seq<Platform>, after: Seq<Platform>, event: PlatformEvent) -> bool {
    match event {
        PlatformEvent::Added { platform_id, url, key } => {
            if find_destination(before, platform_id@, 0) != -1 || url_parse(url@).is_none() {
                after == before
            } else {
                &&& after.len() == before.len() + 1
                &&& after.drop_last() == before
                &&& Some(after.last().url@) == url_parse(url@)
                &&& after.last().key@ == key@
                &&& after.last().enabled
                &&& after.last().orientation == Orientation::Horizontal
            }
        },
        PlatformEvent::Removed { platform_id } => after == without_destination(before, platform_id@),
        PlatformEvent::Toggled { platform_id, url, key, enabled } => {
            let i = find_destination(before, platform_id@, 0);
            if i != -1 {
                let was = before[i];
                let now = after[i];
                &&& after.len() == before.len()
                &&& forall|j: int| 0 <= j < before.len() && j != i ==> after[j] == before[j]
                &&& now.enabled == enabled
                &&& now.key@ == key@
                &&& now.orientation == was.orientation
                &&& match url_parse(url@) {
                    Some(u) => now.url@ == u,
                    None => now.url == was.url,
                }
            } else if enabled && url_parse(url@).is_some() {
                &&& after.len() == before.len() + 1
                &&& after.drop_last() == before
                &&& Some(after.last().url@) == url_parse(url@)
                &&& after.last().key@ == key@
                &&& after.last().enabled
                &&& after.last().orientation == Orientation::Horizontal
            } else {
                after == before
            }
        },
    }
}

/// A destination with identifier `id` at `k` is found from any `i` up to
/// `k`.
pub proof fn lemma_find_destination_present(ps: Seq<Platform>, id: Seq<char>, i: int, k: int)
    requires
        0 <= i <= k < ps.len(),
        destination_id(ps[k]) == id,
    ensures
        find_destination(ps, id, i) != -1,
    decreases k - i,
{
    if destination_id(ps[i]) != id {
        lemma_find_destination_present(ps, id, i + 1, k);
    }
}

/// Dropping the destinations of an identifier a second time changes
/// nothing.
pub proof fn lemma_without_destination_twice(ps: Seq<Platform>, id: Seq<char>)
    ensures
        without_destination(without_destination(ps, id), id) == without_destination(ps, id),
    decreases ps.len(),
{
    if ps.len() > 0 {
        let w = without_destination(ps.drop_last(), id);
        lemma_without_destination_twice(ps.drop_last(), id);
        if destination_id(ps.last()) != id {
            assert(w.push(ps.last()).drop_last() =~= w);
        }
    }
}

/// Applying the same `Added` or `Removed` event twice leaves the list as
/// applying it once. (An `Added` event carries the identifier its URL and
/// key give, and a URL in its normal form.)
pub proof fn law_sync_event_idempotent(ps0: Seq<Platform>, ps1: Seq<Platform>, ps2: Seq<Platform>, event: PlatformEvent)
    requires
        synced(ps0, ps1, event),
        synced(ps1, ps2, event),
        match event {
            PlatformEvent::Added { platform_id, url, key } => {
                &&& platform_id@ == platform_id_of(url@, key@)
                &&& url_parse(url@) matches Some(u) && u.serialized == url@
            },
            PlatformEvent::Removed { .. } => true,
            PlatformEvent::Toggled { .. } => false,
        },
    ensures
        ps2 == ps1,
{
    match event {
        PlatformEvent::Added { platform_id, url, key } => {
            if !(find_destination(ps0, platform_id@, 0) != -1 || url_parse(url@).is_none()) {
                let k = ps1.len() - 1;
                assert(ps1[k] == ps1.last());
                assert(destination_id(ps1[k]) == platform_id@);
                lemma_find_destination_present(ps1, platform_id@, 0, k);
            }
        },
        PlatformEvent::Removed { platform_id } => {
            lemma_without_destination_twice(ps0, platform_id@);
        },
        PlatformEvent::Toggled { .. } => {},
    }
}

/// Brings the destination list in step with an event.
///
/// * `Added`: appends an enabled destination for the URL and key, unless one
///   with the event's identifier is there already or the URL does not parse.
/// * `Removed`: drops every destination with the identifier.
/// * `Toggled`: updates the first destination with the identifier (enabled
///   flag, key, and URL when it parses); when there is none and the event
///   enables it, appends it as for `Added`.
pub fn sync_platforms_for_event(platforms: &mut Vec<Platform>, event: &PlatformEvent)
    ensures
        synced(old(platforms)@, final(platforms)@, *event),
{
    match event {
        PlatformEvent::Added { platform_id, url, key } => {
            if index_of_destination(platforms, platform_id.as_str()).is_none() {
                if let Some(parsed) = UrlParts::parse(url.as_str()) {
                    platforms.push(Platform {
                        url: parsed,
                        key: key.clone(),
                        enabled: true,
                        orientation: Orientation::Horizontal,
                    });
                    proof {
                        assert(platforms@.drop_last() =~= old(platforms)@);
                    }
                }
            }
        },
        PlatformEvent::Removed { platform_id } => {
            let mut kept: Vec<Platform> = Vec::new();
            let n = platforms.len();
            for i in 0..n
                invariant
                    n == platforms@.len(),
                    platforms@ == old(platforms)@,
                    kept@ == without_destination(platforms@.subrange(0, i as int), platform_id@),
            {
                let p = &platforms[i];
                let pid = platform_id_from(p.url.as_str(), p.key.as_str());
                proof {
                    let s = platforms@.subrange(0, i + 1);
                    assert(s.drop_last() =~= platforms@.subrange(0, i as int));
                    assert(s.last() == platforms@[i as int]);
                }
                if pid != *platform_id {
                    kept.push(p.duplicate());
                }
            }
            proof {
                assert(platforms@.subrange(0, n as int) =~= platforms@);
            }
            *platforms = kept;
        },
        PlatformEvent::Toggled { platform_id, url, key, enabled } => {
            match index_of_destination(platforms, platform_id.as_str()) {
                Some(i) => {
                    let before = platforms[i].duplicate();
                    let new_url = match UrlParts::parse(url.as_str()) {
                        Some(u) => u,
                        None => before.url.duplicate(),
                    };
                    let updated = Platform {
                        url: new_url,
                        key: key.clone(),
                        enabled: *enabled,
                        orientation: before.orientation,
                    };
                    platforms.set(i, updated);
                },
                None => {
                    if *enabled {
                        if let Some(parsed) = UrlParts::parse(url.as_str()) {
                            platforms.push(Platform {
                                url: parsed,
                                key: key.clone(),
                                enabled: true,
                                orientation: Orientation::Horizontal,
                            });
                            proof {
                                assert(platforms@.drop_last() =~= old(platforms)@);
                            }
                        }
                    }
                },
            }
        },
    }
}

/// Whether a publisher's key is the configured global key; an empty
/// configured key matches nothing.
pub fn is_configured_key(configured: &str, presented: &str) -> (r: bool)
    ensures
        r == (configured@.len() > 0 && presented@ == configured@),
{
    configured.unicode_len() > 0 && str_eq(presented, configured)
}

} // verus!
