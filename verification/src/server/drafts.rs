//! Stream drafts: saved event setups, created, changed, copied and
//! deleted.

use vstd::prelude::*;

use crate::server::records::{Keyed, find_keyed, key_at, lookup, other_key, remove_keyed};
use crate::server::restream::{Draft, Event, StreamType, clone_strings, clone_opt};
use crate::text::{join2, owned};

verus! {

impl Keyed for Draft {
    open spec fn key(&self) -> Seq<char> {
        self.id@
    }

    fn key_str(&self) -> (r: &str) {
        self.id.as_str()
    }
}

/// Whether `d` has exactly these fields.
pub open spec fn draft_is(
    d: Draft,
    id: Seq<char>,
    name: Seq<char>,
    stream_type: StreamType,
    title: Seq<char>,
    description: Seq<char>,
    destination_ids: Seq<String>,
    brand_id: Option<String>,
    studio_session_id: Option<String>,
    created_at: u64,
    updated_at: u64,
) -> bool {
    &&& d.id@ == id
    &&& d.name@ == name
    &&& d.stream_type == stream_type
    &&& d.title@ == title
    &&& d.description@ == description
    &&& d.destination_ids@ == destination_ids
    &&& d.brand_id == brand_id
    &&& d.studio_session_id == studio_session_id
    &&& d.created_at == created_at
    &&& d.updated_at == updated_at
}

/// Two drafts with the same fields.
pub open spec fn same_draft(a: Draft, b: Draft) -> bool {
    draft_is(
        a,
        b.id@,
        b.name@,
        b.stream_type,
        b.title@,
        b.description@,
        b.destination_ids@,
        b.brand_id,
        b.studio_session_id,
        b.created_at,
        b.updated_at,
    )
}


impl Draft {
    /// A copy with the same fields.
    pub fn duplicate(&self) -> (r: Draft)
        ensures
            same_draft(r, *self),
    {
        Draft {
            id: self.id.clone(),
            name: self.name.clone(),
            stream_type: self.stream_type,
            title: self.title.clone(),
            description: self.description.clone(),
            destination_ids: clone_strings(&self.destination_ids),
            brand_id: clone_opt(&self.brand_id),
            studio_session_id: clone_opt(&self.studio_session_id),
            created_at: self.created_at,
            updated_at: self.updated_at,
        }
    }
}

/// Creates draft `id` at `now`, with no studio session, adds it to the
/// list and returns a copy.
pub fn create_draft(
    drafts: &mut Vec<Draft>,
    id: &str,
    now: u64,
    name: String,
    stream_type: StreamType,
    title: String,
    description: String,
    destination_ids: Vec<String>,
    brand_id: Option<String>,
) -> (r: Draft)
    ensures
        draft_is(r, id@, name@, stream_type, title@, description@, destination_ids@, brand_id, None, now, now),
        final(drafts)@.len() == old(drafts)@.len() + 1,
        final(drafts)@.drop_last() == old(drafts)@,
        same_draft(final(drafts)@.last(), r),
{
    let d = Draft {
        id: owned(id),
        name,
        stream_type,
        title,
        description,
        destination_ids,
        brand_id,
        studio_session_id: None,
        created_at: now,
        updated_at: now,
    };
    drafts.push(d.duplicate());
    proof {
        assert(final(drafts)@.drop_last() =~= old(drafts)@);
    }
    d
}

/// Whether `after` is draft `d` changed at `now`: each given field replaces
/// the one there (a brand is set, never cleared).
pub open spec fn draft_patched(
    after: Draft,
    d: Draft,
    name: Option<String>,
    title: Option<String>,
    description: Option<String>,
    destination_ids: Option<Seq<String>>,
    brand_id: Option<String>,
    now: u64,
) -> bool {
    draft_is(
        after,
        d.id@,
        match name {
            Some(v) => v@,
            None => d.name@,
        },
        d.stream_type,
        match title {
            Some(v) => v@,
            None => d.title@,
        },
        match description {
            Some(v) => v@,
            None => d.description@,
        },
        match destination_ids {
            Some(v) => v,
            None => d.destination_ids@,
        },
        match brand_id {
            Some(v) => Some(v),
            None => d.brand_id,
        },
        d.studio_session_id,
        d.created_at,
        now,
    )
}

/// Changes the first draft with identifier `draft_id` at `now`; returns a
/// copy, or `None`, changing nothing, when there is none.
pub fn update_draft(
    drafts: &mut Vec<Draft>,
    draft_id: &str,
    name: Option<String>,
    title: Option<String>,
    description: Option<String>,
    destination_ids: Option<Vec<String>>,
    brand_id: Option<String>,
    now: u64,
) -> (r: Option<Draft>)
    ensures
        ({
            let ds = old(drafts)@;
            let k = key_at(ds, draft_id@, 0);
            let ids = match destination_ids {
                Some(v) => Some(v@),
                None => None,
            };
            if k == -1 {
                r.is_none() && final(drafts)@ == ds
            } else {
                &&& final(drafts)@.len() == ds.len()
                &&& forall|i: int| 0 <= i < ds.len() && i != k ==> #[trigger] final(drafts)@[i] == ds[i]
                &&& draft_patched(final(drafts)@[k], ds[k], name, title, description, ids, brand_id, now)
                &&& r matches Some(x) && same_draft(x, final(drafts)@[k])
            }
        }),
{
    let k = match find_keyed(drafts, draft_id) {
        Some(k) => k,
        None => {
            return None;
        },
    };
    let mut d = drafts[k].duplicate();
    if let Some(v) = name {
        d.name = v;
    }
    if let Some(v) = title {
        d.title = v;
    }
    if let Some(v) = description {
        d.description = v;
    }
    if let Some(v) = destination_ids {
        d.destination_ids = v;
    }
    if let Some(v) = brand_id {
        d.brand_id = Some(v);
    }
    d.updated_at = now;
    let copy = d.duplicate();
    drafts.set(k, d);
    Some(copy)
}

/// Deletes every draft with identifier `draft_id`; true when there was one.
pub fn delete_draft(drafts: &mut Vec<Draft>, draft_id: &str) -> (deleted: bool)
    ensures
        deleted == (key_at(old(drafts)@, draft_id@, 0) != -1),
        final(drafts)@ == old(drafts)@.filter(other_key::<Draft>(draft_id@)),
{
    remove_keyed(drafts, draft_id)
}

/// The name of a copy: `Copy of ` and the original's.
pub open spec fn copy_name(name: Seq<char>) -> Seq<char> {
    "Copy of "@ + name
}

/// Copies the first draft with identifier `draft_id` into a new draft `id`
/// at `now`, named as a copy; `None`, changing nothing, when there is no
/// such draft.
pub fn duplicate_draft(drafts: &mut Vec<Draft>, draft_id: &str, id: &str, now: u64) -> (r: Option<Draft>)
    ensures
        ({
            let ds = old(drafts)@;
            match lookup(ds, draft_id@) {
                None => r.is_none() && final(drafts)@ == ds,
                Some(src) => {
                    &&& r matches Some(x) && draft_is(
                        x,
                        id@,
                        copy_name(src.name@),
                        src.stream_type,
                        src.title@,
                        src.description@,
                        src.destination_ids@,
                        src.brand_id,
                        None,
                        now,
                        now,
                    )
                    &&& final(drafts)@.drop_last() == ds
                    &&& same_draft(final(drafts)@.last(), r->Some_0)
                },
            }
        }),
{
    let k = match find_keyed(drafts, draft_id) {
        Some(k) => k,
        None => {
            return None;
        },
    };
    let src = drafts[k].duplicate();
    let name = join2("Copy of ", src.name.as_str());
    Some(
        create_draft(drafts, id, now, name, src.stream_type, src.title, src.description, src.destination_ids, src.brand_id),
    )
}

/// Saves the first event with identifier `event_id` as a new draft `id` at
/// `now`, named as a copy of its title, with no brand; `None`, changing
/// nothing, when there is no such event.
pub fn duplicate_event(events: &Vec<Event>, drafts: &mut Vec<Draft>, event_id: &str, id: &str, now: u64) -> (r: Option<
    Draft,
>)
    ensures
        ({
            let ds = old(drafts)@;
            match lookup(events@, event_id@) {
                None => r.is_none() && final(drafts)@ == ds,
                Some(e) => {
                    &&& r matches Some(x) && draft_is(
                        x,
                        id@,
                        copy_name(e.title@),
                        e.stream_type,
                        e.title@,
                        e.description@,
                        e.destination_ids@,
                        None,
                        None,
                        now,
                        now,
                    )
                    &&& final(drafts)@.drop_last() == ds
                    &&& same_draft(final(drafts)@.last(), r->Some_0)
                },
            }
        }),
{
    let k = match find_keyed(events, event_id) {
        Some(k) => k,
        None => {
            return None;
        },
    };
    let e = &events[k];
    let name = join2("Copy of ", e.title.as_str());
    Some(
        create_draft(
            drafts,
            id,
            now,
            name,
            e.stream_type,
            e.title.clone(),
            e.description.clone(),
            clone_strings(&e.destination_ids),
            None,
        ),
    )
}

} // verus!
