//! Studio sessions of events: guests invited to them and the scenes they
//! switch between, at most one of them on air after a switch.

use vstd::prelude::*;

use crate::server::records::{Keyed, find_keyed, key_at, other_key, remove_keyed};
use crate::server::restream::{Event, Guest, Scene, clone_strings, clone_opt};
use crate::text::{join2, owned, str_eq};

verus! {

/// A studio session of an event. `S` is its settings document, which the
/// session keeps without reading.
pub struct StudioSession<S> {
    pub id: String,
    pub event_id: String,
    pub status: String,
    pub layout: String,
    pub settings: S,
    pub guest_link: String,
    pub guests: Vec<Guest>,
    pub scenes: Vec<Scene>,
    pub active_scene_id: Option<String>,
    pub created_at: u64,
    pub updated_at: u64,
}

impl<S> Keyed for StudioSession<S> {
    open spec fn key(&self) -> Seq<char> {
        self.id@
    }

    fn key_str(&self) -> (r: &str) {
        self.id.as_str()
    }
}

impl Keyed for Guest {
    open spec fn key(&self) -> Seq<char> {
        self.id@
    }

    fn key_str(&self) -> (r: &str) {
        self.id.as_str()
    }
}

impl Keyed for Scene {
    open spec fn key(&self) -> Seq<char> {
        self.id@
    }

    fn key_str(&self) -> (r: &str) {
        self.id.as_str()
    }
}

/// Two scenes with the same fields.
pub open spec fn same_scene(a: Scene, b: Scene) -> bool {
    a.id == b.id && a.name == b.name && a.layout == b.layout && a.source_ids@ == b.source_ids@ && a.active == b.active
}

impl Scene {
    /// A copy with the same fields.
    pub fn duplicate(&self) -> (r: Scene)
        ensures
            same_scene(r, *self),
    {
        Scene {
            id: self.id.clone(),
            name: self.name.clone(),
            layout: self.layout.clone(),
            source_ids: clone_strings(&self.source_ids),
            active: self.active,
        }
    }
}

impl Guest {
    /// A copy with the same fields.
    pub fn duplicate(&self) -> (r: Guest)
        ensures
            r == *self,
    {
        Guest {
            id: self.id.clone(),
            name: self.name.clone(),
            role: self.role.clone(),
            join_url: self.join_url.clone(),
            status: self.status.clone(),
            created_at: self.created_at,
        }
    }
}

/// Two scene lists with the same scenes.
pub open spec fn same_scenes(a: Seq<Scene>, b: Seq<Scene>) -> bool {
    a.len() == b.len() && forall|i: int| 0 <= i < a.len() ==> same_scene(#[trigger] a[i], b[i])
}

/// Two sessions alike but for their settings.
pub open spec fn same_session<S>(a: StudioSession<S>, b: StudioSession<S>) -> bool {
    &&& a.id == b.id
    &&& a.event_id == b.event_id
    &&& a.status == b.status
    &&& a.layout == b.layout
    &&& a.guest_link == b.guest_link
    &&& a.guests@ == b.guests@
    &&& same_scenes(a.scenes@, b.scenes@)
    &&& a.active_scene_id == b.active_scene_id
    &&& a.created_at == b.created_at
    &&& a.updated_at == b.updated_at
}


fn copy_guests(v: &Vec<Guest>) -> (r: Vec<Guest>)
    ensures
        r@ == v@,
{
    let mut r: Vec<Guest> = Vec::new();
    let n = v.len();
    for i in 0..n
        invariant
            n == v@.len(),
            r@ == v@.subrange(0, i as int),
    {
        r.push(v[i].duplicate());
        proof {
            assert(r@ =~= v@.subrange(0, i + 1));
        }
    }
    proof {
        assert(v@.subrange(0, n as int) =~= v@);
    }
    r
}

fn copy_scenes(v: &Vec<Scene>) -> (r: Vec<Scene>)
    ensures
        same_scenes(r@, v@),
{
    let mut r: Vec<Scene> = Vec::new();
    let n = v.len();
    for i in 0..n
        invariant
            n == v@.len(),
            r@.len() == i,
            forall|j: int| 0 <= j < i ==> same_scene(#[trigger] r@[j], v@[j]),
    {
        r.push(v[i].duplicate());
    }
    r
}

impl<S: Clone> StudioSession<S> {
    /// A copy; the settings are cloned.
    pub fn duplicate(&self) -> (r: StudioSession<S>)
        ensures
            same_session(r, *self),
            cloned::<S>(self.settings, r.settings),
    {
        StudioSession {
            id: self.id.clone(),
            event_id: self.event_id.clone(),
            status: self.status.clone(),
            layout: self.layout.clone(),
            settings: self.settings.clone(),
            guest_link: self.guest_link.clone(),
            guests: copy_guests(&self.guests),
            scenes: copy_scenes(&self.scenes),
            active_scene_id: clone_opt(&self.active_scene_id),
            created_at: self.created_at,
            updated_at: self.updated_at,
        }
    }
}

/// The first session of an event from index `i` on, or -1.
pub open spec fn session_of_event<S>(ss: Seq<StudioSession<S>>, event_id: Seq<char>, i: int) -> int
    decreases ss.len() - i,
{
    if i < 0 || i >= ss.len() {
        -1
    } else if ss[i].event_id@ == event_id {
        i
    } else {
        session_of_event(ss, event_id, i + 1)
    }
}

fn session_index<S>(ss: &Vec<StudioSession<S>>, event_id: &str) -> (r: Option<usize>)
    ensures
        match r {
            Some(i) => i < ss@.len() && session_of_event(ss@, event_id@, 0) == i,
            None => session_of_event(ss@, event_id@, 0) == -1,
        },
{
    let n = ss.len();
    for i in 0..n
        invariant
            n == ss@.len(),
            session_of_event(ss@, event_id@, 0) == session_of_event(ss@, event_id@, i as int),
    {
        if str_eq(ss[i].event_id.as_str(), event_id) {
            return Some(i);
        }
    }
    None
}

/// A new session `id` of an event at `now`: idle, in a grid, with the
/// event's guest link, no guests, and one main scene `scene_id` on air.
pub open spec fn is_new_session<S>(s: StudioSession<S>, id: Seq<char>, event_id: Seq<char>, scene_id: Seq<char>, now: u64) -> bool {
    &&& s.id@ == id
    &&& s.event_id@ == event_id
    &&& s.status@ == "idle"@
    &&& s.layout@ == "grid"@
    &&& s.guest_link@ == "/studio/guest/"@ + event_id
    &&& s.guests@.len() == 0
    &&& s.scenes@.len() == 1
    &&& s.scenes@[0].id@ == scene_id
    &&& s.scenes@[0].name@ == "Main scene"@
    &&& s.scenes@[0].layout@ == "grid"@
    &&& s.scenes@[0].source_ids@.len() == 0
    &&& s.scenes@[0].active
    &&& s.active_scene_id.is_none()
    &&& s.created_at == now
    &&& s.updated_at == now
}

/// The session of an event: the one it has, else a new session `id`
/// created at `now` with `settings`, when the event exists. `None` when
/// neither is there.
pub fn get_or_create_studio_session<S: Clone>(
    sessions: &mut Vec<StudioSession<S>>,
    events: &Vec<Event>,
    event_id: &str,
    id: &str,
    scene_id: &str,
    now: u64,
    settings: S,
) -> (r: Option<StudioSession<S>>)
    ensures
        ({
            let ss = old(sessions)@;
            let k = session_of_event(ss, event_id@, 0);
            if k != -1 {
                final(sessions)@ == ss && (r matches Some(x) && same_session(x, ss[k]))
            } else if key_at(events@, event_id@, 0) == -1 {
                final(sessions)@ == ss && r.is_none()
            } else {
                &&& final(sessions)@.len() == ss.len() + 1
                &&& final(sessions)@.drop_last() == ss
                &&& is_new_session(final(sessions)@.last(), id@, event_id@, scene_id@, now)
                &&& r matches Some(x) && same_session(x, final(sessions)@.last())
            }
        }),
{
    if let Some(k) = session_index(sessions, event_id) {
        return Some(sessions[k].duplicate());
    }
    if find_keyed(events, event_id).is_none() {
        return None;
    }
    let mut scenes: Vec<Scene> = Vec::new();
    scenes.push(
        Scene { id: owned(scene_id), name: owned("Main scene"), layout: owned("grid"), source_ids: Vec::new(), active: true },
    );
    let s = StudioSession {
        id: owned(id),
        event_id: owned(event_id),
        status: owned("idle"),
        layout: owned("grid"),
        settings,
        guest_link: join2("/studio/guest/", event_id),
        guests: Vec::new(),
        scenes,
        active_scene_id: None,
        created_at: now,
        updated_at: now,
    };
    let copy = s.duplicate();
    sessions.push(s);
    proof {
        assert(final(sessions)@.drop_last() =~= old(sessions)@);
    }
    Some(copy)
}

/// Changes the layout, settings or status of the first session with
/// identifier `session_id`, at `now`; a copy, or `None` when there is none.
pub fn update_studio_session<S: Clone>(
    sessions: &mut Vec<StudioSession<S>>,
    session_id: &str,
    layout: Option<String>,
    settings: Option<S>,
    status: Option<String>,
    now: u64,
) -> (r: Option<StudioSession<S>>)
    ensures
        ({
            let ss = old(sessions)@;
            let k = key_at(ss, session_id@, 0);
            if k == -1 {
                r.is_none() && final(sessions)@ == ss
            } else {
                let s = final(sessions)@[k];
                &&& final(sessions)@.len() == ss.len()
                &&& forall|i: int| 0 <= i < ss.len() && i != k ==> #[trigger] final(sessions)@[i] == ss[i]
                &&& same_session(
                    s,
                    StudioSession {
                        layout: match layout {
                            Some(v) => v,
                            None => ss[k].layout,
                        },
                        status: match status {
                            Some(v) => v,
                            None => ss[k].status,
                        },
                        settings: s.settings,
                        updated_at: now,
                        ..ss[k]
                    },
                )
                &&& s.settings == match settings {
                    Some(v) => v,
                    None => ss[k].settings,
                }
                &&& r matches Some(x) && same_session(x, s)
            }
        }),
{
    let k = match find_keyed(sessions, session_id) {
        Some(k) => k,
        None => {
            return None;
        },
    };
    if let Some(v) = layout {
        sessions[k].layout = v;
    }
    if let Some(v) = settings {
        sessions[k].settings = v;
    }
    if let Some(v) = status {
        sessions[k].status = v;
    }
    sessions[k].updated_at = now;
    Some(sessions[k].duplicate())
}

/// The role of a guest invited without one.
pub open spec fn guest_role(role: Option<String>) -> Seq<char> {
    match role {
        Some(r) => r@,
        None => "guest"@,
    }
}

/// Invites guest `guest_id` to the first session with identifier
/// `session_id` at `now`, with the join link `join_id`; the guest, or
/// `None` when there is no such session.
pub fn add_guest<S>(
    sessions: &mut Vec<StudioSession<S>>,
    session_id: &str,
    guest_id: &str,
    join_id: &str,
    name: String,
    role: Option<String>,
    now: u64,
) -> (r: Option<Guest>)
    ensures
        ({
            let ss = old(sessions)@;
            let k = key_at(ss, session_id@, 0);
            if k == -1 {
                r.is_none() && final(sessions)@ == ss
            } else {
                let s = final(sessions)@[k];
                &&& final(sessions)@.len() == ss.len()
                &&& forall|i: int| 0 <= i < ss.len() && i != k ==> #[trigger] final(sessions)@[i] == ss[i]
                &&& r matches Some(g) && {
                    &&& g.id@ == guest_id@
                    &&& g.name == name
                    &&& g.role@ == guest_role(role)
                    &&& g.join_url@ == "/studio/guest/"@ + join_id@
                    &&& g.status@ == "invited"@
                    &&& g.created_at == now
                    &&& s.guests@ == ss[k].guests@.push(g)
                }
                &&& same_session(s, StudioSession { guests: s.guests, updated_at: now, ..ss[k] })
                &&& s.settings == ss[k].settings
            }
        }),
{
    let k = match find_keyed(sessions, session_id) {
        Some(k) => k,
        None => {
            return None;
        },
    };
    let g = Guest {
        id: owned(guest_id),
        name,
        role: match role {
            Some(r) => r,
            None => owned("guest"),
        },
        join_url: join2("/studio/guest/", join_id),
        status: owned("invited"),
        created_at: now,
    };
    sessions[k].guests.push(g.duplicate());
    sessions[k].updated_at = now;
    Some(g)
}

/// Removes every guest with identifier `guest_id` from the first session
/// with identifier `session_id`; true when one was there.
pub fn remove_guest<S>(sessions: &mut Vec<StudioSession<S>>, session_id: &str, guest_id: &str) -> (removed: bool)
    ensures
        ({
            let ss = old(sessions)@;
            let k = key_at(ss, session_id@, 0);
            if k == -1 {
                !removed && final(sessions)@ == ss
            } else {
                let s = final(sessions)@[k];
                &&& final(sessions)@.len() == ss.len()
                &&& forall|i: int| 0 <= i < ss.len() && i != k ==> #[trigger] final(sessions)@[i] == ss[i]
                &&& removed == (key_at(ss[k].guests@, guest_id@, 0) != -1)
                &&& s.guests@ == ss[k].guests@.filter(other_key::<Guest>(guest_id@))
                &&& same_session(s, StudioSession { guests: s.guests, ..ss[k] })
                &&& s.settings == ss[k].settings
            }
        }),
{
    let k = match find_keyed(sessions, session_id) {
        Some(k) => k,
        None => {
            return false;
        },
    };
    remove_keyed(&mut sessions[k].guests, guest_id)
}

/// The layout of a scene added without one.
pub open spec fn scene_layout(layout: Option<String>) -> Seq<char> {
    match layout {
        Some(l) => l@,
        None => "grid"@,
    }
}

/// Adds scene `scene_id`, off air, to the first session with identifier
/// `session_id` at `now`; the scene, or `None` when there is no such
/// session.
pub fn add_scene<S>(
    sessions: &mut Vec<StudioSession<S>>,
    session_id: &str,
    scene_id: &str,
    name: String,
    layout: Option<String>,
    source_ids: Vec<String>,
    now: u64,
) -> (r: Option<Scene>)
    ensures
        ({
            let ss = old(sessions)@;
            let k = key_at(ss, session_id@, 0);
            if k == -1 {
                r.is_none() && final(sessions)@ == ss
            } else {
                let s = final(sessions)@[k];
                &&& final(sessions)@.len() == ss.len()
                &&& forall|i: int| 0 <= i < ss.len() && i != k ==> #[trigger] final(sessions)@[i] == ss[i]
                &&& r matches Some(sc) && {
                    &&& sc.id@ == scene_id@
                    &&& sc.name == name
                    &&& sc.layout@ == scene_layout(layout)
                    &&& sc.source_ids@ == source_ids@
                    &&& !sc.active
                    &&& same_scenes(s.scenes@, ss[k].scenes@.push(sc))
                }
                &&& s == (StudioSession { scenes: s.scenes, updated_at: now, ..ss[k] })
            }
        }),
{
    let k = match find_keyed(sessions, session_id) {
        Some(k) => k,
        None => {
            return None;
        },
    };
    let sc = Scene {
        id: owned(scene_id),
        name,
        layout: match layout {
            Some(l) => l,
            None => owned("grid"),
        },
        source_ids,
        active: false,
    };
    sessions[k].scenes.push(sc.duplicate());
    sessions[k].updated_at = now;
    Some(sc)
}

/// Whether `after` is scene `sc` with the given fields replaced.
pub open spec fn scene_patched(
    after: Scene,
    sc: Scene,
    name: Option<String>,
    layout: Option<String>,
    source_ids: Option<Seq<String>>,
    active: Option<bool>,
) -> bool {
    &&& after.id == sc.id
    &&& after.name == match name {
        Some(v) => v,
        None => sc.name,
    }
    &&& after.layout == match layout {
        Some(v) => v,
        None => sc.layout,
    }
    &&& after.source_ids@ == match source_ids {
        Some(v) => v,
        None => sc.source_ids@,
    }
    &&& after.active == match active {
        Some(v) => v,
        None => sc.active,
    }
}

/// Changes scene `scene_id` of the first session with identifier
/// `session_id` at `now`. Putting a scene on air takes every other scene of
/// the session off air and makes it the session's active scene, so one
/// scene is on air afterwards. The scene, or `None`, changing nothing, when
/// the session or the scene is not there.
pub fn update_scene<S>(
    sessions: &mut Vec<StudioSession<S>>,
    session_id: &str,
    scene_id: &str,
    name: Option<String>,
    layout: Option<String>,
    source_ids: Option<Vec<String>>,
    active: Option<bool>,
    now: u64,
) -> (r: Option<Scene>)
    ensures
        ({
            let ss = old(sessions)@;
            let k = key_at(ss, session_id@, 0);
            if k == -1 || key_at(ss[k].scenes@, scene_id@, 0) == -1 {
                r.is_none() && final(sessions)@ == ss
            } else {
                let j = key_at(ss[k].scenes@, scene_id@, 0);
                let before = ss[k].scenes@;
                let s = final(sessions)@[k];
                let ids = match source_ids {
                    Some(v) => Some(v@),
                    None => None,
                };
                &&& final(sessions)@.len() == ss.len()
                &&& forall|i: int| 0 <= i < ss.len() && i != k ==> #[trigger] final(sessions)@[i] == ss[i]
                &&& s.scenes@.len() == before.len()
                &&& scene_patched(s.scenes@[j], before[j], name, layout, ids, active)
                &&& forall|i: int|
                    0 <= i < before.len() && i != j ==> if active == Some(true) {
                        same_scene(#[trigger] s.scenes@[i], Scene { active: false, ..before[i] })
                    } else {
                        same_scene(s.scenes@[i], before[i])
                    }
                &&& active == Some(true) ==> forall|i: int| 0 <= i < s.scenes@.len() ==> (#[trigger] s.scenes@[i].active <==> i == j)
                &&& s.active_scene_id == if active == Some(true) {
                    Some(before[j].id)
                } else {
                    ss[k].active_scene_id
                }
                &&& s.id == ss[k].id && s.event_id == ss[k].event_id && s.status == ss[k].status
                &&& s.layout == ss[k].layout && s.settings == ss[k].settings && s.guest_link == ss[k].guest_link
                &&& s.guests == ss[k].guests && s.created_at == ss[k].created_at && s.updated_at == now
                &&& r matches Some(x) && same_scene(x, s.scenes@[j])
            }
        }),
{
    let k = match find_keyed(sessions, session_id) {
        Some(k) => k,
        None => {
            return None;
        },
    };
    let j = match find_keyed(&sessions[k].scenes, scene_id) {
        Some(j) => j,
        None => {
            return None;
        },
    };
    let ghost before = sessions@[k as int].scenes@;
    if let Some(v) = name {
        sessions[k].scenes[j].name = v;
    }
    if let Some(v) = layout {
        sessions[k].scenes[j].layout = v;
    }
    if let Some(v) = source_ids {
        sessions[k].scenes[j].source_ids = v;
    }
    if let Some(v) = active {
        sessions[k].scenes[j].active = v;
        if v {
            let ghost all = sessions@;
            let ghost sk = sessions@[k as int];
            let n = sessions[k].scenes.len();
            for i in 0..n
                invariant
                    k < sessions@.len(),
                    sessions@.len() == all.len(),
                    forall|x: int| 0 <= x < all.len() && x != k ==> #[trigger] sessions@[x] == all[x],
                    j < n,
                    n == sk.scenes@.len(),
                    sessions@[k as int] == (StudioSession { scenes: sessions@[k as int].scenes, ..sk }),
                    sessions@[k as int].scenes@.len() == n,
                    forall|x: int|
                        0 <= x < n ==> #[trigger] sessions@[k as int].scenes@[x] == (if x < i && x != j {
                            Scene { active: false, ..sk.scenes@[x] }
                        } else {
                            sk.scenes@[x]
                        }),
            {
                if i != j {
                    sessions[k].scenes[i].active = false;
                }
            }
            let sid = sessions[k].scenes[j].id.clone();
            sessions[k].active_scene_id = Some(sid);
        }
    }
    sessions[k].updated_at = now;
    Some(sessions[k].scenes[j].duplicate())
}

} // verus!
