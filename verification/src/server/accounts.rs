//! The account side of the store: OAuth links to destination accounts,
//! the one-time states of OAuth round trips, the profile, and webhook
//! subscriptions.

use vstd::prelude::*;

use crate::server::records::{Keyed, find_keyed, key_at, lemma_key_at_push, lemma_none_after_remove, lookup, other_key, remove_keyed};
use crate::server::restream::{OAuthConnection, Profile, WebhookSubscription, clone_strings, clone_opt};
use crate::text::{owned, str_eq};

verus! {

impl Keyed for OAuthConnection {
    open spec fn key(&self) -> Seq<char> {
        self.id@
    }

    fn key_str(&self) -> (r: &str) {
        self.id.as_str()
    }
}


/// Two links with the same fields.
pub open spec fn same_connection(a: OAuthConnection, b: OAuthConnection) -> bool {
    &&& a.id == b.id
    &&& a.platform_id == b.platform_id
    &&& a.access_token == b.access_token
    &&& a.refresh_token == b.refresh_token
    &&& a.token_type == b.token_type
    &&& a.expires_at == b.expires_at
    &&& a.scopes@ == b.scopes@
    &&& a.connected_at == b.connected_at
    &&& a.updated_at == b.updated_at
}

impl OAuthConnection {
    /// A copy with the same fields.
    pub fn duplicate(&self) -> (r: OAuthConnection)
        ensures
            same_connection(r, *self),
    {
        OAuthConnection {
            id: self.id.clone(),
            platform_id: self.platform_id.clone(),
            access_token: self.access_token.clone(),
            refresh_token: clone_opt(&self.refresh_token),
            token_type: self.token_type.clone(),
            expires_at: self.expires_at,
            scopes: clone_strings(&self.scopes),
            connected_at: self.connected_at,
            updated_at: self.updated_at,
        }
    }
}

/// The first link to a destination platform from index `i` on, or -1.
pub open spec fn link_of(cs: Seq<OAuthConnection>, platform_id: Seq<char>, i: int) -> int
    decreases cs.len() - i,
{
    if i < 0 || i >= cs.len() {
        -1
    } else if cs[i].platform_id@ == platform_id {
        i
    } else {
        link_of(cs, platform_id, i + 1)
    }
}

proof fn lemma_link_of(cs: Seq<OAuthConnection>, platform_id: Seq<char>, i: int)
    requires
        0 <= i,
    ensures
        link_of(cs, platform_id, i) != -1 ==> i <= link_of(cs, platform_id, i) < cs.len() && cs[link_of(
            cs,
            platform_id,
            i,
        )].platform_id@ == platform_id,
    decreases cs.len() - i,
{
    if i < cs.len() {
        lemma_link_of(cs, platform_id, i + 1);
    }
}

fn link_index(cs: &Vec<OAuthConnection>, platform_id: &str) -> (r: Option<usize>)
    ensures
        match r {
            Some(i) => i < cs@.len() && link_of(cs@, platform_id@, 0) == i,
            None => link_of(cs@, platform_id@, 0) == -1,
        },
{
    let n = cs.len();
    for i in 0..n
        invariant
            n == cs@.len(),
            link_of(cs@, platform_id@, 0) == link_of(cs@, platform_id@, i as int),
    {
        if str_eq(cs[i].platform_id.as_str(), platform_id) {
            return Some(i);
        }
    }
    None
}

/// Saves the tokens of an OAuth link at `now`: the platform's link, if it
/// has one, takes the new tokens; else link `id` is made. A copy of the
/// link.
pub fn save_oauth_connection(
    connections: &mut Vec<OAuthConnection>,
    id: &str,
    now: u64,
    platform_id: String,
    access_token: String,
    refresh_token: Option<String>,
    token_type: String,
    expires_at: Option<u64>,
    scopes: Vec<String>,
) -> (r: OAuthConnection)
    ensures
        ({
            let cs = old(connections)@;
            let k = link_of(cs, platform_id@, 0);
            &&& r.platform_id@ == platform_id@
            &&& r.access_token == access_token
            &&& r.refresh_token == refresh_token
            &&& r.token_type == token_type
            &&& r.expires_at == expires_at
            &&& r.scopes@ == scopes@
            &&& r.updated_at == now
            &&& if k == -1 {
                &&& r.id@ == id@
                &&& r.connected_at == now
                &&& final(connections)@.drop_last() == cs
                &&& final(connections)@.len() == cs.len() + 1
                &&& same_connection(final(connections)@.last(), r)
            } else {
                &&& r.id == cs[k].id
                &&& r.connected_at == cs[k].connected_at
                &&& final(connections)@.len() == cs.len()
                &&& forall|i: int| 0 <= i < cs.len() && i != k ==> #[trigger] final(connections)@[i] == cs[i]
                &&& same_connection(final(connections)@[k], r)
            }
        }),
{
    match link_index(connections, platform_id.as_str()) {
        Some(k) => {
            proof {
                lemma_link_of(connections@, platform_id@, 0);
            }
            connections[k].access_token = access_token;
            connections[k].refresh_token = refresh_token;
            connections[k].token_type = token_type;
            connections[k].expires_at = expires_at;
            connections[k].scopes = scopes;
            connections[k].updated_at = now;
            connections[k].duplicate()
        },
        None => {
            let c = OAuthConnection {
                id: owned(id),
                platform_id,
                access_token,
                refresh_token,
                token_type,
                expires_at,
                scopes,
                connected_at: now,
                updated_at: now,
            };
            connections.push(c.duplicate());
            proof {
                assert(final(connections)@.drop_last() =~= old(connections)@);
            }
            c
        },
    }
}

/// Deletes every link with identifier `connection_id`; true when there
/// was one.
pub fn delete_connection(connections: &mut Vec<OAuthConnection>, connection_id: &str) -> (deleted: bool)
    ensures
        deleted == (key_at(old(connections)@, connection_id@, 0) != -1),
        final(connections)@ == old(connections)@.filter(other_key::<OAuthConnection>(connection_id@)),
{
    remove_keyed(connections, connection_id)
}

/// A pending OAuth round trip: the state it was started with, the platform,
/// the redirect URI, when it expires, and the session that started it.
#[derive(Debug, Clone)]
pub struct OAuthState {
    pub state: String,
    pub platform_id: String,
    pub redirect_uri: String,
    pub expires_at: u64,
    pub owner_token: String,
}

impl Keyed for OAuthState {
    open spec fn key(&self) -> Seq<char> {
        self.state@
    }

    fn key_str(&self) -> (r: &str) {
        self.state.as_str()
    }
}

/// How long an OAuth round trip may take, in seconds.
pub const OAUTH_STATE_SECONDS: u64 = 600;

/// Remembers a round trip started at `now`, in place of one with the same
/// state; it expires ten minutes later (or at the end of time).
pub fn save_oauth_state(
    states: &mut Vec<OAuthState>,
    state: String,
    platform_id: String,
    redirect_uri: String,
    owner_token: String,
    now: u64,
)
    ensures
        ({
            let kept = old(states)@.filter(other_key::<OAuthState>(state@));
            &&& final(states)@.len() == kept.len() + 1
            &&& final(states)@.drop_last() == kept
            &&& final(states)@.last() == (OAuthState {
                state,
                platform_id,
                redirect_uri,
                expires_at: if now + OAUTH_STATE_SECONDS <= u64::MAX {
                    (now + OAUTH_STATE_SECONDS) as u64
                } else {
                    u64::MAX
                },
                owner_token,
            })
        }),
{
    remove_keyed(states, state.as_str());
    let expires_at = now.saturating_add(OAUTH_STATE_SECONDS);
    let ghost kept = states@;
    states.push(OAuthState { state, platform_id, redirect_uri, expires_at, owner_token });
    proof {
        assert(states@.drop_last() =~= kept);
    }
}

/// Whether a round trip returning with `state` is the one that was
/// started: same platform, redirect URI and session, and not expired.
pub open spec fn round_trip_ok(
    s: Option<OAuthState>,
    platform_id: Seq<char>,
    redirect_uri: Seq<char>,
    owner_token: Seq<char>,
    now: u64,
) -> bool {
    match s {
        None => false,
        Some(e) => e.platform_id@ == platform_id && e.redirect_uri@ == redirect_uri && e.owner_token@ == owner_token
            && e.expires_at > now,
    }
}

/// Uses up the round trip of `state`: it is forgotten whatever comes of
/// it, and accepted when it is the one that was started.
pub fn consume_oauth_state(
    states: &mut Vec<OAuthState>,
    state: &str,
    platform_id: &str,
    redirect_uri: &str,
    owner_token: &str,
    now: u64,
) -> (ok: bool)
    ensures
        ok == round_trip_ok(lookup(old(states)@, state@), platform_id@, redirect_uri@, owner_token@, now),
        final(states)@ == old(states)@.filter(other_key::<OAuthState>(state@)),
{
    let found = match find_keyed(states, state) {
        Some(k) => {
            let e = &states[k];
            str_eq(e.platform_id.as_str(), platform_id) && str_eq(e.redirect_uri.as_str(), redirect_uri) && str_eq(
                e.owner_token.as_str(),
                owner_token,
            ) && e.expires_at > now
        },
        None => false,
    };
    remove_keyed(states, state);
    found
}

/// An OAuth round trip is used once: right after it was saved as `e`
/// (taking `before` to `saved`), consuming its state accepts exactly a
/// return with the saved platform, redirect URI and session before it
/// expires; once consumed (leaving `consumed`), the state is never
/// accepted again.
pub proof fn law_oauth_state_single_use(
    before: Seq<OAuthState>,
    saved: Seq<OAuthState>,
    consumed: Seq<OAuthState>,
    e: OAuthState,
    platform_id: Seq<char>,
    redirect_uri: Seq<char>,
    owner_token: Seq<char>,
    now: u64,
    later_platform_id: Seq<char>,
    later_redirect_uri: Seq<char>,
    later_owner_token: Seq<char>,
    later: u64,
)
    requires
        saved.len() == before.filter(other_key::<OAuthState>(e.state@)).len() + 1,
        saved.drop_last() == before.filter(other_key::<OAuthState>(e.state@)),
        saved.last() == e,
        consumed == saved.filter(other_key::<OAuthState>(e.state@)),
    ensures
        round_trip_ok(lookup(saved, e.state@), platform_id, redirect_uri, owner_token, now) == (e.platform_id@
            == platform_id && e.redirect_uri@ == redirect_uri && e.owner_token@ == owner_token && e.expires_at > now),
        !round_trip_ok(lookup(consumed, e.state@), later_platform_id, later_redirect_uri, later_owner_token, later),
{
    let kept = before.filter(other_key::<OAuthState>(e.state@));
    lemma_none_after_remove(before, e.state@);
    assert(saved =~= kept.push(e));
    lemma_key_at_push(kept, e, e.state@);
    lemma_none_after_remove(saved, e.state@);
}

/// The profile after an update: each given field replaces the one there
/// (an avatar is set, never cleared).
pub fn update_profile(
    profile: &mut Profile,
    display_name: Option<String>,
    timezone: Option<String>,
    avatar_url: Option<String>,
) -> (r: Profile)
    ensures
        *final(profile) == (Profile {
            display_name: match display_name {
                Some(v) => v,
                None => old(profile).display_name,
            },
            timezone: match timezone {
                Some(v) => v,
                None => old(profile).timezone,
            },
            avatar_url: match avatar_url {
                Some(v) => Some(v),
                None => old(profile).avatar_url,
            },
            ..*old(profile)
        }),
        r == *final(profile),
{
    if let Some(v) = display_name {
        profile.display_name = v;
    }
    if let Some(v) = timezone {
        profile.timezone = v;
    }
    if let Some(v) = avatar_url {
        profile.avatar_url = Some(v);
    }
    Profile {
        id: profile.id.clone(),
        username: profile.username.clone(),
        email: profile.email.clone(),
        display_name: profile.display_name.clone(),
        timezone: profile.timezone.clone(),
        avatar_url: clone_opt(&profile.avatar_url),
        created_at: profile.created_at,
    }
}

/// Two subscriptions with the same fields.
pub open spec fn same_webhook(a: WebhookSubscription, b: WebhookSubscription) -> bool {
    &&& a.id == b.id
    &&& a.url == b.url
    &&& a.secret == b.secret
    &&& a.events@ == b.events@
    &&& a.enabled == b.enabled
    &&& a.created_at == b.created_at
    &&& a.updated_at == b.updated_at
}

impl WebhookSubscription {
    /// A copy with the same fields.
    pub fn duplicate(&self) -> (r: WebhookSubscription)
        ensures
            same_webhook(r, *self),
    {
        WebhookSubscription {
            id: self.id.clone(),
            url: self.url.clone(),
            secret: clone_opt(&self.secret),
            events: clone_strings(&self.events),
            enabled: self.enabled,
            created_at: self.created_at,
            updated_at: self.updated_at,
        }
    }
}

/// Changes the first subscription with identifier `webhook_id` at `now`:
/// each given field replaces the one there (a secret is set, never
/// cleared). A copy, or `None` when there is none.
pub fn update_webhook(
    webhooks: &mut Vec<WebhookSubscription>,
    webhook_id: &str,
    url: Option<String>,
    secret: Option<String>,
    events: Option<Vec<String>>,
    enabled: Option<bool>,
    now: u64,
) -> (r: Option<WebhookSubscription>)
    ensures
        ({
            let ws = old(webhooks)@;
            let k = key_at(ws, webhook_id@, 0);
            if k == -1 {
                r.is_none() && final(webhooks)@ == ws
            } else {
                let w = final(webhooks)@[k];
                &&& final(webhooks)@.len() == ws.len()
                &&& forall|i: int| 0 <= i < ws.len() && i != k ==> #[trigger] final(webhooks)@[i] == ws[i]
                &&& w.id == ws[k].id && w.created_at == ws[k].created_at && w.updated_at == now
                &&& w.url == match url {
                    Some(v) => v,
                    None => ws[k].url,
                }
                &&& w.secret == match secret {
                    Some(v) => Some(v),
                    None => ws[k].secret,
                }
                &&& w.events@ == match events {
                    Some(v) => v@,
                    None => ws[k].events@,
                }
                &&& w.enabled == match enabled {
                    Some(v) => v,
                    None => ws[k].enabled,
                }
                &&& r matches Some(x) && same_webhook(x, w)
            }
        }),
{
    let k = match find_keyed(webhooks, webhook_id) {
        Some(k) => k,
        None => {
            return None;
        },
    };
    if let Some(v) = url {
        webhooks[k].url = v;
    }
    if let Some(v) = secret {
        webhooks[k].secret = Some(v);
    }
    if let Some(v) = events {
        webhooks[k].events = v;
    }
    if let Some(v) = enabled {
        webhooks[k].enabled = v;
    }
    webhooks[k].updated_at = now;
    Some(webhooks[k].duplicate())
}

} // verus!
