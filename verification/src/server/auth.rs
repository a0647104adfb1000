//! Logging in to the product API: credentials, throttling of repeated
//! failures, and the bearer sessions handed out.

use vstd::prelude::*;

use crate::fresh::{new_uuid_v4, uuid_v4_text};
use crate::parse::{trim_chars, trimmed};
use crate::server::events::{strip_hyphens, without_hyphens};
use crate::server::restream::AuthTokens;
use crate::text::{ascii_lower, chars_of, join2, owned, str_eq, string_of, to_ascii_lowercase};

verus! {

/// Who may log in, and whether logging in is required at all.
#[derive(Debug, Clone)]
pub struct AuthConfig {
    pub required: bool,
    pub email: String,
    pub password: Option<String>,
}

/// Whether a setting switches something on: `1`, `true` or `yes`.
pub open spec fn switched_on(v: Option<Seq<char>>) -> bool {
    match v {
        Some(s) => s == "1"@ || s == "true"@ || s == "yes"@,
        None => false,
    }
}

/// Reads a switch setting: `1`, `true` and `yes` switch it on, anything
/// else (or nothing) leaves it off.
pub fn is_switched_on(v: Option<&str>) -> (r: bool)
    ensures
        r == switched_on(
            match v {
                Some(s) => Some(s@),
                None => None,
            },
        ),
{
    match v {
        Some(s) => str_eq(s, "1") || str_eq(s, "true") || str_eq(s, "yes"),
        None => false,
    }
}

impl AuthConfig {
    /// The login rules from the settings: a password that is not blank
    /// makes login required, as does an explicit switch; the administrator
    /// is `admin@localhost` unless named.
    pub fn from_settings(auth_required: Option<&str>, password: Option<String>, email: Option<String>) -> (c: AuthConfig)
        ensures
            c.password == (match password {
                Some(p) => if trimmed(p@).len() == 0 {
                    None
                } else {
                    Some(p)
                },
                None => None,
            }),
            c.required == (switched_on(
                match auth_required {
                    Some(v) => Some(v@),
                    None => None,
                },
            ) || c.password.is_some()),
            c.email@ == match email {
                Some(e) => e@,
                None => "admin@localhost"@,
            },
    {
        let explicit = is_switched_on(auth_required);
        let password = match password {
            Some(p) => {
                let chars = chars_of(p.as_str());
                if trim_chars(&chars).len() == 0 {
                    None
                } else {
                    Some(p)
                }
            },
            None => None,
        };
        let required = explicit || password.is_some();
        let email = match email {
            Some(e) => e,
            None => owned("admin@localhost"),
        };
        AuthConfig { required, email, password }
    }
}

/// A bearer session.
#[derive(Debug, Clone)]
pub struct AuthSession {
    pub access_token: String,
    pub refresh_token: String,
    pub expires_at: u64,
}

/// Failed logins of one account.
#[derive(Debug, Clone, Copy, PartialEq, Eq, Structural)]
pub struct LoginThrottle {
    pub failures: u8,
    pub blocked_until: u64,
}

/// How long a session lasts: thirty days.
pub const SESSION_SECONDS: u64 = 2592000;

/// The record of an account's failures from index `i` on: the first entry
/// under `key`.
pub open spec fn throttle_from(ts: Seq<(String, LoginThrottle)>, key: Seq<char>, i: int) -> Option<LoginThrottle>
    decreases ts.len() - i,
{
    if i < 0 || i >= ts.len() {
        None
    } else if ts[i].0@ == key {
        Some(ts[i].1)
    } else {
        throttle_from(ts, key, i + 1)
    }
}

/// The key failures are counted under: the e-mail address trimmed and in
/// small letters.
pub open spec fn throttle_key_of(email: Seq<char>) -> Seq<char> {
    ascii_lower(trimmed(email))
}

/// The record after one more failure at `now`: the fifth failure and every
/// later one block the account for sixty seconds.
pub open spec fn after_failure(t: Option<LoginThrottle>, now: u64) -> LoginThrottle {
    let base = match t {
        Some(x) => x,
        None => LoginThrottle { failures: 0, blocked_until: 0 },
    };
    let f: u8 = if base.failures == 255 {
        255
    } else {
        (base.failures + 1) as u8
    };
    LoginThrottle {
        failures: f,
        blocked_until: if f >= 5 {
            if now as int + 60 > u64::MAX {
                u64::MAX
            } else {
                (now + 60) as u64
            }
        } else {
            base.blocked_until
        },
    }
}

/// Whether a record blocks logins at `now`.
pub open spec fn blocked(t: Option<LoginThrottle>, now: u64) -> bool {
    t matches Some(x) && x.blocked_until > now
}

/// The failure that brings an address to five failures or more, at `t0`,
/// blocks it for the next sixty seconds (up to the end of time); without
/// an administrator password no credentials are accepted.
pub proof fn law_login_lockout(t: Option<LoginThrottle>, t0: u64, now: u64, auth: AuthConfig, email: Seq<char>, password: Seq<char>)
    ensures
        after_failure(t, t0).failures >= 5 && now < t0 + 60 && now < u64::MAX ==> blocked(Some(after_failure(t, t0)), now),
        auth.password.is_none() ==> !credentials_ok(auth, email, password),
{
}

/// Whether the credentials are the configured ones; without a password
/// nobody can log in.
pub open spec fn credentials_ok(auth: AuthConfig, email: Seq<char>, password: Seq<char>) -> bool {
    auth.password matches Some(p) && email == auth.email@ && password == p@
}

/// Whether a session lets `token` in at `now`.
pub open spec fn session_admits(s: AuthSession, token: Seq<char>, now: u64) -> bool {
    s.access_token@ == token && s.expires_at > now
}

/// The sessions and failure records of the product API.
pub struct AuthState {
    sessions: Vec<AuthSession>,
    throttles: Vec<(String, LoginThrottle)>,
}

fn throttle_index(ts: &Vec<(String, LoginThrottle)>, key: &str) -> (r: Option<usize>)
    ensures
        match r {
            Some(i) => i < ts@.len() && ts@[i as int].0@ == key@ && throttle_from(ts@, key@, 0) == Some(
                ts@[i as int].1,
            ) && forall|j: int| 0 <= j < i ==> (#[trigger] ts@[j]).0@ != key@,
            None => throttle_from(ts@, key@, 0).is_none() && forall|j: int| 0 <= j < ts@.len() ==> (#[trigger] ts@[j]).0@ != key@,
        },
{
    let n = ts.len();
    for i in 0..n
        invariant
            n == ts@.len(),
            throttle_from(ts@, key@, 0) == throttle_from(ts@, key@, i as int),
            forall|j: int| 0 <= j < i ==> (#[trigger] ts@[j]).0@ != key@,
    {
        if str_eq(ts[i].0.as_str(), key) {
            return Some(i);
        }
    }
    None
}

proof fn lemma_throttle_update(ts: Seq<(String, LoginThrottle)>, i: int, entry: (String, LoginThrottle), k: Seq<char>, j: int)
    requires
        0 <= i < ts.len(),
        ts[i].0@ == entry.0@,
        entry.0@ != k,
        0 <= j,
    ensures
        throttle_from(ts.update(i, entry), k, j) == throttle_from(ts, k, j),
    decreases ts.len() - j,
{
    if j < ts.len() {
        lemma_throttle_update(ts, i, entry, k, j + 1);
    }
}

proof fn lemma_throttle_push(ts: Seq<(String, LoginThrottle)>, entry: (String, LoginThrottle), k: Seq<char>, j: int)
    requires
        entry.0@ != k,
        0 <= j <= ts.len(),
    ensures
        throttle_from(ts.push(entry), k, j) == throttle_from(ts, k, j),
    decreases ts.len() - j,
{
    if j < ts.len() {
        assert(ts.push(entry)[j] == ts[j]);
        lemma_throttle_push(ts, entry, k, j + 1);
    } else {
        assert(ts.push(entry)[j] == entry);
        assert(throttle_from(ts.push(entry), k, j + 1).is_none());
    }
}

proof fn lemma_throttle_first(ts: Seq<(String, LoginThrottle)>, k: Seq<char>, i: int, j: int)
    requires
        0 <= j <= i < ts.len(),
        ts[i].0@ == k,
        forall|m: int| j <= m < i ==> (#[trigger] ts[m]).0@ != k,
    ensures
        throttle_from(ts, k, j) == Some(ts[i].1),
    decreases i - j,
{
    if j < i {
        lemma_throttle_first(ts, k, i, j + 1);
    }
}

proof fn lemma_throttle_none(ts: Seq<(String, LoginThrottle)>, k: Seq<char>, j: int)
    requires
        0 <= j,
        forall|m: int| j <= m < ts.len() ==> (#[trigger] ts[m]).0@ != k,
    ensures
        throttle_from(ts, k, j).is_none(),
    decreases ts.len() - j,
{
    if j < ts.len() {
        lemma_throttle_none(ts, k, j + 1);
    }
}

impl AuthState {
    /// The sessions handed out and not revoked.
    pub closed spec fn session_list(&self) -> Seq<AuthSession> {
        self.sessions@
    }

    /// The failure record of an account.
    pub closed spec fn throttle(&self, key: Seq<char>) -> Option<LoginThrottle> {
        throttle_from(self.throttles@, key, 0)
    }

    /// No sessions, no failures.
    pub fn new() -> (s: AuthState)
        ensures
            s.session_list().len() == 0,
            forall|k: Seq<char>| #[trigger] s.throttle(k).is_none(),
    {
        AuthState { sessions: Vec::new(), throttles: Vec::new() }
    }

    fn set_throttle(&mut self, key: String, t: LoginThrottle)
        ensures
            final(self).throttle(key@) == Some(t),
            forall|k: Seq<char>| k != key@ ==> #[trigger] final(self).throttle(k) == old(self).throttle(k),
            final(self).session_list() == old(self).session_list(),
    {
        match throttle_index(&self.throttles, key.as_str()) {
            Some(i) => {
                let ghost old_ts = self.throttles@;
                let ghost entry = (key, t);
                proof {
                    assert forall|k: Seq<char>| k != key@ implies throttle_from(old_ts.update(i as int, entry), k, 0)
                        == throttle_from(old_ts, k, 0) by {
                        lemma_throttle_update(old_ts, i as int, entry, k, 0);
                    }
                    lemma_throttle_first(old_ts.update(i as int, entry), key@, i as int, 0);
                }
                self.throttles.set(i, (key, t));
            },
            None => {
                let ghost old_ts = self.throttles@;
                let ghost entry = (key, t);
                proof {
                    assert forall|k: Seq<char>| k != key@ implies throttle_from(old_ts.push(entry), k, 0) == throttle_from(
                        old_ts,
                        k,
                        0,
                    ) by {
                        lemma_throttle_push(old_ts, entry, k, 0);
                    }
                    lemma_throttle_first(old_ts.push(entry), key@, old_ts.len() as int, 0);
                }
                self.throttles.push((key, t));
            },
        }
    }

    fn clear_throttle(&mut self, key: &str)
        ensures
            final(self).throttle(key@).is_none(),
            forall|k: Seq<char>| k != key@ ==> #[trigger] final(self).throttle(k) == old(self).throttle(k),
            final(self).session_list() == old(self).session_list(),
    {
        let ghost before = self.throttles@;
        let mut kept: Vec<(String, LoginThrottle)> = Vec::new();
        let n = self.throttles.len();
        for i in 0..n
            invariant
                n == before.len(),
                self.throttles@ == before,
                forall|m: int| 0 <= m < kept@.len() ==> (#[trigger] kept@[m]).0@ != key@,
                forall|k: Seq<char>|
                    k != key@ ==> #[trigger] throttle_from(kept@, k, 0) == throttle_from(before.subrange(0, i as int), k, 0),
        {
            let same = str_eq(self.throttles[i].0.as_str(), key);
            let ghost prev = kept@;
            let ghost pre = before.subrange(0, i as int);
            let ghost post = before.subrange(0, i + 1);
            proof {
                assert(post =~= pre.push(before[i as int]));
            }
            if !same {
                let entry = (self.throttles[i].0.clone(), self.throttles[i].1);
                kept.push(entry);
                proof {
                    assert forall|k: Seq<char>| k != key@ implies #[trigger] throttle_from(kept@, k, 0) == throttle_from(
                        post,
                        k,
                        0,
                    ) by {
                        lemma_throttle_append(prev, pre, entry, k);
                    }
                }
            } else {
                proof {
                    assert forall|k: Seq<char>| k != key@ implies #[trigger] throttle_from(kept@, k, 0) == throttle_from(
                        post,
                        k,
                        0,
                    ) by {
                        lemma_throttle_push(pre, before[i as int], k, 0);
                    }
                }
            }
        }
        proof {
            assert(before.subrange(0, n as int) =~= before);
            lemma_throttle_none(kept@, key@, 0);
        }
        self.throttles = kept;
    }

    /// One login attempt at `now`, before any session is made: refused
    /// while the account is blocked; a failure is counted; a success clears
    /// the account's record. True when the credentials are accepted.
    pub fn login_attempt(&mut self, auth: &AuthConfig, email: &str, password: &str, now: u64) -> (ok: bool)
        ensures
            ({
                let key = throttle_key_of(email@);
                let t = old(self).throttle(key);
                &&& final(self).session_list() == old(self).session_list()
                &&& if blocked(t, now) {
                    !ok && forall|k: Seq<char>| #[trigger] final(self).throttle(k) == old(self).throttle(k)
                } else if !credentials_ok(*auth, email@, password@) {
                    &&& !ok
                    &&& final(self).throttle(key) == Some(after_failure(t, now))
                    &&& forall|k: Seq<char>| k != key ==> #[trigger] final(self).throttle(k) == old(self).throttle(k)
                } else {
                    &&& ok
                    &&& final(self).throttle(key).is_none()
                    &&& forall|k: Seq<char>| k != key ==> #[trigger] final(self).throttle(k) == old(self).throttle(k)
                }
            }),
    {
        let chars = chars_of(email);
        let trimmed_email = string_of(&trim_chars(&chars));
        let key = to_ascii_lowercase(trimmed_email.as_str());
        let current = match throttle_index(&self.throttles, key.as_str()) {
            Some(i) => Some(self.throttles[i].1),
            None => None,
        };
        if let Some(t) = current {
            if t.blocked_until > now {
                return false;
            }
        }
        let valid = match &auth.password {
            Some(p) => str_eq(email, auth.email.as_str()) && str_eq(password, p.as_str()),
            None => false,
        };
        if !valid {
            let base = match current {
                Some(t) => t,
                None => LoginThrottle { failures: 0, blocked_until: 0 },
            };
            let failures = base.failures.saturating_add(1);
            let blocked_until = if failures >= 5 {
                now.saturating_add(60)
            } else {
                base.blocked_until
            };
            self.set_throttle(key, LoginThrottle { failures, blocked_until });
            return false;
        }
        self.clear_throttle(key.as_str());
        true
    }

    /// Opens a session whose tokens are made from two identifiers, valid for
    /// thirty days from `now`.
    pub fn create_session_with(&mut self, access_id: &str, refresh_id: &str, now: u64) -> (t: AuthTokens)
        requires
            now + SESSION_SECONDS <= u64::MAX,
        ensures
            t.access_token@ == "rst_"@ + without_hyphens(access_id@),
            t.refresh_token@ == "rsr_"@ + without_hyphens(refresh_id@),
            t.token_type@ == "Bearer"@,
            t.expires_in == SESSION_SECONDS,
            final(self).session_list().len() == old(self).session_list().len() + 1,
            final(self).session_list().drop_last() == old(self).session_list(),
            final(self).session_list().last().access_token == t.access_token,
            final(self).session_list().last().refresh_token == t.refresh_token,
            final(self).session_list().last().expires_at == now + SESSION_SECONDS,
            forall|k: Seq<char>| #[trigger] final(self).throttle(k) == old(self).throttle(k),
    {
        let a = strip_hyphens(access_id);
        let r = strip_hyphens(refresh_id);
        let access_token = join2("rst_", a.as_str());
        let refresh_token = join2("rsr_", r.as_str());
        self.sessions.push(
            AuthSession {
                access_token: access_token.clone(),
                refresh_token: refresh_token.clone(),
                expires_at: now + SESSION_SECONDS,
            },
        );
        proof {
            assert(self.sessions@.drop_last() =~= old(self).sessions@);
        }
        AuthTokens { access_token, refresh_token, token_type: owned("Bearer"), expires_in: SESSION_SECONDS }
    }

    /// Logs in at `now`: on accepted credentials a session with fresh
    /// random tokens is opened.
    pub fn login(&mut self, auth: &AuthConfig, email: &str, password: &str, now: u64) -> (r: Result<
        AuthTokens,
        String,
    >)
        requires
            blocked(old(self).throttle(throttle_key_of(email@)), now) || !credentials_ok(*auth, email@, password@) || now
                + SESSION_SECONDS <= u64::MAX,
        ensures
            ({
                let key = throttle_key_of(email@);
                let t = old(self).throttle(key);
                if blocked(t, now) {
                    &&& r matches Err(e) && e@ == "invalid credentials"@
                    &&& final(self).session_list() == old(self).session_list()
                    &&& forall|k: Seq<char>| #[trigger] final(self).throttle(k) == old(self).throttle(k)
                } else if !credentials_ok(*auth, email@, password@) {
                    &&& r matches Err(e) && e@ == "invalid credentials"@
                    &&& final(self).session_list() == old(self).session_list()
                    &&& final(self).throttle(key) == Some(after_failure(t, now))
                    &&& forall|k: Seq<char>| k != key ==> #[trigger] final(self).throttle(k) == old(self).throttle(k)
                } else {
                    &&& r matches Ok(tokens)
                    &&& final(self).session_list().len() == old(self).session_list().len() + 1
                    &&& final(self).session_list().last().access_token == tokens.access_token
                    &&& final(self).session_list().last().refresh_token == tokens.refresh_token
                    &&& tokens.token_type@ == "Bearer"@
                    &&& tokens.expires_in == SESSION_SECONDS
                    &&& exists|a: Seq<char>| uuid_v4_text(a) && tokens.access_token@ == "rst_"@ + without_hyphens(a)
                    &&& exists|b: Seq<char>| uuid_v4_text(b) && tokens.refresh_token@ == "rsr_"@ + without_hyphens(b)
                    &&& final(self).session_list().drop_last() == old(self).session_list()
                    &&& final(self).session_list().last().expires_at == now + SESSION_SECONDS
                    &&& final(self).throttle(key).is_none()
                    &&& forall|k: Seq<char>| k != key ==> #[trigger] final(self).throttle(k) == old(self).throttle(k)
                }
            }),
    {
        if !self.login_attempt(auth, email, password, now) {
            return Err(owned("invalid credentials"));
        }
        let a = new_uuid_v4();
        let b = new_uuid_v4();
        Ok(self.create_session_with(a.as_str(), b.as_str(), now))
    }

    /// Trades a refresh token for a new session at `now`: the first session
    /// that holds it and has not expired is replaced.
    pub fn refresh_session_with(&mut self, refresh_token: &str, access_id: &str, refresh_id: &str, now: u64) -> (r:
        Result<AuthTokens, String>)
        requires
            now + SESSION_SECONDS <= u64::MAX,
        ensures
            ({
                let ss = old(self).session_list();
                let k = refreshable_at(ss, refresh_token@, now, 0);
                &&& forall|key: Seq<char>| #[trigger] final(self).throttle(key) == old(self).throttle(key)
                &&& if k == -1 {
                    &&& r matches Err(e) && e@ == "invalid refresh token"@
                    &&& final(self).session_list() == ss
                } else {
                    &&& r matches Ok(t)
                    &&& t.access_token@ == "rst_"@ + without_hyphens(access_id@)
                    &&& t.refresh_token@ == "rsr_"@ + without_hyphens(refresh_id@)
                    &&& final(self).session_list() == ss.update(
                        k,
                        AuthSession {
                            access_token: t.access_token,
                            refresh_token: t.refresh_token,
                            expires_at: (now + SESSION_SECONDS) as u64,
                        },
                    )
                }
            }),
    {
        let k = match refreshable_index(&self.sessions, refresh_token, now) {
            Some(k) => k,
            None => {
                return Err(owned("invalid refresh token"));
            },
        };
        let a = strip_hyphens(access_id);
        let b = strip_hyphens(refresh_id);
        let access_token = join2("rst_", a.as_str());
        let next_refresh = join2("rsr_", b.as_str());
        self.sessions.set(
            k,
            AuthSession {
                access_token: access_token.clone(),
                refresh_token: next_refresh.clone(),
                expires_at: now + SESSION_SECONDS,
            },
        );
        Ok(AuthTokens {
            access_token,
            refresh_token: next_refresh,
            token_type: owned("Bearer"),
            expires_in: SESSION_SECONDS,
        })
    }

    /// Ends every session of an access token.
    pub fn revoke_session(&mut self, access_token: &str)
        ensures
            final(self).session_list() == old(self).session_list().filter(other_session(access_token@)),
            forall|k: Seq<char>| #[trigger] final(self).throttle(k) == old(self).throttle(k),
    {
        let ghost before = self.sessions@;
        let ghost pred = other_session(access_token@);
        let mut kept: Vec<AuthSession> = Vec::new();
        let n = self.sessions.len();
        for i in 0..n
            invariant
                n == before.len(),
                self.sessions@ == before,
                pred == other_session(access_token@),
                kept@ == before.subrange(0, i as int).filter(pred),
        {
            let ghost prev = kept@;
            let same = str_eq(self.sessions[i].access_token.as_str(), access_token);
            if !same {
                let s = &self.sessions[i];
                kept.push(
                    AuthSession {
                        access_token: s.access_token.clone(),
                        refresh_token: s.refresh_token.clone(),
                        expires_at: s.expires_at,
                    },
                );
            }
            proof {
                reveal(Seq::filter);
                let t = before.subrange(0, i + 1);
                assert(t.drop_last() =~= before.subrange(0, i as int));
                assert(t.last() == before[i as int]);
                assert(pred(t.last()) == !same);
                assert(kept@ =~= t.filter(pred));
            }
        }
        proof {
            assert(before.subrange(0, n as int) =~= before);
        }
        self.sessions = kept;
    }

    /// Whether `token` may use the API at `now`: always when login is not
    /// required, else when an unexpired session holds it.
    pub fn validate_access_token(&self, auth: &AuthConfig, token: &str, now: u64) -> (ok: bool)
        ensures
            ok == (!auth.required || exists|i: int|
                0 <= i < self.session_list().len() && session_admits(#[trigger] self.session_list()[i], token@, now)),
    {
        if !auth.required {
            return true;
        }
        let n = self.sessions.len();
        for i in 0..n
            invariant
                n == self.sessions@.len(),
                forall|j: int| 0 <= j < i ==> !session_admits(#[trigger] self.sessions@[j], token@, now),
        {
            let s = &self.sessions[i];
            if str_eq(s.access_token.as_str(), token) && s.expires_at > now {
                assert(session_admits(self.session_list()[i as int], token@, now));
                return true;
            }
        }
        false
    }
}

fn refreshable_index(sessions: &Vec<AuthSession>, token: &str, now: u64) -> (r: Option<usize>)
    ensures
        match r {
            Some(k) => k < sessions@.len() && refreshable_at(sessions@, token@, now, 0) == k,
            None => refreshable_at(sessions@, token@, now, 0) == -1,
        },
{
    let n = sessions.len();
    for i in 0..n
        invariant
            n == sessions@.len(),
            refreshable_at(sessions@, token@, now, 0) == refreshable_at(sessions@, token@, now, i as int),
    {
        let s = &sessions[i];
        if str_eq(s.refresh_token.as_str(), token) && s.expires_at > now {
            return Some(i);
        }
    }
    None
}

/// Holds of a session not under `access_token`.
pub open spec fn other_session(access_token: Seq<char>) -> spec_fn(AuthSession) -> bool {
    |s: AuthSession| s.access_token@ != access_token
}

/// The first index from `i` on of an unexpired session holding the refresh
/// token, or -1.
pub open spec fn refreshable_at(ss: Seq<AuthSession>, token: Seq<char>, now: u64, i: int) -> int
    decreases ss.len() - i,
{
    if i < 0 || i >= ss.len() {
        -1
    } else if ss[i].refresh_token@ == token && ss[i].expires_at > now {
        i
    } else {
        refreshable_at(ss, token, now, i + 1)
    }
}

proof fn lemma_throttle_append(
    prev: Seq<(String, LoginThrottle)>,
    pre: Seq<(String, LoginThrottle)>,
    entry: (String, LoginThrottle),
    k: Seq<char>,
)
    requires
        throttle_from(prev, k, 0) == throttle_from(pre, k, 0),
    ensures
        throttle_from(prev.push(entry), k, 0) == throttle_from(pre.push(entry), k, 0),
{
    lemma_throttle_push_value(prev, entry, k, 0);
    lemma_throttle_push_value(pre, entry, k, 0);
}

proof fn lemma_throttle_push_value(ts: Seq<(String, LoginThrottle)>, entry: (String, LoginThrottle), k: Seq<char>, j: int)
    requires
        0 <= j <= ts.len(),
    ensures
        throttle_from(ts.push(entry), k, j) == match throttle_from(ts, k, j) {
            Some(t) => Some(t),
            None => if entry.0@ == k {
                Some(entry.1)
            } else {
                None
            },
        },
    decreases ts.len() - j,
{
    if j < ts.len() {
        assert(ts.push(entry)[j] == ts[j]);
        lemma_throttle_push_value(ts, entry, k, j + 1);
    } else {
        assert(ts.push(entry)[j] == entry);
        assert(throttle_from(ts.push(entry), k, j + 1).is_none());
    }
}

/// Whether a stream key may publish: the runtime key, or the key of an
/// event; an empty key never.
pub fn accepts_stream_key(stream_key: &str, runtime_key: &str, event_keys: &Vec<String>) -> (ok: bool)
    ensures
        ok == (stream_key@.len() > 0 && (runtime_key@ == stream_key@ || exists|i: int|
            0 <= i < event_keys@.len() && (#[trigger] event_keys@[i])@ == stream_key@)),
{
    if stream_key.unicode_len() == 0 {
        return false;
    }
    if str_eq(runtime_key, stream_key) {
        return true;
    }
    let n = event_keys.len();
    for i in 0..n
        invariant
            n == event_keys@.len(),
            stream_key@.len() > 0,
            forall|j: int| 0 <= j < i ==> (#[trigger] event_keys@[j])@ != stream_key@,
    {
        if str_eq(event_keys[i].as_str(), stream_key) {
            assert((event_keys@[i as int])@ == stream_key@);
            return true;
        }
    }
    false
}

/// Five failed logins in a row block the account for sixty seconds from
/// the fifth; the first four do not block it.
pub proof fn law_fifth_failure_blocks(t1: u64, t2: u64, t3: u64, t4: u64, t5: u64, later: u64)
    requires
        t5 as int + 60 <= u64::MAX,
        t5 <= later < t5 + 60,
    ensures
        ({
            let r1 = after_failure(None, t1);
            let r2 = after_failure(Some(r1), t2);
            let r3 = after_failure(Some(r2), t3);
            let r4 = after_failure(Some(r3), t4);
            let r5 = after_failure(Some(r4), t5);
            &&& !blocked(Some(r1), t1) && !blocked(Some(r2), t2) && !blocked(Some(r3), t3) && !blocked(Some(r4), t4)
            &&& r5.failures == 5
            &&& blocked(Some(r5), later)
            &&& !blocked(Some(r5), (t5 + 60) as u64)
        }),
{
}

/// A revoked token lets nothing in.
pub proof fn law_revoked_token_rejected(ss: Seq<AuthSession>, token: Seq<char>, now: u64)
    ensures
        forall|i: int|
            0 <= i < ss.filter(other_session(token)).len() ==> !session_admits(
                #[trigger] ss.filter(other_session(token))[i],
                token,
                now,
            ),
{
    assert forall|i: int| 0 <= i < ss.filter(other_session(token)).len() implies !session_admits(
        #[trigger] ss.filter(other_session(token))[i],
        token,
        now,
    ) by {
        ss.lemma_filter_pred(other_session(token), i);
    }
}

} // verus!
