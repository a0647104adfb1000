//! Linking destination accounts with OAuth: starting a round trip, the
//! checks before a token exchange, and what is kept of the provider's
//! answer.

use vstd::prelude::*;

use crate::parse::{first_non_ws, trim_chars, trimmed, white_space};
use crate::server::accounts::{OAuthState, consume_oauth_state, round_trip_ok};
use crate::server::api_v1::{ApiError, bad_request, parse_url, url_problem};
use crate::server::records::lookup;
use crate::text::{chars_of, join2, owned, str_eq, string_of};
use crate::weburl::{UrlParts, url_parse};

verus! {

/// A setting as the OAuth flow reads it: blank counts as not set.
pub open spec fn setting(v: Option<String>) -> Option<String> {
    match v {
        Some(s) => if trimmed(s@).len() == 0 {
            None
        } else {
            Some(s)
        },
        None => None,
    }
}

/// A configured setting, or `None` when it is absent or blank.
pub fn read_setting(v: Option<String>) -> (r: Option<String>)
    ensures
        r == setting(v),
{
    match v {
        Some(s) => {
            let c = chars_of(s.as_str());
            if trim_chars(&c).len() == 0 {
                None
            } else {
                Some(s)
            }
        },
        None => None,
    }
}

/// The OAuth client of a platform, as configured (blank settings count as
/// not set).
#[derive(Debug, Clone)]
pub struct OAuthSettings {
    pub client_id: Option<String>,
    pub client_secret: Option<String>,
    pub authorize_url: Option<String>,
    pub token_url: Option<String>,
    pub scopes: Option<String>,
}

/// Whether `e` is the reply with this status, code and message.
pub open spec fn is_error(e: ApiError, status: u16, code: Seq<char>, message: Seq<char>) -> bool {
    e.status == status && e.code@ == code && e.message@ == message
}

fn error(status: u16, code: &str, message: String) -> (e: ApiError)
    ensures
        is_error(e, status, code@, message@),
{
    ApiError { status, code: owned(code), message }
}

/// `url::Url::parse`, then `query_pairs_mut().append_pair` for each pair in
/// order, then `to_string`: the URL with the pairs added to its query,
/// form-encoded; `None` when the base does not parse.
pub uninterp spec fn with_query_pairs_of(base: Seq<char>, pairs: Seq<(Seq<char>, Seq<char>)>) -> Option<Seq<char>>;

/// The view of a list of pairs of strings.
pub open spec fn pairs_view(pairs: Seq<(String, String)>) -> Seq<(Seq<char>, Seq<char>)> {
    pairs.map_values(|p: (String, String)| (p.0@, p.1@))
}

/// `url::Url::parse`, `Url::query_pairs_mut`, `Serializer::append_pair` and
/// `Url::to_string`. The result is the named function of its arguments;
/// it is `None` exactly when the base does not parse as a URL.
#[verifier::external_body]
pub(crate) fn with_query_pairs(base: &str, pairs: &Vec<(String, String)>) -> (r: Option<String>)
    ensures
        match r {
            Some(u) => with_query_pairs_of(base@, pairs_view(pairs@)) == Some(u@),
            None => with_query_pairs_of(base@, pairs_view(pairs@)).is_none(),
        },
        r.is_some() == url_parse(base@).is_some(),
{
    match url::Url::parse(base) {
        Ok(mut url) => {
            for (k, v) in pairs.iter() {
                url.query_pairs_mut().append_pair(k, v);
            }
            Some(url.to_string())
        },
        Err(_) => None,
    }
}

/// The query pairs an authorization request carries.
pub open spec fn authorize_pairs(client_id: Seq<char>, redirect_uri: Seq<char>, state: Seq<char>, scope: Seq<char>) -> Seq<
    (Seq<char>, Seq<char>),
> {
    let base = seq![
        ("response_type"@, "code"@),
        ("client_id"@, client_id),
        ("redirect_uri"@, redirect_uri),
        ("state"@, state),
    ];
    if scope.len() == 0 {
        base
    } else {
        base.push(("scope"@, scope))
    }
}

/// What starting a round trip comes to: the reply refusing it, or the
/// authorization URL to send the user to.
pub open spec fn authorize_outcome(
    platform: Seq<char>,
    s: OAuthSettings,
    state: Seq<char>,
    redirect_uri: Seq<char>,
    scope: Option<Seq<char>>,
) -> Result<Seq<char>, (u16, Seq<char>, Seq<char>)> {
    match setting(s.client_id) {
        None => Err((501, "oauth_not_configured"@, "OAuth client is not configured for platform "@ + platform)),
        Some(client_id) => match setting(s.authorize_url) {
            None => Err(
                (501, "oauth_not_configured"@, "OAuth authorize URL is not configured for platform "@ + platform),
            ),
            Some(base) => if trimmed(state).len() == 0 {
                Err((400, "invalid_request"@, "state is required for OAuth CSRF protection"@))
            } else if url_parse(base@).is_none() {
                Err((500, "oauth_configuration_invalid"@, "OAuth authorize URL is invalid"@))
            } else if url_problem(redirect_uri, "redirectUri"@).is_some() {
                Err((400, "invalid_request"@, url_problem(redirect_uri, "redirectUri"@)->Some_0))
            } else {
                let sc = match scope {
                    Some(x) => x,
                    None => match setting(s.scopes) {
                        Some(x) => x@,
                        None => Seq::empty(),
                    },
                };
                match with_query_pairs_of(base@, authorize_pairs(client_id@, redirect_uri, state, sc)) {
                    Some(u) => Ok(u),
                    None => Err((500, "oauth_configuration_invalid"@, "OAuth authorize URL is invalid"@)),
                }
            },
        },
    }
}

fn push_pair(pairs: &mut Vec<(String, String)>, k: &str, v: &str)
    ensures
        pairs_view(final(pairs)@) == pairs_view(old(pairs)@).push((k@, v@)),
{
    pairs.push((owned(k), owned(v)));
    proof {
        assert(pairs_view(final(pairs)@) =~= pairs_view(old(pairs)@).push((k@, v@)));
    }
}

/// Starts a round trip to a platform's OAuth provider: the URL the user is
/// sent to, with the client, redirect URI, state and scope (the one asked
/// for, else the configured one) in its query. The caller remembers the
/// state afterwards.
pub fn authorize_url(
    platform: &str,
    settings: &OAuthSettings,
    state: &str,
    redirect_uri: &str,
    scope: Option<String>,
) -> (r: Result<String, ApiError>)
    ensures
        match authorize_outcome(
            platform@,
            *settings,
            state@,
            redirect_uri@,
            match scope {
                Some(x) => Some(x@),
                None => None,
            },
        ) {
            Ok(u) => r matches Ok(x) && x@ == u,
            Err((status, code, message)) => r matches Err(e) && is_error(e, status, code, message),
        },
{
    let client_id = match read_setting(settings.client_id.clone()) {
        Some(c) => c,
        None => {
            return Err(
                error(501, "oauth_not_configured", join2("OAuth client is not configured for platform ", platform)),
            );
        },
    };
    let base = match read_setting(settings.authorize_url.clone()) {
        Some(b) => b,
        None => {
            return Err(
                error(
                    501,
                    "oauth_not_configured",
                    join2("OAuth authorize URL is not configured for platform ", platform),
                ),
            );
        },
    };
    let sc = chars_of(state);
    if trim_chars(&sc).len() == 0 {
        return Err(bad_request(owned("state is required for OAuth CSRF protection")));
    }
    if UrlParts::parse(base.as_str()).is_none() {
        return Err(error(500, "oauth_configuration_invalid", owned("OAuth authorize URL is invalid")));
    }
    if let Err(e) = parse_url(redirect_uri, "redirectUri") {
        return Err(e);
    }
    let scope_text = match scope {
        Some(x) => x,
        None => match read_setting(settings.scopes.clone()) {
            Some(x) => x,
            None => String::new(),
        },
    };
    let mut pairs: Vec<(String, String)> = Vec::new();
    push_pair(&mut pairs, "response_type", "code");
    push_pair(&mut pairs, "client_id", client_id.as_str());
    push_pair(&mut pairs, "redirect_uri", redirect_uri);
    push_pair(&mut pairs, "state", state);
    if scope_text.as_str().unicode_len() > 0 {
        push_pair(&mut pairs, "scope", scope_text.as_str());
    }
    proof {
        assert(pairs_view(pairs@) =~= authorize_pairs(client_id@, redirect_uri@, state@, scope_text@));
    }
    match with_query_pairs(base.as_str(), &pairs) {
        Some(u) => Ok(u),
        None => Err(error(500, "oauth_configuration_invalid", owned("OAuth authorize URL is invalid"))),
    }
}

/// A token exchange as the client asks for it.
#[derive(Debug, Clone)]
pub struct TokenRequest {
    pub grant_type: Option<String>,
    pub code: Option<String>,
    pub refresh_token: Option<String>,
    pub state: Option<String>,
    pub redirect_uri: Option<String>,
}

/// The exchange to make with the provider: where, as whom, and the form.
#[derive(Debug, Clone)]
pub struct TokenPlan {
    pub token_url: String,
    pub client_id: String,
    pub client_secret: String,
    pub form: Vec<(String, String)>,
}

/// The grant a request asks for: the one named, else a refresh when it
/// carries a refresh token, else a code exchange.
pub open spec fn grant_of(req: TokenRequest) -> Seq<char> {
    match req.grant_type {
        Some(g) => g@,
        None => if req.refresh_token.is_some() {
            "refresh_token"@
        } else {
            "authorization_code"@
        },
    }
}

/// The form sent to the provider: the grant, then the code, refresh token
/// and redirect URI the request carries.
pub open spec fn token_form(req: TokenRequest) -> Seq<(Seq<char>, Seq<char>)> {
    let f0 = seq![("grant_type"@, grant_of(req))];
    let f1 = match req.code {
        Some(c) => f0.push(("code"@, c@)),
        None => f0,
    };
    let f2 = match req.refresh_token {
        Some(t) => f1.push(("refresh_token"@, t@)),
        None => f1,
    };
    match req.redirect_uri {
        Some(u) => f2.push(("redirect_uri"@, u@)),
        None => f2,
    }
}

/// The first reason to refuse an exchange before it is made, or `None`.
/// A code exchange uses up the round trip it names; that round trip must
/// be the one started for this platform, redirect URI and session.
pub open spec fn exchange_problem(
    platform: Seq<char>,
    s: OAuthSettings,
    req: TokenRequest,
    states: Seq<OAuthState>,
    owner_token: Seq<char>,
    now: u64,
) -> Option<(u16, Seq<char>, Seq<char>)> {
    let g = grant_of(req);
    if setting(s.client_id).is_none() {
        Some((501, "oauth_not_configured"@, "OAuth client is not configured for platform "@ + platform))
    } else if setting(s.client_secret).is_none() {
        Some((501, "oauth_not_configured"@, "OAuth client secret is not configured for platform "@ + platform))
    } else if setting(s.token_url).is_none() {
        Some((501, "oauth_not_configured"@, "OAuth token URL is not configured for platform "@ + platform))
    } else if g == "authorization_code"@ && req.code.is_none() {
        Some((400, "invalid_request"@, "code is required for authorization_code exchange"@))
    } else if g == "refresh_token"@ && req.refresh_token.is_none() {
        Some((400, "invalid_request"@, "refreshToken is required for refresh_token exchange"@))
    } else if g == "authorization_code"@ && req.state.is_none() {
        Some((400, "invalid_request"@, "state is required for OAuth code exchange"@))
    } else if g == "authorization_code"@ && req.redirect_uri.is_none() {
        Some((400, "invalid_request"@, "redirectUri is required for OAuth code exchange"@))
    } else if g == "authorization_code"@ && !round_trip_ok(
        lookup(states, req.state->Some_0@),
        platform,
        req.redirect_uri->Some_0@,
        owner_token,
        now,
    ) {
        Some((401, "oauth_state_invalid"@, "OAuth state is invalid or expired"@))
    } else if req.redirect_uri matches Some(u) && url_problem(u@, "redirectUri"@).is_some() {
        Some((400, "invalid_request"@, url_problem(req.redirect_uri->Some_0@, "redirectUri"@)->Some_0))
    } else {
        None
    }
}

/// Whether a code exchange gets as far as using up its round trip.
pub open spec fn uses_round_trip(s: OAuthSettings, req: TokenRequest) -> bool {
    let g = grant_of(req);
    &&& setting(s.client_id).is_some()
    &&& setting(s.client_secret).is_some()
    &&& setting(s.token_url).is_some()
    &&& g == "authorization_code"@
    &&& req.code.is_some()
    &&& req.state.is_some()
    &&& req.redirect_uri.is_some()
}

/// Checks a token exchange and plans it: the provider's token URL, the
/// client's credentials and the form. A code exchange uses up its round
/// trip, whatever comes of it.
pub fn plan_token_exchange(
    platform: &str,
    settings: &OAuthSettings,
    req: &TokenRequest,
    states: &mut Vec<OAuthState>,
    owner_token: &str,
    now: u64,
) -> (r: Result<TokenPlan, ApiError>)
    ensures
        match exchange_problem(platform@, *settings, *req, old(states)@, owner_token@, now) {
            Some((status, code, message)) => r matches Err(e) && is_error(e, status, code, message),
            None => r matches Ok(p) && {
                &&& Some(p.token_url) == setting(settings.token_url)
                &&& Some(p.client_id) == setting(settings.client_id)
                &&& Some(p.client_secret) == setting(settings.client_secret)
                &&& pairs_view(p.form@) == token_form(*req)
            },
        },
        final(states)@ == if uses_round_trip(*settings, *req) {
            old(states)@.filter(crate::server::records::other_key::<OAuthState>(req.state->Some_0@))
        } else {
            old(states)@
        },
{
    let client_id = match read_setting(settings.client_id.clone()) {
        Some(c) => c,
        None => {
            return Err(
                error(501, "oauth_not_configured", join2("OAuth client is not configured for platform ", platform)),
            );
        },
    };
    let client_secret = match read_setting(settings.client_secret.clone()) {
        Some(c) => c,
        None => {
            return Err(
                error(
                    501,
                    "oauth_not_configured",
                    join2("OAuth client secret is not configured for platform ", platform),
                ),
            );
        },
    };
    let token_url = match read_setting(settings.token_url.clone()) {
        Some(c) => c,
        None => {
            return Err(
                error(501, "oauth_not_configured", join2("OAuth token URL is not configured for platform ", platform)),
            );
        },
    };
    let grant: String = match &req.grant_type {
        Some(g) => g.clone(),
        None => if req.refresh_token.is_some() {
            owned("refresh_token")
        } else {
            owned("authorization_code")
        },
    };
    let code_exchange = str_eq(grant.as_str(), "authorization_code");
    proof {
        reveal_strlit("authorization_code");
        reveal_strlit("refresh_token");
        assert("refresh_token"@.len() != "authorization_code"@.len());
    }
    if code_exchange && req.code.is_none() {
        return Err(bad_request(owned("code is required for authorization_code exchange")));
    }
    if str_eq(grant.as_str(), "refresh_token") && req.refresh_token.is_none() {
        return Err(bad_request(owned("refreshToken is required for refresh_token exchange")));
    }
    if code_exchange {
        let st = match &req.state {
            Some(s) => s,
            None => {
                return Err(bad_request(owned("state is required for OAuth code exchange")));
            },
        };
        let ru = match &req.redirect_uri {
            Some(u) => u,
            None => {
                return Err(bad_request(owned("redirectUri is required for OAuth code exchange")));
            },
        };
        if !consume_oauth_state(states, st.as_str(), platform, ru.as_str(), owner_token, now) {
            return Err(error(401, "oauth_state_invalid", owned("OAuth state is invalid or expired")));
        }
    }
    let mut form: Vec<(String, String)> = Vec::new();
    push_pair(&mut form, "grant_type", grant.as_str());
    if let Some(c) = &req.code {
        push_pair(&mut form, "code", c.as_str());
    }
    if let Some(t) = &req.refresh_token {
        push_pair(&mut form, "refresh_token", t.as_str());
    }
    if let Some(u) = &req.redirect_uri {
        if let Err(e) = parse_url(u.as_str(), "redirectUri") {
            return Err(e);
        }
        push_pair(&mut form, "redirect_uri", u.as_str());
    }
    proof {
        assert(pairs_view(form@) =~= token_form(*req));
    }
    Ok(TokenPlan { token_url, client_id, client_secret, form })
}

/// The end of the whitespace-free run starting at `i`.
pub open spec fn run_end(s: Seq<char>, i: int) -> int
    decreases s.len() - i,
{
    if i < 0 || i >= s.len() || white_space(s[i]) {
        if i < 0 {
            0
        } else if i > s.len() {
            s.len() as int
        } else {
            i
        }
    } else {
        run_end(s, i + 1)
    }
}

/// The whitespace-separated words of `s` from index `i` on, as
/// `str::split_whitespace` yields them.
pub open spec fn words_from(s: Seq<char>, i: int) -> Seq<Seq<char>>
    decreases s.len() - i, 1int,
{
    if i < 0 || i >= s.len() {
        Seq::empty()
    } else {
        let a = first_non_ws(s, i);
        if a >= s.len() {
            Seq::empty()
        } else {
            let b = run_end(s, a);
            if b <= i || b > s.len() {
                Seq::empty()
            } else {
                seq![s.subrange(a, b)] + words_from(s, b)
            }
        }
    }
}

proof fn lemma_first_non_ws_bounds(s: Seq<char>, i: int)
    requires
        0 <= i,
    ensures
        i <= first_non_ws(s, i) <= s.len() || (i > s.len() && first_non_ws(s, i) == s.len()),
        first_non_ws(s, i) < s.len() ==> !white_space(s[first_non_ws(s, i)]),
        forall|j: int| i <= j < first_non_ws(s, i) ==> white_space(#[trigger] s[j]),
    decreases s.len() - i,
{
    if i < s.len() {
        lemma_first_non_ws_bounds(s, i + 1);
    }
}

proof fn lemma_run_end_bounds(s: Seq<char>, i: int)
    requires
        0 <= i <= s.len(),
    ensures
        i <= run_end(s, i) <= s.len(),
        run_end(s, i) < s.len() ==> white_space(s[run_end(s, i)]),
        forall|j: int| i <= j < run_end(s, i) ==> !white_space(#[trigger] s[j]),
    decreases s.len() - i,
{
    if i < s.len() && !white_space(s[i]) {
        lemma_run_end_bounds(s, i + 1);
    }
}

/// The whitespace-separated words of a text.
pub fn split_words(text: &str) -> (r: Vec<String>)
    ensures
        r@.map_values(|w: String| w@) == words_from(text@, 0),
{
    let s = chars_of(text);
    let n = s.len();
    let mut out: Vec<String> = Vec::new();
    let mut i: usize = 0;
    while i < n
        invariant
            n == s@.len(),
            s@ == text@,
            i <= n,
            out@.map_values(|w: String| w@) + words_from(s@, i as int) == words_from(s@, 0),
        decreases n - i,
    {
        proof {
            lemma_first_non_ws_bounds(s@, i as int);
        }
        let mut a = i;
        while a < n && crate::parse::is_white_space(s[a])
            invariant
                n == s@.len(),
                i <= a <= n,
                first_non_ws(s@, i as int) == first_non_ws(s@, a as int),
            decreases n - a,
        {
            a = a + 1;
        }
        if a >= n {
            proof {
                assert(words_from(s@, i as int) =~= Seq::<Seq<char>>::empty());
                assert(words_from(s@, n as int) =~= Seq::<Seq<char>>::empty());
            }
            i = n;
        } else {
            let mut b = a;
            proof {
                lemma_run_end_bounds(s@, a as int);
            }
            while b < n && !crate::parse::is_white_space(s[b])
                invariant
                    n == s@.len(),
                    a <= b <= n,
                    run_end(s@, a as int) == run_end(s@, b as int),
                decreases n - b,
            {
                b = b + 1;
            }
            let w = string_of(&crate::parse::slice_chars(&s, a, b));
            let ghost prev = out@;
            out.push(w);
            proof {
                assert(b > a);
                assert(a >= i);
                assert(words_from(s@, i as int) == seq![s@.subrange(a as int, b as int)] + words_from(s@, b as int));
                assert(out@.map_values(|w: String| w@) =~= prev.map_values(|w: String| w@).push(
                    s@.subrange(a as int, b as int),
                ));
                assert(out@.map_values(|w: String| w@) + words_from(s@, b as int) =~= prev.map_values(|w: String| w@)
                    + words_from(s@, i as int));
            }
            i = b;
        }
    }
    proof {
        assert(words_from(s@, i as int) =~= Seq::<Seq<char>>::empty());
        assert(out@.map_values(|w: String| w@) + Seq::<Seq<char>>::empty() =~= out@.map_values(|w: String| w@));
    }
    out
}

/// What the provider answered to an exchange, as far as it is read.
#[derive(Debug, Clone)]
pub struct TokenReply {
    /// Whether the HTTP status was a success.
    pub success: bool,
    pub access_token: Option<String>,
    pub refresh_token: Option<String>,
    pub token_type: Option<String>,
    pub expires_in: Option<u64>,
    pub scope: Option<String>,
    pub error: Option<String>,
    pub error_description: Option<String>,
}

/// The link to save from a successful exchange.
#[derive(Debug, Clone)]
pub struct ObtainedTokens {
    pub access_token: String,
    pub refresh_token: Option<String>,
    pub token_type: String,
    pub expires_at: Option<u64>,
    pub scopes: Vec<String>,
}

/// The scopes granted: those the provider names, else the configured ones,
/// else none.
pub open spec fn granted_scopes(reply_scope: Option<String>, configured: Option<String>) -> Seq<Seq<char>> {
    match reply_scope {
        Some(s) => words_from(s@, 0),
        None => match setting(configured) {
            Some(c) => words_from(c@, 0),
            None => Seq::empty(),
        },
    }
}

/// What an exchange comes to, read from the provider's answer at `now`: a
/// refusal passes on the provider's description (or its error, or a plain
/// message); an answer without an access token is invalid; else the tokens,
/// a `Bearer` type unless named, and when they expire.
pub fn read_token_reply(reply: TokenReply, configured_scopes: Option<String>, now: u64) -> (r: Result<
    ObtainedTokens,
    ApiError,
>)
    requires
        reply.expires_in matches Some(e) ==> now + e <= u64::MAX,
    ensures
        !reply.success ==> (r matches Err(e) && is_error(
            e,
            502,
            "oauth_exchange_failed"@,
            match reply.error_description {
                Some(d) => d@,
                None => match reply.error {
                    Some(x) => x@,
                    None => "provider rejected the OAuth exchange"@,
                },
            },
        )),
        reply.success && reply.access_token.is_none() ==> (r matches Err(e) && is_error(
            e,
            502,
            "oauth_invalid_response"@,
            "provider response did not contain access_token"@,
        )),
        reply.success && reply.access_token.is_some() ==> (r matches Ok(t) && {
            &&& Some(t.access_token) == reply.access_token
            &&& t.refresh_token == reply.refresh_token
            &&& t.token_type@ == match reply.token_type {
                Some(x) => x@,
                None => "Bearer"@,
            }
            &&& t.expires_at == match reply.expires_in {
                Some(e) => Some((now + e) as u64),
                None => None,
            }
            &&& t.scopes@.map_values(|w: String| w@) == granted_scopes(reply.scope, configured_scopes)
        }),
{
    if !reply.success {
        let message = match reply.error_description {
            Some(d) => d,
            None => match reply.error {
                Some(x) => x,
                None => owned("provider rejected the OAuth exchange"),
            },
        };
        return Err(error(502, "oauth_exchange_failed", message));
    }
    let access_token = match reply.access_token {
        Some(t) => t,
        None => {
            return Err(error(502, "oauth_invalid_response", owned("provider response did not contain access_token")));
        },
    };
    let scopes = match &reply.scope {
        Some(s) => split_words(s.as_str()),
        None => match read_setting(configured_scopes) {
            Some(c) => split_words(c.as_str()),
            None => {
                let v: Vec<String> = Vec::new();
                proof {
                    assert(v@.map_values(|w: String| w@) =~= Seq::<Seq<char>>::empty());
                }
                v
            },
        },
    };
    Ok(
        ObtainedTokens {
            access_token,
            refresh_token: reply.refresh_token,
            token_type: match reply.token_type {
                Some(x) => x,
                None => owned("Bearer"),
            },
            expires_at: match reply.expires_in {
                Some(e) => Some(now + e),
                None => None,
            },
            scopes,
        },
    )
}

} // verus!
