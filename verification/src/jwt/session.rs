//! The session endpoints' decisions over the in-memory token cache: creating,
//! renewing, listing, revoking and checking sessions.
//!
//! Durable storage, when enabled, is consulted by the caller; its answers are
//! handed in as plain values.
use vstd::prelude::*;
use crate::text::{concat2, decimal, owned, push_decimal, push_str, str_eq};
use crate::jwt::token::{empty_credentials_message, generate_jwt, hs256_jwt, signing_secret, Claims, TokenError};
use crate::jwt::models::{
    cache_key, make_cache_key, ErrorResponse, RevokeResponse, SessionInfo, SessionListResponse,
    SessionResponse, StorageError, TokenCache, TokenCacheEntry, TokenResponse,
};

verus! {

/// Lifetime of an issued token, in seconds.
pub const TOKEN_EXPIRY_SECONDS: u64 = 10;

/// Error replies of the session endpoints.
pub enum ApiError {
    /// 404: no such session.
    NotFound(ErrorResponse),
    /// 500: a token could not be issued.
    Internal(ErrorResponse),
}

impl ApiError {
    /// The HTTP status of the reply.
    pub fn status(&self) -> (r: u16)
        ensures
            r == (match self {
                ApiError::NotFound(_) => 404u16,
                ApiError::Internal(_) => 500u16,
            }),
    {
        match self {
            ApiError::NotFound(_) => 404,
            ApiError::Internal(_) => 500,
        }
    }
}

/// The message given when a token cannot be issued for reason `e`.
pub open spec fn token_failure_message(e: Seq<char>) -> Seq<char> {
    "Error generating token: "@ + e
}

/// The entry `e` holds exactly these values.
pub open spec fn entry_is(
    e: TokenCacheEntry,
    api_key: Seq<char>,
    api_secret: Seq<char>,
    session_id: Seq<char>,
    token: Seq<char>,
    created_at: u64,
    last_renewed: u64,
) -> bool {
    &&& e.api_key@ == api_key
    &&& e.api_secret@ == api_secret
    &&& e.session_id@ == session_id
    &&& e.token@ == token
    &&& e.created_at == created_at
    &&& e.last_renewed == last_renewed
}

/// The token issued at `now` for a session.
pub open spec fn session_token(api_key: Seq<char>, session_id: Seq<char>, now: u64) -> Seq<char> {
    hs256_jwt(api_key, session_id, (now + TOKEN_EXPIRY_SECONDS) as u64, now, signing_secret())
}

/// Opens a session `session_id` for `api_key` at time `now`, caching it and
/// issuing its first token (HTTP 201 on `Ok`, 500 on `Err`).
pub fn create_session(
    cache: &mut TokenCache,
    api_key: &str,
    api_secret: &str,
    session_id: &str,
    now: u64,
) -> (r: Result<SessionResponse, ErrorResponse>)
    requires
        old(cache).wf(),
        now <= u64::MAX - TOKEN_EXPIRY_SECONDS,
    ensures
        final(cache).wf(),
        r is Ok <==> (api_key@.len() > 0 && session_id@.len() > 0),
        r matches Ok(resp) ==> {
            let key = cache_key(api_key@, session_id@);
            &&& resp.session_id@ == session_id@
            &&& resp.token@ == session_token(api_key@, session_id@, now)
            &&& final(cache)@ == old(cache)@.insert(key, final(cache)@[key])
            &&& entry_is(final(cache)@[key], api_key@, api_secret@, session_id@, resp.token@, now, now)
        },
        r matches Err(e) ==> {
            &&& e.message@ == token_failure_message(empty_credentials_message())
            &&& final(cache)@ == old(cache)@
        },
{
    match generate_jwt(api_key, session_id, now, now + TOKEN_EXPIRY_SECONDS) {
        Ok(token) => {
            let key = make_cache_key(api_key, session_id);
            let entry = TokenCacheEntry {
                api_key: owned(api_key),
                api_secret: owned(api_secret),
                session_id: owned(session_id),
                token: token.clone(),
                created_at: now,
                last_renewed: now,
            };
            cache.insert(key, entry);
            Ok(SessionResponse { session_id: owned(session_id), token })
        },
        Err(e) => Err(ErrorResponse { message: concat2("Error generating token: ", e.0.as_str()) }),
    }
}

/// A fresh session id from `uuid::Uuid::new_v4`, written by its `to_string`:
/// the crate formats a UUID in its hyphenated form, whose length is
/// `Hyphenated::LENGTH`, 36 characters. Which id comes out is random.
#[verifier::external_body]
fn new_session_id() -> (r: String)
    ensures
        r@.len() == 36,
{
    uuid::Uuid::new_v4().to_string()
}

/// The clock, in whole seconds since the Unix epoch, through
/// `SystemTime::elapsed` on `UNIX_EPOCH` (a clock set before the epoch reads
/// as 0). Nothing is said of the value.
#[verifier::external_body]
fn unix_now() -> (r: u64) {
    std::time::UNIX_EPOCH.elapsed().map(|d| d.as_secs()).unwrap_or(0)
}

/// The refusal when the clock is too close to the end of time for a token's
/// expiry to be written.
pub open spec fn clock_out_of_range_message() -> Seq<char> {
    "Error generating token: clock out of range"@
}

/// Opens a session for `api_key` now, under a fresh random id (HTTP 201 on
/// `Ok`, 500 on `Err`): `create_session` with the id and the clock's time.
pub fn open_session(cache: &mut TokenCache, api_key: &str, api_secret: &str) -> (r: Result<
    SessionResponse,
    ErrorResponse,
>)
    requires
        old(cache).wf(),
    ensures
        final(cache).wf(),
        r is Err ==> final(cache)@ == old(cache)@,
        r matches Err(e) ==> (if api_key@.len() == 0 {
            e.message@ == token_failure_message(empty_credentials_message()) || e.message@
                == clock_out_of_range_message()
        } else {
            e.message@ == clock_out_of_range_message()
        }),
        r matches Ok(resp) ==> {
            let key = cache_key(api_key@, resp.session_id@);
            &&& api_key@.len() > 0
            &&& resp.session_id@.len() == 36
            &&& final(cache)@ == old(cache)@.insert(key, final(cache)@[key])
            &&& exists|now: u64|
                #![trigger session_token(api_key@, resp.session_id@, now)]
                now <= u64::MAX - TOKEN_EXPIRY_SECONDS && resp.token@ == session_token(api_key@, resp.session_id@, now)
                    && entry_is(final(cache)@[key], api_key@, api_secret@, resp.session_id@, resp.token@, now, now)
        },
{
    let now = unix_now();
    if now > u64::MAX - TOKEN_EXPIRY_SECONDS {
        return Err(ErrorResponse { message: owned("Error generating token: clock out of range") });
    }
    let session_id = new_session_id();
    let r = create_session(cache, api_key, api_secret, session_id.as_str(), now);
    proof {
        if r is Ok {
            let resp = r->Ok_0;
            assert(resp.session_id@ == session_id@);
            assert(session_token(api_key@, resp.session_id@, now) == resp.token@);
        }
    }
    r
}

/// Issues a fresh token for an existing session (HTTP 200 on `Ok`).
///
/// The session is looked up in the cache; when it is missing there, `stored` is
/// what durable storage holds under its key (if any), and a stored entry is
/// brought back into the cache.
pub fn get_session_token(
    cache: &mut TokenCache,
    api_key: &str,
    session_id: &str,
    now: u64,
    stored: Option<TokenCacheEntry>,
) -> (r: Result<TokenResponse, ApiError>)
    requires
        old(cache).wf(),
        now <= u64::MAX - TOKEN_EXPIRY_SECONDS,
    ensures
        final(cache).wf(),
        ({
            let key = cache_key(api_key@, session_id@);
            let known = old(cache)@.contains_key(key) || stored is Some;
            &&& (old(cache)@.contains_key(key) || stored is None) ==> final(cache)@ == old(cache)@
            &&& (!old(cache)@.contains_key(key) && stored is Some) ==> final(cache)@ == old(cache)@.insert(key, stored->0)
            &&& !known ==> (r matches Err(ApiError::NotFound(m))
                && m.message@ == "No active session found for the provided session ID"@)
            &&& (known && api_key@.len() > 0 && session_id@.len() > 0) ==> (r matches Ok(t)
                && t.token@ == session_token(api_key@, session_id@, now))
            &&& (known && (api_key@.len() == 0 || session_id@.len() == 0)) ==> (r matches Err(ApiError::Internal(m))
                && m.message@ == token_failure_message(empty_credentials_message()))
        }),
{
    let key = make_cache_key(api_key, session_id);
    let found = if cache.contains_key(key.as_str()) {
        true
    } else {
        match stored {
            Some(entry) => {
                cache.insert(key, entry);
                true
            },
            None => false,
        }
    };
    if !found {
        return Err(ApiError::NotFound(ErrorResponse {
            message: owned("No active session found for the provided session ID"),
        }));
    }
    match generate_jwt(api_key, session_id, now, now + TOKEN_EXPIRY_SECONDS) {
        Ok(token) => Ok(TokenResponse { token }),
        Err(e) => Err(ApiError::Internal(ErrorResponse { message: concat2("Error generating token: ", e.0.as_str()) })),
    }
}

/// How long ago `t` was, seen at `now`, as the listing prints it (`"{n}s ago"`);
/// a time in the future counts as no time at all.
pub open spec fn ago(now: u64, t: u64) -> Seq<char> {
    decimal(if now >= t { (now - t) as nat } else { 0 }) + "s ago"@
}

/// What the listing shows of a cached session.
pub open spec fn info_of(e: TokenCacheEntry, now: u64) -> (Seq<char>, Seq<char>, Seq<char>) {
    (e.session_id@, ago(now, e.created_at), ago(now, e.last_renewed))
}

/// A listed session, as text.
pub open spec fn info_view(s: SessionInfo) -> (Seq<char>, Seq<char>, Seq<char>) {
    (s.session_id@, s.created_at@, s.last_renewed@)
}

/// The cached sessions of `api_key`, in key order.
pub open spec fn memory_listing(
    keys: Seq<Seq<char>>,
    m: Map<Seq<char>, TokenCacheEntry>,
    api_key: Seq<char>,
    now: u64,
) -> Seq<(Seq<char>, Seq<char>, Seq<char>)>
    decreases keys.len(),
{
    if keys.len() == 0 {
        Seq::empty()
    } else {
        let prev = memory_listing(keys.drop_last(), m, api_key, now);
        let e = m[keys.last()];
        if e.api_key@ == api_key {
            prev.push(info_of(e, now))
        } else {
            prev
        }
    }
}

/// Some listed session has id `sid`.
pub open spec fn lists_session(acc: Seq<(Seq<char>, Seq<char>, Seq<char>)>, sid: Seq<char>) -> bool {
    exists|i: int| 0 <= i < acc.len() && (#[trigger] acc[i]).0 == sid
}

/// `acc` followed by each stored session whose id is not listed yet, in order.
pub open spec fn merge_stored(
    acc: Seq<(Seq<char>, Seq<char>, Seq<char>)>,
    stored: Seq<TokenCacheEntry>,
    now: u64,
) -> Seq<(Seq<char>, Seq<char>, Seq<char>)>
    decreases stored.len(),
{
    if stored.len() == 0 {
        acc
    } else {
        let prev = merge_stored(acc, stored.drop_last(), now);
        let e = stored.last();
        if lists_session(prev, e.session_id@) {
            prev
        } else {
            prev.push(info_of(e, now))
        }
    }
}

/// `"{n}s ago"` for the time from `t` to `now`.
fn ago_text(now: u64, t: u64) -> (r: String)
    ensures
        r@ == ago(now, t),
{
    let n = if now >= t {
        now - t
    } else {
        0
    };
    let mut r = String::new();
    push_decimal(&mut r, n);
    push_str(&mut r, "s ago");
    assert(r@ =~= ago(now, t));
    r
}

fn info_from(e: &TokenCacheEntry, now: u64) -> (r: SessionInfo)
    ensures
        info_view(r) == info_of(*e, now),
{
    SessionInfo {
        session_id: e.session_id.clone(),
        created_at: ago_text(now, e.created_at),
        last_renewed: ago_text(now, e.last_renewed),
    }
}

fn listed_has(out: &Vec<SessionInfo>, sid: &str) -> (r: bool)
    ensures
        r == lists_session(out@.map_values(|s: SessionInfo| info_view(s)), sid@),
{
    let ghost v = out@.map_values(|s: SessionInfo| info_view(s));
    let mut i: usize = 0;
    while i < out.len()
        invariant
            v == out@.map_values(|s: SessionInfo| info_view(s)),
            i <= out@.len(),
            forall|j: int| 0 <= j < i ==> v[j].0 != sid@,
        decreases out@.len() - i,
    {
        if str_eq(out[i].session_id.as_str(), sid) {
            assert(v[i as int].0 == sid@);
            return true;
        }
        i += 1;
    }
    false
}

/// Lists the sessions of `api_key` (HTTP 200): first the cached ones, then those
/// in `stored` (what durable storage returned) whose id is not listed yet.
pub fn list_sessions(
    cache: &TokenCache,
    api_key: &str,
    stored: &Vec<TokenCacheEntry>,
    now: u64,
) -> (r: SessionListResponse)
    requires
        cache.wf(),
    ensures
        r.sessions@.map_values(|s: SessionInfo| info_view(s)) == merge_stored(
            memory_listing(cache.keys(), cache@, api_key@, now),
            stored@,
            now,
        ),
{
    let ghost keys = cache.keys();
    proof {
        cache.lemma_keys();
    }
    let mut out: Vec<SessionInfo> = Vec::new();
    let n = cache.key_count();
    let mut i: usize = 0;
    while i < n
        invariant
            cache.wf(),
            keys == cache.keys(),
            n == keys.len(),
            i <= n,
            forall|j: int| 0 <= j < keys.len() ==> cache@.contains_key(#[trigger] keys[j]),
            out@.map_values(|s: SessionInfo| info_view(s)) == memory_listing(keys.take(i as int), cache@, api_key@, now),
        decreases n - i,
    {
        let key = cache.key_at(i);
        assert(cache@.contains_key(keys[i as int]));
        let e = cache.get(key.as_str()).unwrap();
        assert(keys.take(i + 1).drop_last() =~= keys.take(i as int));
        assert(keys.take(i + 1).last() == keys[i as int]);
        if str_eq(e.api_key.as_str(), api_key) {
            let info = info_from(e, now);
            out.push(info);
        }
        assert(out@.map_values(|s: SessionInfo| info_view(s)) =~= memory_listing(keys.take(i + 1), cache@, api_key@, now));
        i += 1;
    }
    assert(keys.take(n as int) =~= keys);
    let ghost base = memory_listing(keys, cache@, api_key@, now);
    let m = stored.len();
    let mut j: usize = 0;
    while j < m
        invariant
            m == stored@.len(),
            j <= m,
            out@.map_values(|s: SessionInfo| info_view(s)) == merge_stored(base, stored@.take(j as int), now),
        decreases m - j,
    {
        let e = &stored[j];
        assert(stored@.take(j + 1).drop_last() =~= stored@.take(j as int));
        assert(stored@.take(j + 1).last() == stored@[j as int]);
        if !listed_has(&out, e.session_id.as_str()) {
            let info = info_from(e, now);
            out.push(info);
        }
        assert(out@.map_values(|s: SessionInfo| info_view(s)) =~= merge_stored(base, stored@.take(j + 1), now));
        j += 1;
    }
    assert(stored@.take(m as int) =~= stored@);
    SessionListResponse { sessions: out }
}

/// Revokes a session (HTTP 200 on `Ok`, 404 on `Err`). `storage_deleted` tells
/// whether durable storage removed a row for it.
pub fn revoke_session(
    cache: &mut TokenCache,
    api_key: &str,
    session_id: &str,
    storage_deleted: bool,
) -> (r: Result<RevokeResponse, ApiError>)
    requires
        old(cache).wf(),
    ensures
        final(cache).wf(),
        final(cache)@ == old(cache)@.remove(cache_key(api_key@, session_id@)),
        r is Ok <==> (old(cache)@.contains_key(cache_key(api_key@, session_id@)) || storage_deleted),
        r matches Ok(m) ==> m.message@ == "Session successfully revoked"@,
        r matches Err(e) ==> e matches ApiError::NotFound(m) && m.message@ == "Session not found"@,
{
    let key = make_cache_key(api_key, session_id);
    let removed = cache.remove(key.as_str());
    if removed || storage_deleted {
        Ok(RevokeResponse { message: owned("Session successfully revoked") })
    } else {
        Err(ApiError::NotFound(ErrorResponse { message: owned("Session not found") }))
    }
}

/// Checks the outcome of validating a token against the active sessions: a
/// valid token is accepted when its session is cached, or, when it is not,
/// when durable storage holds it. `stored` is what durable storage answered
/// for the session's key (`Ok(None)` when there is no durable storage); it is
/// read only when the session is not cached, and a failed lookup finds no
/// active session.
pub fn validate_session_token(
    cache: &TokenCache,
    validated: Result<Claims, TokenError>,
    stored: Result<Option<TokenCacheEntry>, StorageError>,
) -> (r: Result<(String, String), String>)
    ensures
        match validated {
            Ok(c) => if cache@.contains_key(cache_key(c.sub@, c.session_id@)) {
                r matches Ok(p) && p.0 == c.sub && p.1 == c.session_id
            } else {
                match stored {
                    Ok(Some(_)) => r matches Ok(p) && p.0 == c.sub && p.1 == c.session_id,
                    Ok(None) => r matches Err(m) && m@ == "Invalid session"@,
                    Err(_) => r matches Err(m) && m@ == "Invalid session"@,
                }
            },
            Err(e) => r matches Err(m) && m@ == "Invalid token: "@ + e.0@,
        },
{
    match validated {
        Ok(c) => {
            let key = make_cache_key(c.sub.as_str(), c.session_id.as_str());
            if cache.contains_key(key.as_str()) {
                Ok((c.sub, c.session_id))
            } else {
                match stored {
                    Ok(Some(_)) => Ok((c.sub, c.session_id)),
                    Ok(None) | Err(_) => Err(owned("Invalid session")),
                }
            }
        },
        Err(e) => Err(concat2("Invalid token: ", e.0.as_str())),
    }
}

/// Whether an entry last renewed at `e.last_renewed` is due for renewal at `now`:
/// more than half of the token lifetime has passed.
pub open spec fn due_for_renewal(e: TokenCacheEntry, now: u64) -> bool {
    now >= e.last_renewed && now - e.last_renewed > TOKEN_EXPIRY_SECONDS / 2
}

/// `f` is what renewal at `now` makes of the cached entry `e`.
pub open spec fn renewed(e: TokenCacheEntry, f: TokenCacheEntry, now: u64) -> bool {
    if due_for_renewal(e, now) && e.api_key@.len() > 0 && e.session_id@.len() > 0 {
        &&& f.api_key == e.api_key
        &&& f.api_secret == e.api_secret
        &&& f.session_id == e.session_id
        &&& f.created_at == e.created_at
        &&& f.last_renewed == now
        &&& f.token@ == session_token(e.api_key@, e.session_id@, now)
    } else {
        f == e
    }
}

/// Re-issues the token of every cached session that is due for renewal at `now`.
pub fn renew_expiring_tokens(cache: &mut TokenCache, now: u64)
    requires
        old(cache).wf(),
        now <= u64::MAX - TOKEN_EXPIRY_SECONDS,
    ensures
        final(cache).wf(),
        final(cache).keys() == old(cache).keys(),
        final(cache)@.dom() == old(cache)@.dom(),
        forall|k: Seq<char>| #[trigger] old(cache)@.contains_key(k) ==> renewed(old(cache)@[k], final(cache)@[k], now),
{
    let ghost m0 = cache@;
    let ghost keys = cache.keys();
    proof {
        cache.lemma_keys();
    }
    let n = cache.key_count();
    let mut i: usize = 0;
    while i < n
        invariant
            cache.wf(),
            keys == cache.keys(),
            keys.no_duplicates(),
            n == keys.len(),
            i <= n,
            now <= u64::MAX - TOKEN_EXPIRY_SECONDS,
            cache@.dom() == m0.dom(),
            forall|j: int| 0 <= j < keys.len() ==> m0.contains_key(#[trigger] keys[j]),
            forall|k: Seq<char>| m0.contains_key(k) ==> keys.contains(k),
            forall|j: int| 0 <= j < i ==> renewed(m0[#[trigger] keys[j]], cache@[keys[j]], now),
            forall|j: int| i <= j < n ==> cache@[#[trigger] keys[j]] == m0[keys[j]],
        decreases n - i,
    {
        let key = cache.key_at(i).clone();
        let e = cache.get(key.as_str()).unwrap();
        if now >= e.last_renewed && now - e.last_renewed > TOKEN_EXPIRY_SECONDS / 2 {
            match generate_jwt(e.api_key.as_str(), e.session_id.as_str(), now, now + TOKEN_EXPIRY_SECONDS) {
                Ok(token) => {
                    let fresh = TokenCacheEntry {
                        api_key: e.api_key.clone(),
                        api_secret: e.api_secret.clone(),
                        session_id: e.session_id.clone(),
                        token,
                        created_at: e.created_at,
                        last_renewed: now,
                    };
                    cache.insert(key, fresh);
                    assert forall|j: int| i < j < n implies cache@[#[trigger] keys[j]] == m0[keys[j]] by {
                        assert(keys[j] != keys[i as int]);
                    }
                    assert forall|j: int| 0 <= j < i implies renewed(m0[#[trigger] keys[j]], cache@[keys[j]], now) by {
                        assert(keys[j] != keys[i as int]);
                    }
                },
                Err(_) => {},
            }
        }
        i += 1;
    }
    assert forall|k: Seq<char>| #[trigger] m0.contains_key(k) implies renewed(m0[k], cache@[k], now) by {
        assert(keys.contains(k));
        let j = choose|j: int| 0 <= j < keys.len() && keys[j] == k;
        assert(0 <= j < n);
        assert(renewed(m0[keys[j]], cache@[keys[j]], now));
    }
}

/// A created session is live: once `create_session` has stored entry `e` under
/// the session's key, a token of that session passes `validate_session_token`
/// and `get_session_token` finds the session, whatever else the cache held.
pub proof fn law_created_session_is_live(
    m: Map<Seq<char>, TokenCacheEntry>,
    e: TokenCacheEntry,
    api_key: Seq<char>,
    session_id: Seq<char>,
)
    ensures
        m.insert(cache_key(api_key, session_id), e).contains_key(cache_key(api_key, session_id)),
        m.insert(cache_key(api_key, session_id), e)[cache_key(api_key, session_id)] == e,
{
}

/// A revoked session is dead: after `revoke_session`, the cache no longer holds
/// the session (and the host has deleted its stored row), so a token of it
/// fails `validate_session_token` with "Invalid session" and `get_session_token`
/// answers 404; every other cached session is kept as it was.
pub proof fn law_revoked_session_is_dead(
    m: Map<Seq<char>, TokenCacheEntry>,
    api_key: Seq<char>,
    session_id: Seq<char>,
    other: Seq<char>,
)
    requires
        other != cache_key(api_key, session_id),
    ensures
        !m.remove(cache_key(api_key, session_id)).contains_key(cache_key(api_key, session_id)),
        m.remove(cache_key(api_key, session_id)).contains_key(other) == m.contains_key(other),
        m.contains_key(other) ==> m.remove(cache_key(api_key, session_id))[other] == m[other],
{
}

/// Renewal is idempotent: a second pass at the same time changes nothing, since
/// every entry the first pass renewed was renewed at that very time.
pub proof fn law_renewal_idempotent(
    m0: Map<Seq<char>, TokenCacheEntry>,
    m1: Map<Seq<char>, TokenCacheEntry>,
    m2: Map<Seq<char>, TokenCacheEntry>,
    now: u64,
)
    requires
        m1.dom() == m0.dom(),
        m2.dom() == m1.dom(),
        forall|k: Seq<char>| #[trigger] m0.contains_key(k) ==> renewed(m0[k], m1[k], now),
        forall|k: Seq<char>| #[trigger] m1.contains_key(k) ==> renewed(m1[k], m2[k], now),
    ensures
        m2 == m1,
{
    assert forall|k: Seq<char>| #[trigger] m1.contains_key(k) implies m2[k] == m1[k] by {
        assert(m0.contains_key(k));
        assert(renewed(m0[k], m1[k], now));
        assert(renewed(m1[k], m2[k], now));
    }
    assert(m2 =~= m1);
}

/// Renewal never drops, adds or re-keys a session: after a pass, each cached
/// session keeps its key, API key, secret, id and creation time, and its last
/// renewal time does not go back.
pub proof fn law_renewal_keeps_sessions(e: TokenCacheEntry, f: TokenCacheEntry, now: u64)
    requires
        renewed(e, f, now),
    ensures
        f.api_key == e.api_key,
        f.api_secret == e.api_secret,
        f.session_id == e.session_id,
        f.created_at == e.created_at,
        f.last_renewed >= e.last_renewed,
{
}

} // verus!
