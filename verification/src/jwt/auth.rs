//! Authorising requests by their `Authorization: Bearer` header.
use vstd::prelude::*;
use crate::text::{concat2, has_prefix, owned, strip_prefix};
use crate::jwt::token::{Claims, TokenError};
use crate::jwt::models::{cache_key, make_cache_key, StorageError, TokenCache, TokenCacheEntry};

verus! {

/// Body of a refused request.
pub struct AuthErrorResponse {
    pub message: String,
}

/// Who an accepted token speaks for.
pub struct AuthClaims {
    pub api_key: String,
    pub session_id: String,
}

/// The authorisation a handler receives for an accepted request.
pub struct JwtAuth(pub AuthClaims);

/// A refusal: HTTP status and body.
pub struct AuthRejection {
    pub status: u16,
    pub body: AuthErrorResponse,
}

/// The refusal with `status` and `message`.
pub open spec fn rejects(r: AuthRejection, status: u16, message: Seq<char>) -> bool {
    r.status == status && r.body.message@ == message
}

fn reject(status: u16, message: String) -> (r: AuthRejection)
    ensures
        rejects(r, status, message@),
{
    AuthRejection { status, body: AuthErrorResponse { message } }
}

/// The token carried by an `Authorization` header value (`None` when the header is
/// missing or not text).
pub fn bearer_token(header: Option<&str>) -> (r: Result<String, AuthRejection>)
    ensures
        match header {
            None => r matches Err(e) && rejects(e, 401, "Missing Authorization header"@),
            Some(h) => if has_prefix(h@, "Bearer "@) {
                r matches Ok(t) && t@ == h@.subrange("Bearer "@.len() as int, h@.len() as int)
            } else {
                r matches Err(e) && rejects(e, 401, "Authorization header must use Bearer scheme"@)
            },
        },
{
    match header {
        None => Err(reject(401, owned("Missing Authorization header"))),
        Some(h) => match strip_prefix(h, "Bearer ") {
            Some(t) => Ok(t),
            None => Err(reject(401, owned("Authorization header must use Bearer scheme"))),
        },
    }
}

/// What to do with a request after its token was validated.
pub enum AuthStep {
    /// Accept the request.
    Authorized(AuthClaims),
    /// Refuse it.
    Rejected(AuthRejection),
    /// The session is not cached: ask durable storage, then call `finish_with_storage`.
    ConsultStorage(Claims),
}

/// Decides on a request from the outcome of validating its token, the cache, and
/// whether durable storage is enabled.
pub fn check_claims(cache: &TokenCache, validated: Result<Claims, TokenError>, storage_enabled: bool) -> (r: AuthStep)
    ensures
        match validated {
            Err(e) => r matches AuthStep::Rejected(rej) && rejects(rej, 401, "Invalid token: "@ + e.0@),
            Ok(c) => if cache@.contains_key(cache_key(c.sub@, c.session_id@)) {
                r matches AuthStep::Authorized(a) && a.api_key == c.sub && a.session_id == c.session_id
            } else if storage_enabled {
                r matches AuthStep::ConsultStorage(c2) && c2 == c
            } else {
                r matches AuthStep::Rejected(rej) && rejects(rej, 401, "Invalid session"@)
            },
        },
{
    match validated {
        Err(e) => AuthStep::Rejected(reject(401, concat2("Invalid token: ", e.0.as_str()))),
        Ok(c) => {
            let key = make_cache_key(c.sub.as_str(), c.session_id.as_str());
            if cache.contains_key(key.as_str()) {
                AuthStep::Authorized(AuthClaims { api_key: c.sub, session_id: c.session_id })
            } else if storage_enabled {
                AuthStep::ConsultStorage(c)
            } else {
                AuthStep::Rejected(reject(401, owned("Invalid session")))
            }
        },
    }
}

/// Finishes a request whose session was looked up in durable storage; a stored
/// session is brought back into the cache.
pub fn finish_with_storage(
    cache: &mut TokenCache,
    claims: Claims,
    lookup: Result<Option<TokenCacheEntry>, StorageError>,
) -> (r: Result<AuthClaims, AuthRejection>)
    requires
        old(cache).wf(),
    ensures
        final(cache).wf(),
        match lookup {
            Ok(Some(entry)) => {
                &&& final(cache)@ == old(cache)@.insert(cache_key(claims.sub@, claims.session_id@), entry)
                &&& r matches Ok(a) && a.api_key == claims.sub && a.session_id == claims.session_id
            },
            Ok(None) => final(cache)@ == old(cache)@ && (r matches Err(rej) && rejects(rej, 401, "Invalid session"@)),
            Err(e) => final(cache)@ == old(cache)@ && (r matches Err(rej) && rejects(rej, 500, "Storage error: "@ + e.0@)),
        },
{
    match lookup {
        Ok(Some(entry)) => {
            let key = make_cache_key(claims.sub.as_str(), claims.session_id.as_str());
            cache.insert(key, entry);
            Ok(AuthClaims { api_key: claims.sub, session_id: claims.session_id })
        },
        Ok(None) => Err(reject(401, owned("Invalid session"))),
        Err(e) => Err(reject(500, concat2("Storage error: ", e.0.as_str()))),
    }
}

} // verus!
