//! Request and response shapes of the session endpoints, and the cached session entry.
use vstd::prelude::*;
use crate::store::KeyedStore;

verus! {

/// Request body for creating a session.
pub struct TokenRequestParams {
    pub api_secret: String,
}

/// Reply carrying a fresh token.
pub struct TokenResponse {
    pub token: String,
}

/// Reply to a session creation.
pub struct SessionResponse {
    pub session_id: String,
    pub token: String,
}

/// Reply carrying an error message.
pub struct ErrorResponse {
    pub message: String,
}

/// One active session, as listed to its owner.
pub struct SessionInfo {
    pub session_id: String,
    pub created_at: String,
    pub last_renewed: String,
}

/// Reply listing the sessions of an API key.
pub struct SessionListResponse {
    pub sessions: Vec<SessionInfo>,
}

/// Reply to a successful revocation.
pub struct RevokeResponse {
    pub message: String,
}

/// A session held in the token cache. Times are seconds since the Unix epoch.
pub struct TokenCacheEntry {
    pub api_key: String,
    pub api_secret: String,
    pub session_id: String,
    pub token: String,
    pub created_at: u64,
    pub last_renewed: u64,
}

/// Why durable session storage failed.
pub struct StorageError(pub String);

/// The in-memory session cache, keyed by `"{api_key}:{session_id}"`.
pub type TokenCache = KeyedStore<TokenCacheEntry>;

/// The cache key of a session.
pub open spec fn cache_key(api_key: Seq<char>, session_id: Seq<char>) -> Seq<char> {
    api_key + ":"@ + session_id
}

/// Builds the cache key of a session.
pub fn make_cache_key(api_key: &str, session_id: &str) -> (r: String)
    ensures
        r@ == cache_key(api_key@, session_id@),
{
    crate::text::concat3(api_key, ":", session_id)
}

/// Where sessions are kept besides memory.
#[derive(PartialEq, Eq, Structural, Clone, Copy)]
pub enum StorageKind {
    /// A SQLite database at the configured path, behind the memory cache.
    LocalDb,
    /// Memory only.
    InMemory,
}

/// The storage a configured `storage_type` selects: `local_db` selects the
/// database; every other name, `in_memory` among them, selects memory only.
pub fn storage_kind(storage_type: &str) -> (k: StorageKind)
    ensures
        k == (if storage_type@ == "local_db"@ { StorageKind::LocalDb } else { StorageKind::InMemory }),
{
    if crate::text::str_eq(storage_type, "local_db") {
        StorageKind::LocalDb
    } else {
        StorageKind::InMemory
    }
}

/// The session service: its cache, and the storage its configuration selected.
pub struct JwtManager {
    pub token_cache: TokenCache,
    pub storage: StorageKind,
}

impl JwtManager {
    /// A manager with an empty cache, keeping sessions where `storage_type`
    /// says (the host opens the database for `local_db`).
    pub fn new(storage_type: &str) -> (r: JwtManager)
        ensures
            r.token_cache.wf(),
            r.token_cache@ == Map::<Seq<char>, TokenCacheEntry>::empty(),
            r.storage == (if storage_type@ == "local_db"@ { StorageKind::LocalDb } else { StorageKind::InMemory }),
    {
        JwtManager { token_cache: KeyedStore::new(), storage: storage_kind(storage_type) }
    }
}

} // verus!
