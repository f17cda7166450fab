use oobe::jwt::auth::{bearer_token, check_claims, finish_with_storage, AuthStep};
use oobe::jwt::models::{make_cache_key, storage_kind, JwtManager, StorageError, StorageKind, TokenCache, TokenCacheEntry};
use oobe::jwt::session::{
    create_session, get_session_token, list_sessions, renew_expiring_tokens, revoke_session, validate_session_token,
    ApiError, TOKEN_EXPIRY_SECONDS,
};
use oobe::jwt::token::{
    check_decoded_claims, generate_jwt, get_api_key_from_token, signing_secret_str, Claims, DecodedClaims, TokenError,
};
use oobe::jwt::client::{credential_from_positions, generate_random_string};
use oobe::store::KeyedStore;

struct TokenClaims {
    sub: String,
    session_id: String,
    exp: u64,
    iat: u64,
}

fn decode(token: &str) -> TokenClaims {
    let mut validation = jsonwebtoken::Validation::default();
    validation.validate_exp = false;
    let v = jsonwebtoken::decode::<serde_json::Value>(
        token,
        &jsonwebtoken::DecodingKey::from_secret(signing_secret_str().as_bytes()),
        &validation,
    )
    .expect("token decodes")
    .claims;
    TokenClaims {
        sub: v["sub"].as_str().expect("sub").to_string(),
        session_id: v["session_id"].as_str().expect("session_id").to_string(),
        exp: v["exp"].as_u64().expect("exp"),
        iat: v["iat"].as_u64().expect("iat"),
    }
}

fn entry(api_key: &str, session_id: &str, created_at: u64, last_renewed: u64) -> TokenCacheEntry {
    TokenCacheEntry {
        api_key: api_key.to_string(),
        api_secret: "secret".to_string(),
        session_id: session_id.to_string(),
        token: "old-token".to_string(),
        created_at,
        last_renewed,
    }
}

fn claims(sub: &str, session_id: &str) -> Claims {
    Claims { sub: sub.to_string(), session_id: session_id.to_string(), exp: 100, iat: 90 }
}

#[test]
fn generate_jwt_rejects_empty_credentials() {
    let e = generate_jwt("", "s1", 0, 10).err().expect("refused");
    assert_eq!(e.message(), "API key and session ID cannot be empty");
    assert!(generate_jwt("key", "", 0, 10).is_err());
}

#[test]
fn generate_jwt_signs_the_claims() {
    let token = generate_jwt("key-1", "sess-1", 1000, 1010).expect("issued");
    assert_eq!(token.split('.').count(), 3);
    let c = decode(&token);
    assert_eq!(c.sub, "key-1");
    assert_eq!(c.session_id, "sess-1");
    assert_eq!(c.iat, 1000);
    assert_eq!(c.exp, 1010);
    let other = generate_jwt("key-1", "sess-2", 1000, 1010).expect("issued");
    assert_ne!(token, other);
}

#[test]
fn cache_key_joins_with_colon() {
    assert_eq!(make_cache_key("key", "sess"), "key:sess");
}

#[test]
fn storage_kind_selects_database_only_for_local_db() {
    assert!(storage_kind("local_db") == StorageKind::LocalDb);
    assert!(storage_kind("in_memory") == StorageKind::InMemory);
    assert!(storage_kind("anything") == StorageKind::InMemory);
    let m = JwtManager::new("local_db");
    assert!(m.storage == StorageKind::LocalDb);
    assert_eq!(m.token_cache.key_count(), 0);
}

#[test]
fn create_session_then_fetch_token() {
    let mut cache: TokenCache = KeyedStore::new();
    let resp = create_session(&mut cache, "key", "secret", "s1", 500).ok().expect("created");
    assert_eq!(resp.session_id, "s1");
    let c = decode(&resp.token);
    assert_eq!(c.iat, 500);
    assert_eq!(c.exp, 500 + TOKEN_EXPIRY_SECONDS);
    let stored = cache.get("key:s1").expect("cached");
    assert_eq!(stored.token, resp.token);
    assert_eq!(stored.created_at, 500);
    assert_eq!(stored.last_renewed, 500);
    let fresh = get_session_token(&mut cache, "key", "s1", 600, None).ok().expect("found");
    let c2 = decode(&fresh.token);
    assert_eq!(c2.sub, "key");
    assert_eq!(c2.iat, 600);
}

#[test]
fn create_session_with_empty_key_is_internal_error() {
    let mut cache: TokenCache = KeyedStore::new();
    let e = create_session(&mut cache, "", "secret", "s1", 500).err().expect("refused");
    assert_eq!(e.message, "Error generating token: API key and session ID cannot be empty");
    assert_eq!(cache.key_count(), 0);
}

#[test]
fn unknown_session_is_not_found() {
    let mut cache: TokenCache = KeyedStore::new();
    match get_session_token(&mut cache, "key", "nope", 10, None) {
        Err(e) => {
            assert_eq!(e.status(), 404);
            match e {
                ApiError::NotFound(m) => assert_eq!(m.message, "No active session found for the provided session ID"),
                ApiError::Internal(_) => panic!("wrong error"),
            }
        },
        Ok(_) => panic!("should not be found"),
    }
}

#[test]
fn stored_session_is_brought_back_into_cache() {
    let mut cache: TokenCache = KeyedStore::new();
    let r = get_session_token(&mut cache, "key", "s9", 10, Some(entry("key", "s9", 1, 1)));
    assert!(r.is_ok());
    assert!(cache.contains_key("key:s9"));
}

#[test]
fn list_sessions_reports_ages_and_merges_storage() {
    let mut cache: TokenCache = KeyedStore::new();
    cache.insert("key:a".to_string(), entry("key", "a", 100, 120));
    cache.insert("other:b".to_string(), entry("other", "b", 100, 100));
    let stored = vec![entry("key", "a", 50, 50), entry("key", "c", 90, 200)];
    let r = list_sessions(&cache, "key", &stored, 130);
    assert_eq!(r.sessions.len(), 2);
    assert_eq!(r.sessions[0].session_id, "a");
    assert_eq!(r.sessions[0].created_at, "30s ago");
    assert_eq!(r.sessions[0].last_renewed, "10s ago");
    assert_eq!(r.sessions[1].session_id, "c");
    assert_eq!(r.sessions[1].created_at, "40s ago");
    assert_eq!(r.sessions[1].last_renewed, "0s ago");
}

#[test]
fn revoke_then_validate_is_invalid_session() {
    let mut cache: TokenCache = KeyedStore::new();
    create_session(&mut cache, "key", "secret", "s1", 0).ok().expect("created");
    assert!(validate_session_token(&cache, Ok(claims("key", "s1")), Ok(None)).is_ok());
    let r = revoke_session(&mut cache, "key", "s1", false).ok().expect("revoked");
    assert_eq!(r.message, "Session successfully revoked");
    assert_eq!(validate_session_token(&cache, Ok(claims("key", "s1")), Ok(None)).err().expect("refused"), "Invalid session");
    match revoke_session(&mut cache, "key", "s1", false) {
        Err(ApiError::NotFound(m)) => assert_eq!(m.message, "Session not found"),
        _ => panic!("second revoke must be not found"),
    }
    assert!(revoke_session(&mut cache, "key", "s1", true).is_ok());
}

#[test]
fn validate_reports_invalid_token() {
    let cache: TokenCache = KeyedStore::new();
    let r = validate_session_token(&cache, Err(TokenError("ExpiredSignature".to_string())), Ok(None));
    assert_eq!(r.err().expect("refused"), "Invalid token: ExpiredSignature");
}

#[test]
fn renewal_reissues_only_due_tokens_and_is_idempotent() {
    let mut cache: TokenCache = KeyedStore::new();
    cache.insert("key:due".to_string(), entry("key", "due", 0, 0));
    cache.insert("key:fresh".to_string(), entry("key", "fresh", 0, 3));
    renew_expiring_tokens(&mut cache, 8);
    let due = cache.get("key:due").expect("kept");
    assert_eq!(due.last_renewed, 8);
    assert_eq!(due.created_at, 0);
    assert_eq!(decode(&due.token).iat, 8);
    let fresh = cache.get("key:fresh").expect("kept");
    assert_eq!(fresh.last_renewed, 3);
    assert_eq!(fresh.token, "old-token");
    let before = cache.get("key:due").expect("kept").token.clone();
    renew_expiring_tokens(&mut cache, 8);
    assert_eq!(cache.get("key:due").expect("kept").token, before);
    assert_eq!(cache.key_count(), 2);
}

#[test]
fn api_key_comes_from_subject() {
    assert_eq!(get_api_key_from_token(Ok(claims("key", "s"))).ok().expect("ok"), "key");
    assert_eq!(get_api_key_from_token(Err(TokenError("bad".to_string()))).err().expect("err").message(), "bad");
}

#[test]
fn bearer_header_cases() {
    assert_eq!(bearer_token(Some("Bearer abc.def")).ok().expect("token"), "abc.def");
    let e = bearer_token(None).err().expect("refused");
    assert_eq!(e.status, 401);
    assert_eq!(e.body.message, "Missing Authorization header");
    let e = bearer_token(Some("Basic xyz")).err().expect("refused");
    assert_eq!(e.body.message, "Authorization header must use Bearer scheme");
}

#[test]
fn claims_checked_against_cache_and_storage() {
    let mut cache: TokenCache = KeyedStore::new();
    cache.insert("key:s1".to_string(), entry("key", "s1", 0, 0));
    match check_claims(&cache, Ok(claims("key", "s1")), false) {
        AuthStep::Authorized(a) => {
            assert_eq!(a.api_key, "key");
            assert_eq!(a.session_id, "s1");
        },
        _ => panic!("should be authorized"),
    }
    match check_claims(&cache, Ok(claims("key", "s2")), false) {
        AuthStep::Rejected(r) => assert_eq!(r.body.message, "Invalid session"),
        _ => panic!("should be rejected"),
    }
    match check_claims(&cache, Err(TokenError("InvalidSignature".to_string())), true) {
        AuthStep::Rejected(r) => {
            assert_eq!(r.status, 401);
            assert_eq!(r.body.message, "Invalid token: InvalidSignature");
        },
        _ => panic!("should be rejected"),
    }
    let c = match check_claims(&cache, Ok(claims("key", "s2")), true) {
        AuthStep::ConsultStorage(c) => c,
        _ => panic!("should consult storage"),
    };
    let a = finish_with_storage(&mut cache, c, Ok(Some(entry("key", "s2", 0, 0)))).ok().expect("accepted");
    assert_eq!(a.session_id, "s2");
    assert!(cache.contains_key("key:s2"));
    let r = finish_with_storage(&mut cache, claims("key", "s3"), Ok(None)).err().expect("refused");
    assert_eq!(r.status, 401);
    let r = finish_with_storage(&mut cache, claims("key", "s3"), Err(StorageError("disk".to_string())))
        .err()
        .expect("refused");
    assert_eq!(r.status, 500);
    assert_eq!(r.body.message, "Storage error: disk");
}

#[test]
fn random_credentials_use_letters_and_digits() {
    let s = oobe::jwt::client::generate_random_string(24);
    assert_eq!(s.chars().count(), 24);
    assert!(s.chars().all(|c| c.is_ascii_alphanumeric()));
    assert_eq!(oobe::jwt::client::generate_random_string(0), "");
    assert_eq!(
        oobe::jwt::client::session_request_url("abc"),
        "http://localhost:8080/api/auth/abc/sessions"
    );
}

#[test]
fn stored_session_with_empty_key_cannot_be_reissued() {
    let mut cache: TokenCache = KeyedStore::new();
    match get_session_token(&mut cache, "", "s1", 10, Some(entry("", "s1", 0, 0))) {
        Err(e) => {
            assert_eq!(e.status(), 500);
            match e {
                ApiError::Internal(m) => {
                    assert_eq!(m.message, "Error generating token: API key and session ID cannot be empty")
                },
                ApiError::NotFound(_) => panic!("wrong error"),
            }
        },
        Ok(_) => panic!("empty key must not be signed"),
    }
    assert!(cache.contains_key(":s1"));
}

#[test]
fn stored_session_is_valid_without_cache() {
    let cache: TokenCache = KeyedStore::new();
    let r = validate_session_token(&cache, Ok(claims("key", "s7")), Ok(Some(entry("key", "s7", 0, 0))));
    assert_eq!(r.ok().expect("active in storage"), ("key".to_string(), "s7".to_string()));
    let r = validate_session_token(&cache, Ok(claims("key", "s7")), Err(StorageError("locked".to_string())));
    assert_eq!(r.err().expect("storage failed"), "Invalid session");
}

fn unix_time() -> u64 {
    std::time::SystemTime::now().duration_since(std::time::UNIX_EPOCH).expect("after epoch").as_secs()
}

#[test]
fn issued_token_validates_to_its_claims() {
    let now = unix_time();
    let token = generate_jwt("key-9", "sess-9", now, now + 10).expect("issued");
    let c = oobe::jwt::token::validate_jwt(&token).ok().expect("valid");
    assert_eq!(c.sub, "key-9");
    assert_eq!(c.session_id, "sess-9");
    assert_eq!(c.iat, now);
    assert_eq!(c.exp, now + 10);
    assert_eq!(oobe::jwt::token::get_api_key_from_token_str(&token).ok().expect("valid"), "key-9");
}

#[test]
fn expired_or_malformed_tokens_are_refused() {
    let token = generate_jwt("key", "sess", 1000, 1010).expect("issued");
    let e = oobe::jwt::token::validate_jwt(&token).err().expect("expired");
    assert_eq!(e.message(), "ExpiredSignature");
    assert!(oobe::jwt::token::validate_jwt("not-a-token").is_err());
    assert!(oobe::jwt::token::get_api_key_from_token_str("a.b").is_err());
}

#[test]
fn decoded_claims_need_all_four_fields() {
    let full = DecodedClaims {
        sub: Some("k".to_string()),
        session_id: Some("s".to_string()),
        exp: Some(20),
        iat: Some(10),
    };
    let c = check_decoded_claims(Ok(full)).ok().expect("complete");
    assert_eq!((c.sub.as_str(), c.session_id.as_str(), c.exp, c.iat), ("k", "s", 20, 10));
    let partial = DecodedClaims { sub: Some("k".to_string()), session_id: None, exp: None, iat: Some(1) };
    assert_eq!(
        check_decoded_claims(Ok(partial)).err().expect("incomplete").message(),
        "JSON error: missing or invalid field `session_id`"
    );
    assert_eq!(check_decoded_claims(Err("InvalidSignature".to_string())).err().expect("refused").message(), "InvalidSignature");
}

#[test]
fn open_session_uses_fresh_id_and_clock() {
    let mut cache: TokenCache = KeyedStore::new();
    let before = unix_time();
    let resp = oobe::jwt::session::open_session(&mut cache, "key", "secret").ok().expect("opened");
    assert_eq!(resp.session_id.chars().count(), 36);
    let entry = cache.get(&make_cache_key("key", &resp.session_id)).expect("cached");
    assert!(entry.created_at >= before);
    assert_eq!(decode(&resp.token).sub, "key");
    let other = oobe::jwt::session::open_session(&mut cache, "key", "secret").ok().expect("opened");
    assert_ne!(other.session_id, resp.session_id);
    let e = oobe::jwt::session::open_session(&mut cache, "", "secret").err().expect("empty key");
    assert_eq!(e.message, "Error generating token: API key and session ID cannot be empty");
    assert_eq!(cache.key_count(), 2);
}

#[test]
fn credential_positions_pick_charset_characters() {
    assert_eq!(credential_from_positions(&vec![0, 25, 26, 51, 52, 61]), "AZaz09");
    assert_eq!(credential_from_positions(&vec![]), "");
    let s = generate_random_string(32);
    assert_eq!(s.chars().count(), 32);
    assert!(s.chars().all(|c| c.is_ascii_alphanumeric()));
}
