//! Issuing HS256 session tokens.
use vstd::prelude::*;
use crate::text::owned;

verus! {

/// The claims a session token carries.
pub struct Claims {
    /// Subject: the API key the session belongs to.
    pub sub: String,
    /// The session the token was issued for.
    pub session_id: String,
    /// Expiry, in seconds since the Unix epoch.
    pub exp: u64,
    /// Issue time, in seconds since the Unix epoch.
    pub iat: u64,
}

/// Why a token could not be issued or accepted.
#[derive(Debug)]
pub struct TokenError(pub String);

impl TokenError {
    /// The error's text.
    pub fn message(&self) -> (r: String)
        ensures
            r@ == self.0@,
    {
        self.0.clone()
    }
}

/// The text of the secret every session token is signed with.
pub open spec fn signing_secret() -> Seq<char> {
    "jwt_secret_do_not_use_in_production"@
}

/// The secret every session token is signed with.
pub fn signing_secret_str() -> (r: &'static str)
    ensures
        r@ == signing_secret(),
{
    "jwt_secret_do_not_use_in_production"
}

/// The refusal given when the API key or the session id is empty.
pub open spec fn empty_credentials_message() -> Seq<char> {
    "API key and session ID cannot be empty"@
}

/// The compact JWS that `jsonwebtoken::encode` produces for the default HS256 header
/// and the claims object `{"sub", "session_id", "exp", "iat"}` (in that order),
/// signed with the bytes of `secret`.
pub uninterp spec fn hs256_jwt(sub: Seq<char>, session_id: Seq<char>, exp: u64, iat: u64, secret: Seq<char>) -> Seq<char>;

/// What `jsonwebtoken::decode` finds in `token` under
/// `DecodingKey::from_secret(secret)` and `Validation::default()`, leaving aside
/// the checks against the clock: `None` when the token does not split into
/// three parts, its header does not decode, its algorithm is not HS256, its
/// HMAC-SHA256 signature under `secret` does not match, or its payload is not
/// JSON; otherwise the string values under `sub` and `session_id` and the
/// unsigned integers under `exp` and `iat` of the payload (each `None` when the
/// field is missing or of another type).
pub uninterp spec fn hs256_verified_claims(token: Seq<char>, secret: Seq<char>) -> Option<
    (Option<Seq<char>>, Option<Seq<char>>, Option<u64>, Option<u64>),
>;

/// The claims of a token with all four fields, as `hs256_verified_claims` gives them.
pub open spec fn full_claims(sub: Seq<char>, session_id: Seq<char>, exp: u64, iat: u64) -> Option<
    (Option<Seq<char>>, Option<Seq<char>>, Option<u64>, Option<u64>),
> {
    Some((Some(sub), Some(session_id), Some(exp), Some(iat)))
}

/// Signs the claims with `jsonwebtoken::encode`, under `Header::default()` (HS256)
/// and `EncodingKey::from_secret`. The claims go in a `serde_json::Map`, which
/// keeps insertion order (serde_json's `preserve_order` feature is on), so they
/// are serialised in the order `sub`, `session_id`, `exp`, `iat`. The contract says that the result is the token
/// named by `hs256_jwt` for exactly these arguments, and that encoding succeeds:
/// in the crate's source the HMAC key family always matches HS256, serialising the
/// header and a JSON object of strings and integers cannot fail, and HMAC signing
/// returns `Ok` unconditionally. What the token's bytes are is left to the name.
/// It also says that decoding the token under the same secret gives these
/// claims back: `decode` recomputes the same HMAC over the same header and
/// payload with the same key bytes, the default header names HS256, which
/// `Validation::default()` admits, and the payload is the JSON object just
/// written, whose strings and unsigned integers read back unchanged.
#[verifier::external_body]
fn encode_hs256(sub: &str, session_id: &str, exp: u64, iat: u64, secret: &str) -> (r: Result<String, String>)
    ensures
        r is Ok,
        r matches Ok(t) ==> t@ == hs256_jwt(sub@, session_id@, exp, iat, secret@),
        r matches Ok(t) ==> hs256_verified_claims(t@, secret@) == full_claims(sub@, session_id@, exp, iat),
{
    let mut claims = serde_json::Map::new();
    claims.insert("sub".to_string(), serde_json::Value::from(sub));
    claims.insert("session_id".to_string(), serde_json::Value::from(session_id));
    claims.insert("exp".to_string(), serde_json::Value::from(exp));
    claims.insert("iat".to_string(), serde_json::Value::from(iat));
    let key = jsonwebtoken::EncodingKey::from_secret(secret.as_bytes());
    jsonwebtoken::encode(&jsonwebtoken::Header::default(), &claims, &key).map_err(|e| e.to_string())
}

/// Issues a session token for `api_key` and `session_id`, valid from `iat` to `exp`.
pub fn generate_jwt(api_key: &str, session_id: &str, iat: u64, exp: u64) -> (r: Result<String, TokenError>)
    ensures
        r is Err <==> (api_key@.len() == 0 || session_id@.len() == 0),
        r matches Err(e) ==> e.0@ == empty_credentials_message(),
        r matches Ok(t) ==> t@ == hs256_jwt(api_key@, session_id@, exp, iat, signing_secret()),
        r matches Ok(t) ==> hs256_verified_claims(t@, signing_secret()) == full_claims(
            api_key@,
            session_id@,
            exp,
            iat,
        ),
{
    if api_key.is_empty() || session_id.is_empty() {
        return Err(TokenError(owned("API key and session ID cannot be empty")));
    }
    match encode_hs256(api_key, session_id, exp, iat, signing_secret_str()) {
        Ok(t) => Ok(t),
        Err(e) => Err(TokenError(e)),
    }
}

/// The API key a validated token was issued for (its subject).
pub fn get_api_key_from_token(validated: Result<Claims, TokenError>) -> (r: Result<String, TokenError>)
    ensures
        match validated {
            Ok(c) => r matches Ok(k) && k == c.sub,
            Err(e) => r matches Err(e2) && e2 == e,
        },
{
    match validated {
        Ok(c) => Ok(c.sub),
        Err(e) => Err(e),
    }
}

/// The number of `.` characters in `s`.
pub open spec fn dot_count(s: Seq<char>) -> nat
    decreases s.len(),
{
    if s.len() == 0 {
        0
    } else {
        dot_count(s.drop_last()) + if s.last() == '.' { 1nat } else { 0nat }
    }
}

/// The claims read from a decoded token's JSON: each `None` when the field is
/// missing or not of its type (a string, or an unsigned integer).
pub struct DecodedClaims {
    pub sub: Option<String>,
    pub session_id: Option<String>,
    pub exp: Option<u64>,
    pub iat: Option<u64>,
}

/// Checks a token with `jsonwebtoken::decode` under `Validation::default()`
/// (HS256, `exp` required and compared with the clock, 60 s of leeway) and
/// `DecodingKey::from_secret`, decoding the claims as a `serde_json::Value` whose
/// four fields are then read with `Value`'s indexing, `as_str` and `as_u64`.
/// Whether the token is accepted also depends on the time of the call, so the
/// contract states what holds of every outcome: the crate's source refuses any
/// text that does not split at two `.` characters, and accepts a token only
/// when its signature checks, in which case the fields read are those that
/// `hs256_verified_claims` names. Which errors come out, and when, is left unsaid.
#[verifier::external_body]
fn decode_hs256(token: &str, secret: &str) -> (r: Result<DecodedClaims, String>)
    ensures
        r is Ok ==> dot_count(token@) >= 2,
        r matches Ok(d) ==> hs256_verified_claims(token@, secret@) == Some(decoded_view(d)),
{
    let key = jsonwebtoken::DecodingKey::from_secret(secret.as_bytes());
    let v = jsonwebtoken::decode::<serde_json::Value>(token, &key, &jsonwebtoken::Validation::default())
        .map_err(|e| e.to_string())?
        .claims;
    Ok(DecodedClaims {
        sub: v["sub"].as_str().map(String::from),
        session_id: v["session_id"].as_str().map(String::from),
        exp: v["exp"].as_u64(),
        iat: v["iat"].as_u64(),
    })
}

/// The view of optional text.
pub open spec fn text_of(s: Option<String>) -> Option<Seq<char>> {
    match s {
        Some(x) => Some(x@),
        None => None,
    }
}

/// The fields of decoded claims, as plain values.
pub open spec fn decoded_view(d: DecodedClaims) -> (Option<Seq<char>>, Option<Seq<char>>, Option<u64>, Option<u64>) {
    (text_of(d.sub), text_of(d.session_id), d.exp, d.iat)
}

/// Some field of verified claims is missing or of the wrong type.
pub open spec fn lacks_claim(f: (Option<Seq<char>>, Option<Seq<char>>, Option<u64>, Option<u64>)) -> bool {
    f.0 is None || f.1 is None || f.2 is None || f.3 is None
}

/// The message for a decoded token that lacks a claim: the first of `sub`,
/// `session_id`, `exp`, `iat` that is missing or of the wrong type.
pub open spec fn missing_claim_message(d: DecodedClaims) -> Seq<char> {
    "JSON error: missing or invalid field `"@ + (if d.sub is None {
        "sub"@
    } else if d.session_id is None {
        "session_id"@
    } else if d.exp is None {
        "exp"@
    } else {
        "iat"@
    }) + "`"@
}

/// `r` is what the claims check makes of the decoding outcome `d`: a decoding
/// error is passed on as its text; decoded claims are accepted when all four
/// are present, and refused with `missing_claim_message` otherwise.
pub open spec fn claims_checked(d: Result<DecodedClaims, String>, r: Result<Claims, TokenError>) -> bool {
    match d {
        Err(e) => r matches Err(te) && te.0 == e,
        Ok(f) => if f.sub is Some && f.session_id is Some && f.exp is Some && f.iat is Some {
            r matches Ok(c) && c.sub == f.sub->0 && c.session_id == f.session_id->0 && c.exp == f.exp->0
                && c.iat == f.iat->0
        } else {
            r matches Err(te) && te.0@ == missing_claim_message(f)
        },
    }
}

/// `r` is what the claims check makes of some outcome of decoding `token`
/// under the session secret, an outcome whose claims, when it has any, are
/// those `hs256_verified_claims` names.
pub open spec fn decoded_and_checked(token: Seq<char>, r: Result<Claims, TokenError>) -> bool {
    exists|d: Result<DecodedClaims, String>|
        #[trigger] claims_checked(d, r) && (d matches Ok(f) ==> hs256_verified_claims(token, signing_secret()) == Some(
            decoded_view(f),
        ))
}

/// `r` is the subject of the accepted claims `v`, or `v`'s refusal unchanged.
pub open spec fn subject_of(v: Result<Claims, TokenError>, r: Result<String, TokenError>) -> bool {
    match v {
        Ok(c) => r matches Ok(k) && k == c.sub,
        Err(e) => r matches Err(e2) && e2 == e,
    }
}

/// Turns the outcome of decoding a token into its claims, or the reason it
/// was refused.
pub fn check_decoded_claims(d: Result<DecodedClaims, String>) -> (r: Result<Claims, TokenError>)
    ensures
        claims_checked(d, r),
{
    match d {
        Err(e) => Err(TokenError(e)),
        Ok(f) => match (f.sub, f.session_id, f.exp, f.iat) {
            (Some(sub), Some(session_id), Some(exp), Some(iat)) => Ok(Claims { sub, session_id, exp, iat }),
            (sub, session_id, exp, _) => {
                let field = if sub.is_none() {
                    "sub"
                } else if session_id.is_none() {
                    "session_id"
                } else if exp.is_none() {
                    "exp"
                } else {
                    "iat"
                };
                Err(TokenError(crate::text::concat3("JSON error: missing or invalid field `", field, "`")))
            },
        },
    }
}

/// Validates a session token: its signature under the session secret, its
/// expiry against the clock, and its claims. An accepted token carries exactly
/// the claims returned; a token whose signature does not check, or that lacks
/// a claim, is refused; whatever comes out is the claims check of an outcome of
/// decoding the token. What the clock makes of a token is not stated.
pub fn validate_jwt(token: &str) -> (r: Result<Claims, TokenError>)
    ensures
        r is Ok ==> dot_count(token@) >= 2,
        r matches Ok(c) ==> hs256_verified_claims(token@, signing_secret()) == full_claims(
            c.sub@,
            c.session_id@,
            c.exp,
            c.iat,
        ),
        hs256_verified_claims(token@, signing_secret()) is None ==> r is Err,
        (hs256_verified_claims(token@, signing_secret()) matches Some(f) && lacks_claim(f)) ==> r is Err,
        decoded_and_checked(token@, r),
{
    let decoded = decode_hs256(token, signing_secret_str());
    let ghost d = decoded;
    let r = check_decoded_claims(decoded);
    assert(claims_checked(d, r));
    proof {
        if r is Ok {
            let f = d->Ok_0;
            assert(decoded_view(f) == full_claims(r->Ok_0.sub@, r->Ok_0.session_id@, r->Ok_0.exp, r->Ok_0.iat)->0);
        }
    }
    r
}

/// The API key a session token was issued for: its subject, once the token
/// passes `validate_jwt`; a refusal is passed on unchanged.
pub fn get_api_key_from_token_str(token: &str) -> (r: Result<String, TokenError>)
    ensures
        r is Ok ==> dot_count(token@) >= 2,
        r matches Ok(k) ==> hs256_verified_claims(token@, signing_secret()) matches Some(f) && f.0 == Some(k@)
            && !lacks_claim(f),
        hs256_verified_claims(token@, signing_secret()) is None ==> r is Err,
        (hs256_verified_claims(token@, signing_secret()) matches Some(f) && lacks_claim(f)) ==> r is Err,
        exists|v: Result<Claims, TokenError>| #[trigger] decoded_and_checked(token@, v) && subject_of(v, r),
{
    let validated = validate_jwt(token);
    let ghost v = validated;
    let r = get_api_key_from_token(validated);
    assert(decoded_and_checked(token@, v) && subject_of(v, r));
    r
}

/// An issued token validates to the claims it was issued with: for a token
/// that `generate_jwt` issued for these claims, whatever `validate_jwt` makes of
/// it (`r`, as its contract describes it) is either exactly those claims or a
/// refusal passed on from decoding (which only the clock can cause); and the API
/// key `get_api_key_from_token_str` reads from it (`key`) is the one issued.
pub proof fn law_issued_token_validates_to_its_claims(
    token: Seq<char>,
    api_key: Seq<char>,
    session_id: Seq<char>,
    exp: u64,
    iat: u64,
    r: Result<Claims, TokenError>,
    key: Result<String, TokenError>,
)
    requires
        hs256_verified_claims(token, signing_secret()) == full_claims(api_key, session_id, exp, iat),
        decoded_and_checked(token, r),
        subject_of(r, key),
    ensures
        r matches Ok(c) ==> c.sub@ == api_key && c.session_id@ == session_id && c.exp == exp && c.iat == iat,
        r is Err ==> exists|d: Result<DecodedClaims, String>| d is Err && #[trigger] claims_checked(d, r),
        key matches Ok(k) ==> k@ == api_key,
{
    let d = choose|d: Result<DecodedClaims, String>|
        #[trigger] claims_checked(d, r) && (d matches Ok(f) ==> hs256_verified_claims(token, signing_secret()) == Some(
            decoded_view(f),
        ));
    if d is Ok {
        let f = d->Ok_0;
        assert(decoded_view(f) == full_claims(api_key, session_id, exp, iat)->0);
    }
}

} // verus!
