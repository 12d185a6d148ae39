//! Identity tokens: issuing one for a set of claims, reading the claims back
//! from a token, and authenticating a request by its `Authorization` header.
//!
//! A token is a JSON Web Token signed with HMAC-SHA256. Building, signing
//! and parsing it is left to the `jsonwebtoken` crate; deciding whether the
//! claims have expired, and what each outcome means for the caller, is done
//! here.

use vstd::prelude::*;
use crate::auth::domain::{
    Claims,
    ClaimsView,
    Role,
    TOKEN_TTL_SECS,
    lemma_role_of_name,
    role_of_name,
};
use crate::errors::app_error::{AppError, AppErrorView, UNAUTHORIZED, result_view};
use crate::text::{opt_view, spec_strip_prefix, strip_prefix};

verus! {

/// Why a token was not accepted.
#[derive(Debug, Clone, Copy, PartialEq, Eq, Structural)]
pub enum TokenError {
    /// Bad signature, bad structure, another algorithm, or no bearer token
    /// in the header at all.
    Invalid,
    /// The token is genuine and its claims have expired.
    Expired,
}

/// The token that `jsonwebtoken::encode` builds under the header
/// `Header::default()` (HMAC-SHA256) and the key
/// `EncodingKey::from_secret(secret)` for the payload
/// `{"sub": sub, "role": role, "exp": exp}`; `None` where it reports an
/// error.
pub uninterp spec fn hs256_token(
    sub: Seq<char>,
    role: Seq<char>,
    exp: u64,
    secret: Seq<u8>,
) -> Option<Seq<char>>;

/// The `sub`, `role` and `exp` that `jsonwebtoken::decode` reads from
/// `token` under the key `DecodingKey::from_secret(secret)`, with
/// HMAC-SHA256 as the only algorithm allowed and its own check of `exp`
/// switched off; `None` where it reports an error, or where the payload
/// lacks one of the three or holds it in another type.
pub uninterp spec fn hs256_claims(token: Seq<char>, secret: Seq<u8>) -> Option<
    (Seq<char>, Seq<char>, u64),
>;

/// Builds the payload `{"sub": sub, "role": role, "exp": exp}` and calls
/// `jsonwebtoken::encode` on it with `Header::default()` and
/// `EncodingKey::from_secret(secret)`.
///
/// Trusted: the result is the named value `hs256_token`; and a token that
/// comes out is read back by `jsonwebtoken::decode` under the same secret
/// as the three values that went in (`decode` verifies the signature by
/// signing the message again and comparing, and parses the JSON that
/// `encode` wrote).
#[verifier::external_body]
fn encode_hs256(sub: &str, role: &str, exp: u64, secret: &[u8]) -> (token: Option<String>)
    ensures
        opt_view(token) == hs256_token(sub@, role@, exp, secret@),
        token matches Some(t) ==> hs256_claims(t@, secret@) == Some((sub@, role@, exp)),
{
    let mut payload = serde_json::Map::new();
    payload.insert("sub".to_owned(), serde_json::Value::from(sub));
    payload.insert("role".to_owned(), serde_json::Value::from(role));
    payload.insert("exp".to_owned(), serde_json::Value::from(exp));
    let key = jsonwebtoken::EncodingKey::from_secret(secret);
    jsonwebtoken::encode(&jsonwebtoken::Header::default(), &payload, &key).ok()
}

/// Calls `jsonwebtoken::decode` on `token` with
/// `DecodingKey::from_secret(secret)` and a `Validation` for HMAC-SHA256
/// that neither requires nor checks `exp`, and picks `sub`, `role` and
/// `exp` out of the payload.
///
/// Trusted: the result is the named value `hs256_claims`.
#[verifier::external_body]
fn decode_hs256(token: &str, secret: &[u8]) -> (claims: Option<(String, String, u64)>)
    ensures
        match claims {
            Some(c) => hs256_claims(token@, secret@) == Some((c.0@, c.1@, c.2)),
            None => hs256_claims(token@, secret@) is None,
        },
{
    let mut validation = jsonwebtoken::Validation::new(jsonwebtoken::Algorithm::HS256);
    validation.validate_exp = false;
    validation.required_spec_claims.clear();
    let key = jsonwebtoken::DecodingKey::from_secret(secret);
    let data = jsonwebtoken::decode::<serde_json::Value>(token, &key, &validation).ok()?;
    let sub = data.claims.get("sub")?.as_str()?.to_owned();
    let role = data.claims.get("role")?.as_str()?.to_owned();
    let exp = data.claims.get("exp")?.as_u64()?;
    Some((sub, role, exp))
}

/// Reads the clock with `SystemTime::now` and `duration_since(UNIX_EPOCH)`
/// of the standard library: the whole seconds since the Unix epoch, `None`
/// where the clock reads a time before it. Nothing is known of the result.
#[verifier::external_body]
pub(crate) fn unix_now() -> Option<u64> {
    match std::time::SystemTime::now().duration_since(std::time::UNIX_EPOCH) {
        Ok(elapsed) => Some(elapsed.as_secs()),
        Err(_) => None,
    }
}

/// The model of what reading a token returned.
pub open spec fn claims_result_view(result: Result<Claims, TokenError>) -> Result<
    ClaimsView,
    TokenError,
> {
    match result {
        Ok(claims) => Ok(claims@),
        Err(error) => Err(error),
    }
}

/// The view of an optional string slice.
pub open spec fn opt_str_view(s: Option<&str>) -> Option<Seq<char>> {
    match s {
        Some(s) => Some(s@),
        None => None,
    }
}

/// The view of an optional byte string.
pub open spec fn opt_bytes_view(s: Option<&[u8]>) -> Option<Seq<u8>> {
    match s {
        Some(s) => Some(s@),
        None => None,
    }
}

/// The view of the three values of a payload.
pub open spec fn payload_view(payload: Option<(String, String, u64)>) -> Option<
    (Seq<char>, Seq<char>, u64),
> {
    match payload {
        Some(p) => Some((p.0@, p.1@, p.2)),
        None => None,
    }
}

/// What the holder of `claims` gets when asking for a token under `secret`.
///
/// Without a secret no token is issued. A role that would be read back as
/// another role is not written into a token.
pub open spec fn issue_outcome(claims: ClaimsView, secret: Option<Seq<u8>>) -> Result<
    Seq<char>,
    AppErrorView,
> {
    match secret {
        None => Err(AppErrorView::InternalError("JWT secret is not set."@)),
        Some(key) => if claims.role.canonical() {
            signing_outcome(hs256_token(claims.sub, claims.role.name(), claims.exp, key))
        } else {
            signing_outcome(None)
        },
    }
}

/// What the caller gets for each outcome of the signing.
pub open spec fn signing_outcome(token: Option<Seq<char>>) -> Result<Seq<char>, AppErrorView> {
    match token {
        Some(t) => Ok(t),
        None => Err(AppErrorView::InternalError("Login failed: generate JWT token."@)),
    }
}

/// What a payload means at the second `now`: no payload, no identity; a
/// payload whose expiry has been reached is expired; any other payload is
/// the caller's identity.
pub open spec fn claims_outcome(payload: Option<(Seq<char>, Seq<char>, u64)>, now: u64) -> Result<
    ClaimsView,
    TokenError,
> {
    match payload {
        None => Err(TokenError::Invalid),
        Some((sub, role, exp)) => {
            let claims = ClaimsView { sub, role: role_of_name(role), exp };
            if claims.valid_at(now) {
                Ok(claims)
            } else {
                Err(TokenError::Expired)
            }
        },
    }
}

/// What an `Authorization` header means at the second `now` under `secret`:
/// without a header, or with one that does not start with `"Bearer "`,
/// there is no identity; otherwise what follows the prefix is read as a
/// token.
pub open spec fn authenticate_outcome(header: Option<Seq<char>>, secret: Seq<u8>, now: u64) -> Result<
    ClaimsView,
    TokenError,
> {
    match header {
        None => Err(TokenError::Invalid),
        Some(value) => match spec_strip_prefix(value, "Bearer "@) {
            None => Err(TokenError::Invalid),
            Some(token) => claims_outcome(hs256_claims(token, secret), now),
        },
    }
}

/// What the request pipeline does with an identity or its absence: the
/// claims go on to the handler, every failure is answered with `401`.
pub open spec fn guard_outcome(identity: Result<ClaimsView, TokenError>) -> Result<ClaimsView, u16> {
    match identity {
        Ok(claims) => Ok(claims),
        Err(_) => Err(UNAUTHORIZED),
    }
}

/// Reports a failed signing as an internal error.
pub fn token_or_error(token: Option<String>) -> (result: Result<String, AppError>)
    ensures
        result_view(result) == signing_outcome(opt_view(token)),
{
    match token {
        Some(t) => Ok(t),
        None => Err(AppError::InternalError("Login failed: generate JWT token.".to_owned())),
    }
}

/// Issues a token for `claims`, signed under `secret`.
///
/// A token that is returned holds the subject, the name of the role and the
/// expiry of `claims`, and is read so under the same secret. Presented at
/// any second before `claims.exp` it gives `claims` back; from that second
/// on it is expired.
pub fn generate_jwt(claims: Claims, secret: Option<&[u8]>) -> (result: Result<String, AppError>)
    ensures
        result_view(result) == issue_outcome(claims@, opt_bytes_view(secret)),
        result matches Ok(token) ==> hs256_claims(token@, secret.unwrap()@) == Some(
            (claims.sub@, claims.role@.name(), claims.exp),
        ),
        result matches Ok(token) ==> forall|now: u64|
            now >= claims.exp ==> #[trigger] authenticate_outcome(
                Some("Bearer "@ + token@),
                secret.unwrap()@,
                now,
            ) == Err::<ClaimsView, _>(TokenError::Expired),
        result matches Ok(token) ==> forall|now: u64|
            now < claims.exp ==> #[trigger] authenticate_outcome(
                Some("Bearer "@ + token@),
                secret.unwrap()@,
                now,
            ) == Ok::<_, TokenError>(claims@),
{
    let key = match secret {
        Some(key) => key,
        None => {
            return Err(AppError::InternalError("JWT secret is not set.".to_owned()));
        },
    };
    if !claims.role.is_canonical() {
        return token_or_error(None);
    }
    let token = encode_hs256(claims.sub.as_str(), claims.role.as_str(), claims.exp, key);
    proof {
        if token is Some {
            let t = token->0;
            lemma_bearer_header("Bearer "@ + t@, t@);
            assert forall|now: u64| now < claims.exp implies #[trigger] authenticate_outcome(
                Some("Bearer "@ + t@),
                key@,
                now,
            ) == Ok::<_, TokenError>(claims@) by {
                lemma_payload_round_trip(claims@, now);
            }
        }
    }
    token_or_error(token)
}

/// Reads the claims out of a decoded payload, unless they have expired.
pub fn claims_from_payload(payload: Option<(String, String, u64)>, now: u64) -> (result: Result<
    Claims,
    TokenError,
>)
    ensures
        claims_result_view(result) == claims_outcome(payload_view(payload), now),
{
    match payload {
        None => Err(TokenError::Invalid),
        Some((sub, role, exp)) => {
            let claims = Claims { sub, role: Role::from_name(role.as_str()), exp };
            if claims.is_valid_at(now) {
                Ok(claims)
            } else {
                Err(TokenError::Expired)
            }
        },
    }
}

/// Verifies `token` under `secret` and reads its claims at the second `now`.
pub fn validate_token(token: &str, secret: &[u8], now: u64) -> (result: Result<Claims, TokenError>)
    ensures
        claims_result_view(result) == claims_outcome(hs256_claims(token@, secret@), now),
{
    claims_from_payload(decode_hs256(token, secret), now)
}

/// The token that an `Authorization` header carries: what follows
/// `"Bearer "`, if the header starts with it.
pub fn bearer_token<'a>(header: &'a str) -> (token: Option<&'a str>)
    ensures
        opt_str_view(token) == spec_strip_prefix(header@, "Bearer "@),
{
    strip_prefix(header, "Bearer ")
}

/// Finds out who sent a request with the `Authorization` header `header`,
/// at the second `now`.
pub fn authenticate(header: Option<&str>, secret: &[u8], now: u64) -> (result: Result<
    Claims,
    TokenError,
>)
    ensures
        claims_result_view(result) == authenticate_outcome(opt_str_view(header), secret@, now),
{
    let value = match header {
        Some(value) => value,
        None => {
            return Err(TokenError::Invalid);
        },
    };
    match bearer_token(value) {
        Some(token) => validate_token(token, secret, now),
        None => Err(TokenError::Invalid),
    }
}

/// The model of what the guard of a route returned.
pub open spec fn guard_result_view(result: Result<Claims, u16>) -> Result<ClaimsView, u16> {
    match result {
        Ok(claims) => Ok(claims@),
        Err(status) => Err(status),
    }
}

/// What the guard of a route does with a request, given what the clock
/// read: without a reading nobody can be told from an expired caller, and
/// the request is turned away.
pub open spec fn guard_outcome_at(header: Option<Seq<char>>, secret: Seq<u8>, clock: Option<u64>) -> Result<
    ClaimsView,
    u16,
> {
    match clock {
        Some(now) => guard_outcome(authenticate_outcome(header, secret, now)),
        None => Err(UNAUTHORIZED),
    }
}

/// Guards a protected route, given what the clock read: the claims of the
/// caller, to be attached to the request, or the status `401` with which the
/// request is turned away.
pub fn jwt_auth_at(header: Option<&str>, secret: &[u8], clock: Option<u64>) -> (result: Result<
    Claims,
    u16,
>)
    ensures
        guard_result_view(result) == guard_outcome_at(opt_str_view(header), secret@, clock),
{
    let now = match clock {
        Some(now) => now,
        None => {
            return Err(UNAUTHORIZED);
        },
    };
    match authenticate(header, secret, now) {
        Ok(claims) => Ok(claims),
        Err(_) => Err(UNAUTHORIZED),
    }
}

/// Guards a protected route: the claims of the caller, to be attached to
/// the request, or the status `401` with which the request is turned away.
///
/// The clock is read once, and the request is judged by `jwt_auth_at` on
/// what it read. A request without a bearer token is turned away whatever
/// the clock says.
pub fn jwt_auth(header: Option<&str>, secret: &[u8]) -> (result: Result<Claims, u16>)
    ensures
        exists|clock: Option<u64>|
            guard_result_view(result) == #[trigger] guard_outcome_at(
                opt_str_view(header),
                secret@,
                clock,
            ),
        result matches Err(status) ==> status == UNAUTHORIZED,
{
    jwt_auth_at(header, secret, unix_now())
}

/// A header made of `"Bearer "` and a token carries that token.
pub proof fn lemma_bearer_header(header: Seq<char>, token: Seq<char>)
    requires
        header == "Bearer "@ + token,
    ensures
        spec_strip_prefix(header, "Bearer "@) == Some(token),
{
    let prefix = "Bearer "@;
    assert(header.subrange(0, prefix.len() as int) == prefix);
    assert(header.subrange(prefix.len() as int, header.len() as int) == token);
}

/// The payload that was written for canonical claims is read as those
/// claims at every second before their expiry.
pub proof fn lemma_payload_round_trip(claims: ClaimsView, now: u64)
    requires
        claims.role.canonical(),
        now < claims.exp,
    ensures
        claims_outcome(Some((claims.sub, claims.role.name(), claims.exp)), now) == Ok::<
            _,
            TokenError,
        >(claims),
{
}

/// A payload is expired from the second of its expiry on, and valid at
/// every second before: one second past the expiry it is refused, an hour
/// ahead of it it is accepted.
pub proof fn lemma_expiry_boundary(sub: Seq<char>, role: Seq<char>, exp: u64, now: u64)
    ensures
        now >= exp ==> claims_outcome(Some((sub, role, exp)), now) == Err::<ClaimsView, _>(
            TokenError::Expired,
        ),
        now < exp ==> claims_outcome(Some((sub, role, exp)), now) is Ok,
        exp == now - 1 ==> claims_outcome(Some((sub, role, exp)), now) == Err::<ClaimsView, _>(
            TokenError::Expired,
        ),
        exp == now + TOKEN_TTL_SECS ==> claims_outcome(Some((sub, role, exp)), now) is Ok,
{
}

/// A header with another scheme than `Bearer` is refused without looking at
/// a token: the outcome is the same under every secret and at every second.
pub proof fn lemma_wrong_scheme_is_refused(header: Seq<char>, secret: Seq<u8>, now: u64)
    requires
        spec_strip_prefix(header, "Bearer "@) is None,
    ensures
        authenticate_outcome(Some(header), secret, now) == Err::<ClaimsView, _>(
            TokenError::Invalid,
        ),
        guard_outcome(authenticate_outcome(Some(header), secret, now)) == Err::<ClaimsView, _>(
            UNAUTHORIZED,
        ),
{
}

/// A bearer token that does not read under the secret of the service is
/// refused as invalid, at every second, and the request is answered with
/// `401`. Whether a token issued under one secret reads under another is a
/// matter of HMAC-SHA256 and is not claimed here.
pub proof fn lemma_unreadable_token_is_refused(token: Seq<char>, secret: Seq<u8>, now: u64)
    requires
        hs256_claims(token, secret) is None,
    ensures
        authenticate_outcome(Some("Bearer "@ + token), secret, now) == Err::<ClaimsView, _>(
            TokenError::Invalid,
        ),
        guard_outcome(authenticate_outcome(Some("Bearer "@ + token), secret, now)) == Err::<
            ClaimsView,
            _,
        >(UNAUTHORIZED),
{
    lemma_bearer_header("Bearer "@ + token, token);
}

/// The role read from a token is privileged only if the token says
/// `"admin"`.
pub proof fn lemma_token_role(sub: Seq<char>, role: Seq<char>, exp: u64, now: u64)
    requires
        now < exp,
    ensures
        claims_outcome(Some((sub, role, exp)), now) matches Ok(claims) && (claims.role.is_admin()
            <==> role == "admin"@),
{
    lemma_role_of_name(role);
}

} // verus!
