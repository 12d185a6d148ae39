use backend::auth::domain::{Claims, Role};
use backend::auth::jwt::{
    authenticate, bearer_token, claims_from_payload, generate_jwt, jwt_auth, jwt_auth_at,
    token_or_error, validate_token, TokenError,
};
use backend::errors::app_error::AppError;

const SECRET: &[u8] = b"a-long-enough-secret";
const NOW: u64 = 1_700_000_000;

fn claims(sub: &str, role: Role, exp: u64) -> Claims {
    Claims { sub: sub.to_string(), role, exp }
}

fn token_for(sub: &str, role: Role, exp: u64) -> String {
    generate_jwt(claims(sub, role, exp), Some(SECRET)).unwrap()
}

fn foreign_token(algorithm: jsonwebtoken::Algorithm, secret: &[u8]) -> String {
    let mut payload = serde_json::Map::new();
    payload.insert("sub".to_string(), serde_json::Value::from("u1"));
    payload.insert("role".to_string(), serde_json::Value::from("admin"));
    payload.insert("exp".to_string(), serde_json::Value::from(NOW + 3600));
    jsonwebtoken::encode(
        &jsonwebtoken::Header::new(algorithm),
        &payload,
        &jsonwebtoken::EncodingKey::from_secret(secret),
    )
    .unwrap()
}

fn payload_token(payload: serde_json::Map<String, serde_json::Value>) -> String {
    jsonwebtoken::encode(
        &jsonwebtoken::Header::default(),
        &payload,
        &jsonwebtoken::EncodingKey::from_secret(SECRET),
    )
    .unwrap()
}

#[test]
fn a_token_gives_its_claims_back() {
    let token = token_for("7f1c3a52-0c0e-4c55-9b38-0e6f1a2b3c4d", Role::User, NOW + 3600);
    let read = validate_token(&token, SECRET, NOW).unwrap();
    assert_eq!(read.sub, "7f1c3a52-0c0e-4c55-9b38-0e6f1a2b3c4d");
    assert_eq!(read.role, Role::User);
    assert_eq!(read.exp, NOW + 3600);
}

#[test]
fn a_token_has_three_parts_and_names_its_algorithm() {
    let token = token_for("u1", Role::Admin, NOW + 3600);
    assert_eq!(token.split('.').count(), 3);
    let header = jsonwebtoken::decode_header(&token).unwrap();
    assert_eq!(header.alg, jsonwebtoken::Algorithm::HS256);
}

#[test]
fn the_payload_holds_sub_role_and_exp() {
    let token = token_for("u1", Role::Admin, 4_102_444_800);
    let mut validation = jsonwebtoken::Validation::new(jsonwebtoken::Algorithm::HS256);
    validation.validate_exp = false;
    let data = jsonwebtoken::decode::<serde_json::Value>(
        &token,
        &jsonwebtoken::DecodingKey::from_secret(SECRET),
        &validation,
    )
    .unwrap();
    assert_eq!(data.claims.get("sub").and_then(|v| v.as_str()), Some("u1"));
    assert_eq!(data.claims.get("role").and_then(|v| v.as_str()), Some("admin"));
    assert_eq!(data.claims.get("exp").and_then(|v| v.as_u64()), Some(4_102_444_800));
}

#[test]
fn every_role_survives_the_round_trip() {
    for (role, name) in [
        (Role::Admin, "admin"),
        (Role::User, "user"),
        (Role::Unknown("auditor".to_string()), "auditor"),
        (Role::Unknown("".to_string()), ""),
        (Role::Unknown("Admin".to_string()), "Admin"),
    ] {
        assert_eq!(role.as_str(), name);
        let token = token_for("u1", role.clone(), NOW + 1);
        let read = validate_token(&token, SECRET, NOW).unwrap();
        assert_eq!(read.role, role);
        assert_eq!(read.role, Role::from(name));
    }
}

#[test]
fn a_subject_with_quotes_and_unicode_survives_the_round_trip() {
    let sub = "a\"b\\c\n\u{1F600}é";
    let token = token_for(sub, Role::User, NOW + 3600);
    let read = validate_token(&token, SECRET, NOW).unwrap();
    assert_eq!(read.sub, sub);
}

#[test]
fn another_secret_does_not_open_a_token() {
    let token = token_for("u1", Role::User, NOW + 3600);
    assert_eq!(validate_token(&token, b"another-secret", NOW).unwrap_err(), TokenError::Invalid);
    assert_eq!(validate_token(&token, b"", NOW).unwrap_err(), TokenError::Invalid);
}

#[test]
fn a_token_one_second_past_its_expiry_is_expired() {
    let token = token_for("u1", Role::User, NOW - 1);
    assert_eq!(validate_token(&token, SECRET, NOW).unwrap_err(), TokenError::Expired);
}

#[test]
fn a_token_is_expired_at_the_second_of_its_expiry() {
    let token = token_for("u1", Role::User, NOW);
    assert_eq!(validate_token(&token, SECRET, NOW).unwrap_err(), TokenError::Expired);
    assert!(validate_token(&token, SECRET, NOW - 1).is_ok());
}

#[test]
fn a_token_an_hour_ahead_of_its_expiry_is_accepted() {
    let token = token_for("u1", Role::User, NOW + 3600);
    assert!(validate_token(&token, SECRET, NOW).is_ok());
    assert!(validate_token(&token, SECRET, NOW + 3599).is_ok());
    assert_eq!(validate_token(&token, SECRET, NOW + 3600).unwrap_err(), TokenError::Expired);
}

#[test]
fn an_expired_token_under_another_secret_is_invalid() {
    let token = token_for("u1", Role::User, NOW - 1);
    assert_eq!(validate_token(&token, b"another-secret", NOW).unwrap_err(), TokenError::Invalid);
}

#[test]
fn a_tampered_token_is_invalid() {
    let token = token_for("u1", Role::User, NOW + 3600);
    let other = token_for("u2", Role::Admin, NOW + 3600);
    let parts: Vec<&str> = token.split('.').collect();
    let other_parts: Vec<&str> = other.split('.').collect();
    let forged = format!("{}.{}.{}", parts[0], other_parts[1], parts[2]);
    assert_eq!(validate_token(&forged, SECRET, NOW).unwrap_err(), TokenError::Invalid);
}

#[test]
fn text_that_is_no_token_is_invalid() {
    for text in ["", "abc", "a.b", "a.b.c", "a.b.c.d", "..", "Bearer x"] {
        assert_eq!(validate_token(text, SECRET, NOW).unwrap_err(), TokenError::Invalid);
    }
}

#[test]
fn a_token_signed_with_another_algorithm_is_invalid() {
    let token = foreign_token(jsonwebtoken::Algorithm::HS384, SECRET);
    assert_eq!(validate_token(&token, SECRET, NOW).unwrap_err(), TokenError::Invalid);
    let token = foreign_token(jsonwebtoken::Algorithm::HS512, SECRET);
    assert_eq!(validate_token(&token, SECRET, NOW).unwrap_err(), TokenError::Invalid);
    let token = foreign_token(jsonwebtoken::Algorithm::HS256, SECRET);
    assert!(validate_token(&token, SECRET, NOW).is_ok());
}

#[test]
fn an_unsigned_token_is_invalid() {
    let token = token_for("u1", Role::User, NOW + 3600);
    let parts: Vec<&str> = token.split('.').collect();
    let none_header = "eyJ0eXAiOiJKV1QiLCJhbGciOiJub25lIn0";
    let unsigned = format!("{}.{}.", none_header, parts[1]);
    assert_eq!(validate_token(&unsigned, SECRET, NOW).unwrap_err(), TokenError::Invalid);
}

#[test]
fn a_payload_without_a_claim_is_invalid() {
    let mut payload = serde_json::Map::new();
    payload.insert("sub".to_string(), serde_json::Value::from("u1"));
    payload.insert("exp".to_string(), serde_json::Value::from(NOW + 3600));
    let token = payload_token(payload);
    assert_eq!(validate_token(&token, SECRET, NOW).unwrap_err(), TokenError::Invalid);
}

#[test]
fn a_payload_with_a_claim_of_another_type_is_invalid() {
    let mut payload = serde_json::Map::new();
    payload.insert("sub".to_string(), serde_json::Value::from("u1"));
    payload.insert("role".to_string(), serde_json::Value::from(1));
    payload.insert("exp".to_string(), serde_json::Value::from(NOW + 3600));
    let token = payload_token(payload);
    assert_eq!(validate_token(&token, SECRET, NOW).unwrap_err(), TokenError::Invalid);
    let mut payload = serde_json::Map::new();
    payload.insert("sub".to_string(), serde_json::Value::from("u1"));
    payload.insert("role".to_string(), serde_json::Value::from("user"));
    payload.insert("exp".to_string(), serde_json::Value::from("tomorrow"));
    let token = payload_token(payload);
    assert_eq!(validate_token(&token, SECRET, NOW).unwrap_err(), TokenError::Invalid);
}

#[test]
fn further_claims_in_a_payload_are_ignored() {
    let mut payload = serde_json::Map::new();
    payload.insert("sub".to_string(), serde_json::Value::from("u1"));
    payload.insert("role".to_string(), serde_json::Value::from("user"));
    payload.insert("exp".to_string(), serde_json::Value::from(NOW + 10));
    payload.insert("iat".to_string(), serde_json::Value::from(NOW));
    let token = payload_token(payload);
    let read = validate_token(&token, SECRET, NOW).unwrap();
    assert_eq!(read.sub, "u1");
    assert_eq!(read.exp, NOW + 10);
}

#[test]
fn without_a_secret_no_token_is_issued() {
    let result = generate_jwt(claims("u1", Role::User, NOW + 3600), None);
    assert!(matches!(result, Err(AppError::InternalError(m)) if m == "JWT secret is not set."));
}

#[test]
fn an_unknown_role_named_like_a_known_one_gets_no_token() {
    for name in ["admin", "user"] {
        let result =
            generate_jwt(claims("u1", Role::Unknown(name.to_string()), NOW + 3600), Some(SECRET));
        assert!(matches!(
            result,
            Err(AppError::InternalError(m)) if m == "Login failed: generate JWT token."
        ));
    }
}

#[test]
fn a_failed_signing_is_an_internal_error() {
    assert_eq!(token_or_error(Some("t".to_string())).unwrap(), "t");
    assert!(matches!(
        token_or_error(None),
        Err(AppError::InternalError(m)) if m == "Login failed: generate JWT token."
    ));
}

#[test]
fn a_payload_is_read_at_a_given_second() {
    let payload = Some(("u1".to_string(), "admin".to_string(), 100u64));
    let read = claims_from_payload(payload, 99).unwrap();
    assert_eq!((read.sub.as_str(), read.role, read.exp), ("u1", Role::Admin, 100));
    let payload = Some(("u1".to_string(), "admin".to_string(), 100u64));
    assert_eq!(claims_from_payload(payload, 100).unwrap_err(), TokenError::Expired);
    let payload = Some(("u1".to_string(), "root".to_string(), 0u64));
    assert_eq!(claims_from_payload(payload, 0).unwrap_err(), TokenError::Expired);
    let payload = Some(("u1".to_string(), "root".to_string(), u64::MAX));
    let read = claims_from_payload(payload, u64::MAX - 1).unwrap();
    assert_eq!(read.role, Role::Unknown("root".to_string()));
    assert_eq!(claims_from_payload(None, 0).unwrap_err(), TokenError::Invalid);
}

#[test]
fn the_bearer_token_is_what_follows_the_prefix() {
    assert_eq!(bearer_token("Bearer abc"), Some("abc"));
    assert_eq!(bearer_token("Bearer "), Some(""));
    assert_eq!(bearer_token("Bearer  abc"), Some(" abc"));
    assert_eq!(bearer_token("Bearer Bearer abc"), Some("Bearer abc"));
}

#[test]
fn a_header_without_the_prefix_carries_no_token() {
    for header in ["", "Bearer", "bearer abc", "BEARER abc", "Token abc", " Bearer abc", "abc"] {
        assert_eq!(bearer_token(header), None);
    }
}

#[test]
fn a_request_with_a_good_bearer_token_is_authenticated() {
    let token = token_for("u1", Role::Admin, NOW + 3600);
    let header = format!("Bearer {}", token);
    let read = authenticate(Some(&header), SECRET, NOW).unwrap();
    assert_eq!((read.sub.as_str(), read.role, read.exp), ("u1", Role::Admin, NOW + 3600));
}

#[test]
fn a_request_without_header_is_refused() {
    assert_eq!(authenticate(None, SECRET, NOW).unwrap_err(), TokenError::Invalid);
    assert_eq!(jwt_auth(None, SECRET).unwrap_err(), 401);
}

#[test]
fn a_header_with_another_scheme_is_refused() {
    assert_eq!(authenticate(Some("Token abc"), SECRET, NOW).unwrap_err(), TokenError::Invalid);
    assert_eq!(jwt_auth(Some("Token abc"), SECRET).unwrap_err(), 401);
    let token = token_for("u1", Role::Admin, u64::MAX);
    let header = format!("Token {}", token);
    assert_eq!(authenticate(Some(&header), SECRET, NOW).unwrap_err(), TokenError::Invalid);
    assert_eq!(jwt_auth(Some(&header), SECRET).unwrap_err(), 401);
    let header = token;
    assert_eq!(jwt_auth(Some(&header), SECRET).unwrap_err(), 401);
}

#[test]
fn a_bearer_header_with_a_bad_token_is_refused() {
    assert_eq!(authenticate(Some("Bearer abc"), SECRET, NOW).unwrap_err(), TokenError::Invalid);
    assert_eq!(jwt_auth(Some("Bearer abc"), SECRET).unwrap_err(), 401);
    assert_eq!(jwt_auth(Some("Bearer "), SECRET).unwrap_err(), 401);
}

#[test]
fn an_expired_bearer_token_is_refused() {
    let token = token_for("u1", Role::User, NOW - 1);
    let header = format!("Bearer {}", token);
    assert_eq!(authenticate(Some(&header), SECRET, NOW).unwrap_err(), TokenError::Expired);
}

#[test]
fn the_guard_goes_by_the_clock() {
    let now = jsonwebtoken::get_current_timestamp();
    let fresh = format!("Bearer {}", token_for("u1", Role::User, now + 3600));
    let read = jwt_auth(Some(&fresh), SECRET).unwrap();
    assert_eq!((read.sub.as_str(), read.role, read.exp), ("u1", Role::User, now + 3600));
    let stale = format!("Bearer {}", token_for("u1", Role::User, now - 1));
    assert_eq!(jwt_auth(Some(&stale), SECRET).unwrap_err(), 401);
    assert_eq!(jwt_auth(Some(&fresh), b"another-secret").unwrap_err(), 401);
}

#[test]
fn claims_are_valid_before_their_expiry_only() {
    let c = claims("u1", Role::User, 10);
    assert!(c.is_valid_at(9));
    assert!(!c.is_valid_at(10));
    assert!(!c.is_valid_at(11));
    let copy = c.clone();
    assert_eq!((copy.sub, copy.role, copy.exp), (c.sub, c.role, c.exp));
}

#[test]
fn a_token_with_expiry_zero_is_read_as_expired_at_every_second() {
    let token = token_for("u1", Role::User, 0);
    assert_eq!(validate_token(&token, SECRET, 0).unwrap_err(), TokenError::Expired);
    assert_eq!(validate_token(&token, SECRET, 1).unwrap_err(), TokenError::Expired);
    assert_eq!(validate_token(&token, SECRET, u64::MAX).unwrap_err(), TokenError::Expired);
    let header = format!("Bearer {}", token);
    assert_eq!(authenticate(Some(&header), SECRET, 0).unwrap_err(), TokenError::Expired);
    assert_eq!(jwt_auth(Some(&header), SECRET).unwrap_err(), 401);
}

#[test]
fn the_guard_judges_a_request_by_what_the_clock_read() {
    let header = format!("Bearer {}", token_for("u1", Role::Admin, NOW + 3600));
    let read = jwt_auth_at(Some(&header), SECRET, Some(NOW)).unwrap();
    assert_eq!((read.sub.as_str(), read.role, read.exp), ("u1", Role::Admin, NOW + 3600));
    assert!(jwt_auth_at(Some(&header), SECRET, Some(NOW + 3599)).is_ok());
    assert_eq!(jwt_auth_at(Some(&header), SECRET, Some(NOW + 3600)).unwrap_err(), 401);
    assert_eq!(jwt_auth_at(Some(&header), b"another-secret", Some(NOW)).unwrap_err(), 401);
    assert_eq!(jwt_auth_at(Some("Token abc"), SECRET, Some(NOW)).unwrap_err(), 401);
    assert_eq!(jwt_auth_at(None, SECRET, Some(NOW)).unwrap_err(), 401);
}

#[test]
fn the_guard_turns_everybody_away_while_the_clock_cannot_be_read() {
    let header = format!("Bearer {}", token_for("u1", Role::Admin, u64::MAX));
    assert!(jwt_auth_at(Some(&header), SECRET, Some(0)).is_ok());
    assert_eq!(jwt_auth_at(Some(&header), SECRET, None).unwrap_err(), 401);
    assert_eq!(jwt_auth_at(None, SECRET, None).unwrap_err(), 401);
    assert_eq!(jwt_auth_at(Some("Token abc"), SECRET, None).unwrap_err(), 401);
}
