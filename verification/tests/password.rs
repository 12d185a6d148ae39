use backend::auth::password::{
    hash_password, hashed_or_error, password_verdict, verify_password, PasswordCheck,
};
use backend::errors::app_error::AppError;

#[test]
fn a_password_verifies_against_its_own_hash() {
    let hash = hash_password("correct horse").unwrap();
    assert!(verify_password("correct horse", &hash).is_ok());
}

#[test]
fn a_hash_is_a_phc_string_and_not_the_password() {
    let hash = hash_password("pw").unwrap();
    assert_ne!(hash, "pw");
    assert!(hash.starts_with("$argon2id$v=19$"));
}

#[test]
fn two_hashes_of_one_password_differ_and_both_verify() {
    let first = hash_password("pw").unwrap();
    let second = hash_password("pw").unwrap();
    assert_ne!(first, second);
    assert!(verify_password("pw", &first).is_ok());
    assert!(verify_password("pw", &second).is_ok());
}

#[test]
fn another_password_is_refused_as_unauthorized() {
    let hash = hash_password("pw").unwrap();
    let result = verify_password("pw2", &hash);
    assert!(matches!(result, Err(AppError::Unauthorized(m)) if m == "Invalid login credentials."));
}

#[test]
fn the_empty_password_round_trips_too() {
    let hash = hash_password("").unwrap();
    assert!(verify_password("", &hash).is_ok());
    assert!(verify_password(" ", &hash).is_err());
}

#[test]
fn a_malformed_stored_hash_is_an_internal_error() {
    let result = verify_password("pw", "not a hash");
    assert!(matches!(result, Err(AppError::InternalError(m)) if m == "Password hash parse error"));
    let result = verify_password("pw", "");
    assert!(matches!(result, Err(AppError::InternalError(m)) if m == "Password hash parse error"));
}

#[test]
fn a_stored_hash_without_digest_matches_no_password() {
    let stored = "$argon2id$v=19$m=19456,t=2,p=1$c29tZXNhbHQxMjM0NTY3OA";
    let result = verify_password("pw", stored);
    assert!(matches!(result, Err(AppError::Unauthorized(m)) if m == "Invalid login credentials."));
}

#[test]
fn each_finding_has_its_error() {
    assert!(password_verdict(PasswordCheck::Match).is_ok());
    assert!(matches!(
        password_verdict(PasswordCheck::Mismatch),
        Err(AppError::Unauthorized(m)) if m == "Invalid login credentials."
    ));
    assert!(matches!(
        password_verdict(PasswordCheck::Malformed),
        Err(AppError::InternalError(m)) if m == "Password hash parse error"
    ));
}

#[test]
fn a_failed_hashing_is_an_internal_error() {
    assert_eq!(hashed_or_error(Some("h".to_string())).unwrap(), "h");
    assert!(matches!(
        hashed_or_error(None),
        Err(AppError::InternalError(m)) if m == "Signup failed: hash the password."
    ));
}

#[test]
fn a_long_password_is_hashed_too() {
    let long = "é".repeat(50_000);
    let hash = hash_password(&long).unwrap();
    assert!(verify_password(&long, &hash).is_ok());
    let shorter = "é".repeat(49_999);
    assert!(verify_password(&shorter, &hash).is_err());
}
