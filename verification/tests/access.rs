use backend::auth::domain::{Claims, Role};
use backend::errors::app_error::AppError;
use backend::part::service::auth::{
    ensure_admin_or_owner, ensure_part_owner, needs_owner_lookup, ownership_verdict,
};
use backend::store::DbError;

const ALICE: u128 = 0x7f1c3a52_0c0e_4c55_9b38_0e6f1a2b3c4d;
const BOB: u128 = 0x11111111_2222_4333_8444_555555555555;
const PART: u128 = 0xa1a2a3a4_b1b2_c1c2_d1d2_d3d4d5d6d7d8;

fn claims_of(id: u128, role: Role) -> Claims {
    Claims { sub: uuid::Uuid::from_u128(id).to_string(), role, exp: u64::MAX }
}

#[test]
fn the_owner_may_change_the_part() {
    assert!(ensure_admin_or_owner(claims_of(ALICE, Role::User), Ok(Some(ALICE)), PART).is_ok());
    assert!(ensure_part_owner(claims_of(ALICE, Role::User), Ok(Some(ALICE)), PART).is_ok());
}

#[test]
fn another_user_may_not_change_the_part() {
    let result = ensure_admin_or_owner(claims_of(BOB, Role::User), Ok(Some(ALICE)), PART);
    assert!(matches!(result, Err(AppError::Unauthorized(m)) if m == "You do not own this part."));
}

#[test]
fn an_administrator_may_change_any_part() {
    assert!(ensure_admin_or_owner(claims_of(BOB, Role::Admin), Ok(Some(ALICE)), PART).is_ok());
    assert!(ensure_admin_or_owner(claims_of(BOB, Role::Admin), Ok(None), PART).is_ok());
    assert!(ensure_admin_or_owner(claims_of(BOB, Role::Admin), Err(DbError), PART).is_ok());
    let nameless = Claims { sub: "nobody".to_string(), role: Role::Admin, exp: 0 };
    assert!(ensure_admin_or_owner(nameless, Ok(Some(ALICE)), PART).is_ok());
}

#[test]
fn an_unknown_part_is_reported_as_not_found() {
    let result = ensure_admin_or_owner(claims_of(ALICE, Role::User), Ok(None), PART);
    assert!(matches!(
        result,
        Err(AppError::NotFound(m)) if m == "Part not found: a1a2a3a4-b1b2-c1c2-d1d2-d3d4d5d6d7d8"
    ));
}

#[test]
fn the_part_is_named_by_its_hyphenated_identifier() {
    let result = ensure_part_owner(claims_of(ALICE, Role::User), Ok(None), 0);
    assert!(matches!(
        result,
        Err(AppError::NotFound(m)) if m == "Part not found: 00000000-0000-0000-0000-000000000000"
    ));
    let result = ensure_part_owner(claims_of(ALICE, Role::User), Ok(None), u128::MAX);
    assert!(matches!(
        result,
        Err(AppError::NotFound(m)) if m == "Part not found: ffffffff-ffff-ffff-ffff-ffffffffffff"
    ));
}

#[test]
fn an_unknown_role_is_treated_as_a_plain_user() {
    let impostor = Role::Unknown("admin".to_string());
    let result = ensure_admin_or_owner(claims_of(BOB, impostor), Ok(Some(ALICE)), PART);
    assert!(matches!(result, Err(AppError::Unauthorized(_))));
    let auditor = Role::Unknown("auditor".to_string());
    assert!(ensure_admin_or_owner(claims_of(ALICE, auditor), Ok(Some(ALICE)), PART).is_ok());
}

#[test]
fn a_failing_store_is_reported_before_anything_else() {
    let result = ensure_admin_or_owner(claims_of(ALICE, Role::User), Err(DbError), PART);
    assert!(matches!(result, Err(AppError::DatabaseError(m)) if m == "Ownership check failed"));
    let broken = Claims { sub: "not-a-uuid".to_string(), role: Role::User, exp: 0 };
    let result = ensure_part_owner(broken, Err(DbError), PART);
    assert!(matches!(result, Err(AppError::DatabaseError(m)) if m == "Ownership check failed"));
}

#[test]
fn a_subject_that_is_no_identifier_is_an_internal_error() {
    for sub in ["", "alice", "7f1c3a52-0c0e-4c55-9b38", "7f1c3a52-0c0e-4c55-9b38-0e6f1a2b3c4dx"] {
        let broken = Claims { sub: sub.to_string(), role: Role::User, exp: 0 };
        let result = ensure_admin_or_owner(broken, Ok(Some(ALICE)), PART);
        assert!(matches!(result, Err(AppError::InternalError(m)) if m == "Invalid UUID in claims"));
        let broken = Claims { sub: sub.to_string(), role: Role::User, exp: 0 };
        let result = ensure_admin_or_owner(broken, Ok(None), PART);
        assert!(matches!(result, Err(AppError::InternalError(m)) if m == "Invalid UUID in claims"));
    }
}

#[test]
fn a_subject_is_read_in_every_form_of_an_identifier() {
    for sub in [
        "7f1c3a52-0c0e-4c55-9b38-0e6f1a2b3c4d",
        "7F1C3A52-0C0E-4C55-9B38-0E6F1A2B3C4D",
        "7f1c3a520c0e4c559b380e6f1a2b3c4d",
    ] {
        let claims = Claims { sub: sub.to_string(), role: Role::User, exp: 0 };
        assert!(ensure_part_owner(claims, Ok(Some(ALICE)), PART).is_ok());
        let claims = Claims { sub: sub.to_string(), role: Role::User, exp: 0 };
        assert!(ensure_part_owner(claims, Ok(Some(ALICE + 1)), PART).is_err());
    }
}

#[test]
fn only_a_user_needs_the_owner_to_be_looked_up() {
    assert!(!needs_owner_lookup(&claims_of(ALICE, Role::Admin)));
    assert!(needs_owner_lookup(&claims_of(ALICE, Role::User)));
    assert!(needs_owner_lookup(&claims_of(ALICE, Role::Unknown("admin".to_string()))));
}

#[test]
fn the_verdict_on_plain_values() {
    assert!(ownership_verdict(Some(1), Ok(Some(1)), "p").is_ok());
    assert!(matches!(
        ownership_verdict(Some(1), Ok(Some(2)), "p"),
        Err(AppError::Unauthorized(m)) if m == "You do not own this part."
    ));
    assert!(matches!(
        ownership_verdict(Some(1), Ok(None), "p"),
        Err(AppError::NotFound(m)) if m == "Part not found: p"
    ));
    assert!(matches!(
        ownership_verdict(None, Ok(Some(1)), "p"),
        Err(AppError::InternalError(m)) if m == "Invalid UUID in claims"
    ));
    assert!(matches!(
        ownership_verdict(None, Err(DbError), "p"),
        Err(AppError::DatabaseError(m)) if m == "Ownership check failed"
    ));
}
