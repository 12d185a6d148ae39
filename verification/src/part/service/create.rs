//! Adding a part.

use vstd::prelude::*;
use crate::auth::domain::{Claims, ClaimsView};
use crate::errors::app_error::{AppError, AppErrorView};
use crate::errors::validation::{BAD_REQUEST, ValidationErrorResponseView, all_lines, extract_validation_errors};
use crate::ids::{parse_uuid, uuid_parse};
use crate::part::domain::{NewPart, Part, new_part_violations};
use crate::store::DbError;

verus! {

/// The failure with which a part of the given number and name is refused,
/// if it is.
pub open spec fn validation_failure(part_number: Seq<char>, name: Seq<char>) -> Option<
    AppErrorView,
> {
    if part_number.len() >= 1 && name.len() >= 1 {
        None
    } else {
        Some(
            AppErrorView::ValidationError(
                ValidationErrorResponseView {
                    success: false,
                    code: BAD_REQUEST,
                    errors: all_lines(new_part_violations(part_number, name)),
                },
            ),
        )
    }
}

/// Who is recorded as the creator of a new part, or why the part is not
/// added: a part that breaks a rule is refused first; then the creator is
/// read from the subject of the claims.
pub open spec fn create_outcome(claims: ClaimsView, part_number: Seq<char>, name: Seq<char>) -> Result<
    u128,
    AppErrorView,
> {
    match validation_failure(part_number, name) {
        Some(error) => Err(error),
        None => match uuid_parse(claims.sub) {
            Some(user_id) => Ok(user_id),
            None => Err(AppErrorView::InternalError("Invalid UUID in claims"@)),
        },
    }
}

/// The model of a result that carries an identifier.
pub open spec fn id_result_view(result: Result<u128, AppError>) -> Result<u128, AppErrorView> {
    match result {
        Ok(id) => Ok(id),
        Err(error) => Err(error@),
    }
}

/// Checks the rules of a part before it is stored.
pub fn check_part(part: &NewPart) -> (result: Result<(), AppError>)
    ensures
        match result {
            Ok(()) => validation_failure(part.part_number@, part.name@) is None,
            Err(e) => validation_failure(part.part_number@, part.name@) == Some(e@),
        },
{
    match part.validate() {
        Ok(()) => Ok(()),
        Err(errors) => Err(AppError::ValidationError(extract_validation_errors(errors))),
    }
}

/// Decides whether the holder of `claims` may add `new_part`, and under
/// whose name: the identifier of the account that will be recorded as its
/// creator.
pub fn create_part(claims: Claims, new_part: &NewPart) -> (result: Result<u128, AppError>)
    ensures
        id_result_view(result) == create_outcome(claims@, new_part.part_number@, new_part.name@),
{
    check_part(new_part)?;
    match parse_uuid(claims.sub.as_str()) {
        Some(user_id) => Ok(user_id),
        None => Err(AppError::InternalError("Invalid UUID in claims".to_owned())),
    }
}

/// Reports how the insertion of a part ended: the stored part, or a
/// database error.
pub fn part_created(row: Result<Part, DbError>) -> (result: Result<Part, AppError>)
    ensures
        match row {
            Ok(part) => result == Ok::<_, AppError>(part),
            Err(_) => result matches Err(e) && e@ == AppErrorView::DatabaseError(
                "DB insert failed"@,
            ),
        },
{
    match row {
        Ok(part) => Ok(part),
        Err(_) => Err(AppError::DatabaseError("DB insert failed".to_owned())),
    }
}

} // verus!
