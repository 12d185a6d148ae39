//! Changing a part.

use vstd::prelude::*;
use vstd::string::StringExecFns;
use crate::auth::domain::{Claims, ClaimsView};
use crate::errors::app_error::{AppError, AppErrorView, result_view};
use crate::ids::{format_uuid, uuid_text};
use crate::part::domain::{NewPart, Part};
use crate::part::service::auth::{access_outcome, ensure_admin_or_owner};
use crate::part::service::create::{check_part, validation_failure};
use crate::store::DbError;

verus! {

/// Whether the part `id` may be changed to the given number and name by the
/// holder of `claims`: a part that breaks a rule is refused first, then the
/// ownership check decides.
pub open spec fn update_outcome(
    claims: ClaimsView,
    owner: Result<Option<u128>, DbError>,
    id: u128,
    part_number: Seq<char>,
    name: Seq<char>,
) -> Result<(), AppErrorView> {
    match validation_failure(part_number, name) {
        Some(error) => Err(error),
        None => access_outcome(claims, owner, id),
    }
}

/// Decides whether the holder of `claims` may change the part `id` to
/// `updated_part`. Nothing may be written unless this returns `Ok`.
///
/// `owner` is what the store answered when asked for the creator of the
/// part.
pub fn update_part(
    claims: Claims,
    owner: Result<Option<u128>, DbError>,
    id: u128,
    updated_part: &NewPart,
) -> (result: Result<(), AppError>)
    ensures
        result_view(result) == update_outcome(
            claims@,
            owner,
            id,
            updated_part.part_number@,
            updated_part.name@,
        ),
{
    check_part(updated_part)?;
    ensure_admin_or_owner(claims, owner, id)
}

/// Reports how the update of the part `id` ended: the part as it is now, a
/// database error, or that the part is gone.
pub fn part_updated(row: Result<Option<Part>, DbError>, id: u128) -> (result: Result<Part, AppError>)
    ensures
        match row {
            Ok(Some(part)) => result == Ok::<_, AppError>(part),
            Ok(None) => result matches Err(e) && e@ == AppErrorView::NotFound(
                "Part not found for update: "@ + uuid_text(id),
            ),
            Err(_) => result matches Err(e) && e@ == AppErrorView::DatabaseError(
                "Failed to update part"@,
            ),
        },
{
    match row {
        Ok(Some(part)) => Ok(part),
        Ok(None) => Err(
            AppError::NotFound(
                "Part not found for update: ".to_owned().concat(format_uuid(id).as_str()),
            ),
        ),
        Err(_) => Err(AppError::DatabaseError("Failed to update part".to_owned())),
    }
}

} // verus!
