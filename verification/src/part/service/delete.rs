//! Removing a part.

use vstd::prelude::*;
use vstd::string::StringExecFns;
use crate::auth::domain::Claims;
use crate::errors::app_error::{AppError, AppErrorView, result_view};
use crate::ids::{format_uuid, uuid_text};
use crate::part::service::auth::{access_outcome, ensure_admin_or_owner};
use crate::store::DbError;

verus! {

/// What the removal of the part `id` comes to, given how many rows the
/// store removed.
pub open spec fn deleted_outcome(rows: Result<u64, DbError>, id: u128) -> Result<(), AppErrorView> {
    match rows {
        Err(_) => Err(AppErrorView::DatabaseError("Failed to delete part"@)),
        Ok(affected) => if affected == 0 {
            Err(AppErrorView::NotFound("Part not found for deletion: "@ + uuid_text(id)))
        } else {
            Ok(())
        },
    }
}

/// Decides whether the holder of `claims` may remove the part `id`. Nothing
/// may be removed unless this returns `Ok`.
///
/// `owner` is what the store answered when asked for the creator of the
/// part.
pub fn delete_part(claims: Claims, owner: Result<Option<u128>, DbError>, id: u128) -> (result: Result<
    (),
    AppError,
>)
    ensures
        result_view(result) == access_outcome(claims@, owner, id),
{
    ensure_admin_or_owner(claims, owner, id)
}

/// Reports how the removal of the part `id` ended.
pub fn part_deleted(rows: Result<u64, DbError>, id: u128) -> (result: Result<(), AppError>)
    ensures
        result_view(result) == deleted_outcome(rows, id),
{
    match rows {
        Err(_) => Err(AppError::DatabaseError("Failed to delete part".to_owned())),
        Ok(affected) => {
            if affected == 0 {
                Err(
                    AppError::NotFound(
                        "Part not found for deletion: ".to_owned().concat(
                            format_uuid(id).as_str(),
                        ),
                    ),
                )
            } else {
                Ok(())
            }
        },
    }
}

} // verus!
