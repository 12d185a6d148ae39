//! Reading parts.

use vstd::prelude::*;
use vstd::string::StringExecFns;
use crate::errors::app_error::{AppError, AppErrorView};
use crate::ids::{format_uuid, uuid_text};
use crate::part::domain::Part;
use crate::store::DbError;

verus! {

/// Reports what the store answered when asked for all parts.
pub fn get_parts(rows: Result<Vec<Part>, DbError>) -> (result: Result<Vec<Part>, AppError>)
    ensures
        match rows {
            Ok(parts) => result == Ok::<_, AppError>(parts),
            Err(_) => result matches Err(e) && e@ == AppErrorView::DatabaseError(
                "DB select failed"@,
            ),
        },
{
    match rows {
        Ok(parts) => Ok(parts),
        Err(_) => Err(AppError::DatabaseError("DB select failed".to_owned())),
    }
}

/// Reports what the store answered when asked for the part `id`.
pub fn get_part(row: Result<Option<Part>, DbError>, id: u128) -> (result: Result<Part, AppError>)
    ensures
        match row {
            Ok(Some(part)) => result == Ok::<_, AppError>(part),
            Ok(None) => result matches Err(e) && e@ == AppErrorView::NotFound(
                "Part not found: "@ + uuid_text(id),
            ),
            Err(_) => result matches Err(e) && e@ == AppErrorView::DatabaseError(
                "Failed to fetch part"@,
            ),
        },
{
    match row {
        Ok(Some(part)) => Ok(part),
        Ok(None) => Err(
            AppError::NotFound("Part not found: ".to_owned().concat(format_uuid(id).as_str())),
        ),
        Err(_) => Err(AppError::DatabaseError("Failed to fetch part".to_owned())),
    }
}

} // verus!
