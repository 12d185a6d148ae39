//! The ownership and role check that guards every change to a part.
//!
//! An administrator may change any part. Anybody else may change the parts
//! that they created. Whether a part exists is told before whether it may be
//! changed: a caller who is not its owner learns that it exists.

use vstd::prelude::*;
use vstd::string::StringExecFns;
use crate::auth::domain::{Claims, ClaimsView};
use crate::auth::service::login::claims_for;
use crate::errors::app_error::{AppError, AppErrorView, result_view};
use crate::ids::{format_uuid, parse_uuid, uuid_parse, uuid_text};
use crate::models::user::UserView;
use crate::store::DbError;

verus! {

/// Whether the account `subject` may change a part, given what the store
/// says of the part's owner. `part` is the part's identifier as text.
///
/// A failing store is reported first; then a subject that is no identifier,
/// which no genuine token holds; then a part that does not exist; then a
/// part of somebody else.
pub open spec fn ownership_outcome(
    subject: Option<u128>,
    owner: Result<Option<u128>, DbError>,
    part: Seq<char>,
) -> Result<(), AppErrorView> {
    match owner {
        Err(_) => Err(AppErrorView::DatabaseError("Ownership check failed"@)),
        Ok(found) => match subject {
            None => Err(AppErrorView::InternalError("Invalid UUID in claims"@)),
            Some(user_id) => match found {
                None => Err(AppErrorView::NotFound("Part not found: "@ + part)),
                Some(owner_id) => if owner_id != user_id {
                    Err(AppErrorView::Unauthorized("You do not own this part."@))
                } else {
                    Ok(())
                },
            },
        },
    }
}

/// Whether the holder of `claims` owns the part `id`.
pub open spec fn owner_outcome(
    claims: ClaimsView,
    owner: Result<Option<u128>, DbError>,
    id: u128,
) -> Result<(), AppErrorView> {
    ownership_outcome(uuid_parse(claims.sub), owner, uuid_text(id))
}

/// Whether the holder of `claims` may change the part `id`: an
/// administrator always, anybody else as its owner.
pub open spec fn access_outcome(
    claims: ClaimsView,
    owner: Result<Option<u128>, DbError>,
    id: u128,
) -> Result<(), AppErrorView> {
    if claims.role.is_admin() {
        Ok(())
    } else {
        owner_outcome(claims, owner, id)
    }
}

/// Decides on plain values whether `subject` may change the part `part`.
pub fn ownership_verdict(
    subject: Option<u128>,
    owner: Result<Option<u128>, DbError>,
    part: &str,
) -> (result: Result<(), AppError>)
    ensures
        result_view(result) == ownership_outcome(subject, owner, part@),
{
    let part_owner = match owner {
        Ok(found) => found,
        Err(_) => {
            return Err(AppError::DatabaseError("Ownership check failed".to_owned()));
        },
    };
    let user_id = match subject {
        Some(user_id) => user_id,
        None => {
            return Err(AppError::InternalError("Invalid UUID in claims".to_owned()));
        },
    };
    match part_owner {
        Some(owner_id) => {
            if owner_id != user_id {
                Err(AppError::Unauthorized("You do not own this part.".to_owned()))
            } else {
                Ok(())
            }
        },
        None => Err(AppError::NotFound("Part not found: ".to_owned().concat(part))),
    }
}

/// Whether the store has to be asked for the owner of a part before the
/// holder of `claims` may change it.
pub fn needs_owner_lookup(claims: &Claims) -> (needed: bool)
    ensures
        needed == !claims@.role.is_admin(),
{
    !claims.role.is_admin()
}

/// Lets the holder of `claims` through if they created the part `id`.
///
/// `owner` is what the store answered when asked for the creator of the
/// part: `Ok(None)` where there is no such part.
pub fn ensure_part_owner(claims: Claims, owner: Result<Option<u128>, DbError>, id: u128) -> (result:
    Result<(), AppError>)
    ensures
        result_view(result) == owner_outcome(claims@, owner, id),
{
    let part = format_uuid(id);
    ownership_verdict(parse_uuid(claims.sub.as_str()), owner, part.as_str())
}

/// Lets the holder of `claims` through if they are an administrator or
/// created the part `id`.
///
/// For an administrator `owner` is not looked at.
pub fn ensure_admin_or_owner(claims: Claims, owner: Result<Option<u128>, DbError>, id: u128) -> (result:
    Result<(), AppError>)
    ensures
        result_view(result) == access_outcome(claims@, owner, id),
{
    if claims.role.is_admin() {
        Ok(())
    } else {
        ensure_part_owner(claims, owner, id)
    }
}

/// The ownership check. Let account `a` own a part and let `b` be another
/// account that is no administrator. Then the owner is let through, `b` is
/// turned away as unauthorized, and an administrator is let through whatever
/// the store says, even if it fails. An owner who is no administrator and
/// asks for a part that does not exist is told so.
pub proof fn lemma_ownership_check(
    owner_claims: ClaimsView,
    other_claims: ClaimsView,
    admin_claims: ClaimsView,
    a: u128,
    b: u128,
    part: u128,
    unknown_part: u128,
)
    requires
        uuid_parse(owner_claims.sub) == Some(a),
        uuid_parse(other_claims.sub) == Some(b),
        a != b,
        !other_claims.role.is_admin(),
        admin_claims.role.is_admin(),
    ensures
        access_outcome(owner_claims, Ok(Some(a)), part) == Ok::<(), AppErrorView>(()),
        access_outcome(other_claims, Ok(Some(a)), part) == Err::<(), _>(
            AppErrorView::Unauthorized("You do not own this part."@),
        ),
        forall|owner: Result<Option<u128>, DbError>| #[trigger]
            access_outcome(admin_claims, owner, part) == Ok::<(), AppErrorView>(()),
        !owner_claims.role.is_admin() ==> access_outcome(owner_claims, Ok(None), unknown_part)
            == Err::<(), _>(AppErrorView::NotFound("Part not found: "@ + uuid_text(unknown_part))),
{
}

/// The claims issued to an account at login let it change the parts that it
/// created, whatever its role.
pub proof fn lemma_login_opens_own_parts(user: UserView, now: u64, part: u128)
    requires
        uuid_parse(claims_for(user, now).sub) == Some(user.id),
    ensures
        access_outcome(claims_for(user, now), Ok(Some(user.id)), part) == Ok::<(), AppErrorView>(
            (),
        ),
{
}

/// Nobody but an administrator passes the check without being the owner:
/// whoever is let through is an administrator, or the store named an owner
/// and the subject of the claims is that owner.
pub proof fn lemma_access_needs_admin_or_owner(
    claims: ClaimsView,
    owner: Result<Option<u128>, DbError>,
    id: u128,
)
    requires
        access_outcome(claims, owner, id) is Ok,
    ensures
        claims.role.is_admin() || (owner matches Ok(Some(owner_id)) && uuid_parse(claims.sub)
            == Some(owner_id)),
{
}

} // verus!
