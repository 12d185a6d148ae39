//! Opening an account.

use vstd::prelude::*;
use crate::auth::domain::{SignupRequest, SignupResponse};
use crate::auth::service::user_create::{
    TakenPolicy,
    check_insert,
    check_name,
    insert_outcome,
    is_prepared,
    name_outcome,
    prepare_account,
};
use crate::errors::app_error::{AppError, AppErrorView, result_view};
use crate::models::user::NewUser;
use crate::store::{DbError, InsertError};

verus! {

/// Prepares the account that `payload` asks for.
///
/// `taken` is the store's answer to "is this login name taken?". A taken
/// name is a conflict. Under a free name the password is hashed and the
/// account is built by `account_from`: the account to store, or the failure
/// of the hashing. An account opened this way is never privileged: its role
/// is `"user"`.
pub fn signup(taken: Result<bool, DbError>, payload: &SignupRequest) -> (result: Result<
    NewUser,
    AppError,
>)
    ensures
        match name_outcome(taken, TakenPolicy::Reject) {
            Err(error) => result matches Err(e) && e@ == error,
            Ok(_) => is_prepared(result, payload.login_name@, payload.password@, "user"@),
        },
{
    let _ = check_name(taken, TakenPolicy::Reject)?;
    prepare_account(payload.login_name.as_str(), payload.password.as_str(), "user")
}

/// What the new user is told, given how the insertion of the account ended.
pub open spec fn signup_reply(inserted: Result<(), InsertError>, login_name: Seq<char>) -> Result<
    Seq<char>,
    AppErrorView,
> {
    match insert_outcome(inserted, TakenPolicy::Reject) {
        Ok(()) => Ok(login_name),
        Err(error) => Err(error),
    }
}

/// Answers the signup once the store has been asked to insert the account.
pub fn signed_up(inserted: Result<(), InsertError>, payload: SignupRequest) -> (result: Result<
    SignupResponse,
    AppError,
>)
    ensures
        result_view(result) == signup_reply(inserted, payload.login_name@),
{
    check_insert(inserted, TakenPolicy::Reject)?;
    Ok(SignupResponse { login_name: payload.login_name })
}

} // verus!
