//! Creating an account with a given role.

use vstd::prelude::*;
use crate::auth::password::{PasswordCheck, argon2_check, hash_password, hashable};
use crate::errors::app_error::{AppError, AppErrorView, result_view};
use crate::models::user::{NewUser, NewUserView};
use crate::store::{DbError, InsertError};

verus! {

/// What to do about a request for an account, given whether the login name
/// is taken.
#[derive(Debug, Clone, Copy, PartialEq, Eq, Structural)]
pub enum NameCheck {
    /// The name is free: hash the password and store the account.
    Proceed,
    /// The name is taken and that is fine: nothing is stored.
    Skip,
}

/// What a taken login name means: for a signup it is a conflict, for the
/// provisioning of a built-in account it means that the work is done.
#[derive(Debug, Clone, Copy, PartialEq, Eq, Structural)]
pub enum TakenPolicy {
    Reject,
    Ignore,
}

/// What follows from the store's answer to "is this login name taken?".
pub open spec fn name_outcome(taken: Result<bool, DbError>, policy: TakenPolicy) -> Result<
    NameCheck,
    AppErrorView,
> {
    match taken {
        Err(_) => Err(
            AppErrorView::DatabaseError("Signup failed: query user from the database."@),
        ),
        Ok(true) => match policy {
            TakenPolicy::Reject => Err(
                AppErrorView::Conflict("This login name is already taken."@),
            ),
            TakenPolicy::Ignore => Ok(NameCheck::Skip),
        },
        Ok(false) => Ok(NameCheck::Proceed),
    }
}

/// What follows from the store's answer to the insertion of an account.
/// The store keeps login names unique; where it refuses a second account
/// under one name, the policy for taken names applies.
pub open spec fn insert_outcome(inserted: Result<(), InsertError>, policy: TakenPolicy) -> Result<
    (),
    AppErrorView,
> {
    match inserted {
        Ok(()) => Ok(()),
        Err(InsertError::Duplicate) => match policy {
            TakenPolicy::Reject => Err(
                AppErrorView::Conflict("This login name is already taken."@),
            ),
            TakenPolicy::Ignore => Ok(()),
        },
        Err(InsertError::Other) => Err(
            AppErrorView::DatabaseError("Signup failed: create user account."@),
        ),
    }
}

/// The model of what a name check returned.
pub open spec fn name_result_view(result: Result<NameCheck, AppError>) -> Result<
    NameCheck,
    AppErrorView,
> {
    match result {
        Ok(check) => Ok(check),
        Err(error) => Err(error@),
    }
}

/// Decides what to do about a request for an account.
pub fn check_name(taken: Result<bool, DbError>, policy: TakenPolicy) -> (result: Result<
    NameCheck,
    AppError,
>)
    ensures
        name_result_view(result) == name_outcome(taken, policy),
{
    match taken {
        Err(_) => Err(
            AppError::DatabaseError("Signup failed: query user from the database.".to_owned()),
        ),
        Ok(true) => match policy {
            TakenPolicy::Reject => Err(
                AppError::Conflict("This login name is already taken.".to_owned()),
            ),
            TakenPolicy::Ignore => Ok(NameCheck::Skip),
        },
        Ok(false) => Ok(NameCheck::Proceed),
    }
}

/// Reports how the insertion of an account ended.
pub fn check_insert(inserted: Result<(), InsertError>, policy: TakenPolicy) -> (result: Result<
    (),
    AppError,
>)
    ensures
        result_view(result) == insert_outcome(inserted, policy),
{
    match inserted {
        Ok(()) => Ok(()),
        Err(InsertError::Duplicate) => match policy {
            TakenPolicy::Reject => Err(
                AppError::Conflict("This login name is already taken.".to_owned()),
            ),
            TakenPolicy::Ignore => Ok(()),
        },
        Err(InsertError::Other) => Err(
            AppError::DatabaseError("Signup failed: create user account.".to_owned()),
        ),
    }
}

/// Whether `account` is the account to store for the given request: the
/// name and the role as asked, and a hash that verifies against the
/// password.
pub open spec fn is_account_for(
    account: NewUser,
    login_name: Seq<char>,
    password: Seq<char>,
    role: Seq<char>,
) -> bool {
    &&& account.login_name@ == login_name
    &&& account.role@ == role
    &&& argon2_check(password, account.password_hash@) == PasswordCheck::Match
}

/// The model of what the preparing of an account returned.
pub open spec fn account_result_view(result: Result<NewUser, AppError>) -> Result<
    NewUserView,
    AppErrorView,
> {
    match result {
        Ok(account) => Ok(account@),
        Err(error) => Err(error@),
    }
}

/// The account to store for each outcome of the hashing: the name and the
/// role as asked together with the hash, or the failure of the hashing.
pub open spec fn account_outcome(
    hashed: Result<Seq<char>, AppErrorView>,
    login_name: Seq<char>,
    role: Seq<char>,
) -> Result<NewUserView, AppErrorView> {
    match hashed {
        Ok(hash) => Ok(NewUserView { login_name, password_hash: hash, role }),
        Err(error) => Err(error),
    }
}

/// Builds the account to store from the outcome of the hashing.
pub fn account_from(hashed: Result<String, AppError>, login_name: &str, role: &str) -> (result:
    Result<NewUser, AppError>)
    ensures
        account_result_view(result) == account_outcome(result_view(hashed), login_name@, role@),
{
    match hashed {
        Ok(hash) => Ok(
            NewUser { login_name: login_name.to_owned(), password_hash: hash, role: role.to_owned() },
        ),
        Err(error) => Err(error),
    }
}

/// What the preparing of an account comes to once the name is known to be
/// free: the account for the request, or the failure of the hashing. A
/// password that is too long to be hashed always fails.
pub open spec fn is_prepared(
    result: Result<NewUser, AppError>,
    login_name: Seq<char>,
    password: Seq<char>,
    role: Seq<char>,
) -> bool {
    match result {
        Ok(account) => hashable(password) && is_account_for(account, login_name, password, role),
        Err(e) => e@ == AppErrorView::InternalError("Signup failed: hash the password."@),
    }
}

/// Hashes the password and builds the account to store.
pub fn prepare_account(login_name: &str, password: &str, role: &str) -> (result: Result<
    NewUser,
    AppError,
>)
    ensures
        is_prepared(result, login_name@, password@, role@),
{
    account_from(hash_password(password), login_name, role)
}

/// Prepares the account `login_name` with the role `role`, for the trusted
/// path that provisions built-in accounts.
///
/// `taken` is the store's answer to "is this login name taken?". If it is,
/// there is nothing to do and `None` is returned. If it is free, the
/// password is hashed and the account is built by `account_from`: the
/// account to store, or the failure of the hashing.
pub fn create_user_with_role(
    taken: Result<bool, DbError>,
    login_name: &str,
    password: &str,
    role: &str,
) -> (result: Result<Option<NewUser>, AppError>)
    ensures
        match name_outcome(taken, TakenPolicy::Ignore) {
            Err(error) => result matches Err(e) && e@ == error,
            Ok(NameCheck::Skip) => result matches Ok(None),
            Ok(NameCheck::Proceed) => match result {
                Ok(Some(account)) => hashable(password@) && is_account_for(
                    account,
                    login_name@,
                    password@,
                    role@,
                ),
                Ok(None) => false,
                Err(e) => e@ == AppErrorView::InternalError("Signup failed: hash the password."@),
            },
        },
{
    match check_name(taken, TakenPolicy::Ignore)? {
        NameCheck::Skip => Ok(None),
        NameCheck::Proceed => match prepare_account(login_name, password, role) {
            Ok(account) => Ok(Some(account)),
            Err(error) => Err(error),
        },
    }
}

/// Reports how the storing of a built-in account ended. An account that
/// somebody else stored in the meantime is as good as one's own.
pub fn user_created(inserted: Result<(), InsertError>) -> (result: Result<(), AppError>)
    ensures
        result_view(result) == insert_outcome(inserted, TakenPolicy::Ignore),
{
    check_insert(inserted, TakenPolicy::Ignore)
}

} // verus!
