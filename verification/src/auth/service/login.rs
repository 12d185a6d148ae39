//! Logging in.

use vstd::prelude::*;
use crate::auth::domain::{
    Claims,
    ClaimsView,
    LoginRequest,
    LoginResponse,
    Role,
    RoleView,
    TOKEN_TTL_SECS,
    lemma_known_names_differ,
    lemma_name_of_role,
    role_of_name,
};
use crate::auth::jwt::{
    TokenError,
    authenticate_outcome,
    generate_jwt,
    hs256_claims,
    issue_outcome,
    opt_bytes_view,
    signing_outcome,
    token_or_error,
    unix_now,
};
use crate::auth::password::{argon2_check, check_outcome, verify_password};
use crate::errors::app_error::{AppError, AppErrorView, result_view};
use crate::ids::{format_uuid, uuid_parse, uuid_text};
use crate::models::user::{User, UserView};
use crate::store::DbError;

verus! {

/// The model of what the store answered when asked for an account.
pub open spec fn found_view(found: Result<Option<User>, DbError>) -> Result<
    Option<UserView>,
    DbError,
> {
    match found {
        Ok(Some(user)) => Ok(Some(user@)),
        Ok(None) => Ok(None),
        Err(error) => Err(error),
    }
}

/// The claims of a token issued to `user` at the second `now`: the account,
/// its role, and an expiry one hour ahead.
pub open spec fn claims_for(user: UserView, now: u64) -> ClaimsView {
    ClaimsView {
        sub: uuid_text(user.id),
        role: role_of_name(user.role),
        exp: (now + TOKEN_TTL_SECS) as u64,
    }
}

/// The token that a login at the second `now` returns, or why it returns
/// none.
///
/// A failing store is reported as such. An unknown login name is reported as
/// not found. Then the password is checked. Then the token is issued; if the
/// clock is so far ahead that the expiry cannot be written down, no token is
/// issued.
pub open spec fn login_outcome(
    found: Result<Option<UserView>, DbError>,
    password: Seq<char>,
    secret: Option<Seq<u8>>,
    now: u64,
) -> Result<Seq<char>, AppErrorView> {
    match found {
        Err(_) => Err(AppErrorView::DatabaseError("Login failed: fetch user"@)),
        Ok(None) => Err(AppErrorView::NotFound("User not found"@)),
        Ok(Some(user)) => match check_outcome(argon2_check(password, user.password_hash)) {
            Err(error) => Err(error),
            Ok(()) => if now + TOKEN_TTL_SECS > u64::MAX {
                signing_outcome(None)
            } else {
                issue_outcome(claims_for(user, now), secret)
            },
        },
    }
}

/// What a token that was issued to `user` at the second `now` is: it holds
/// the account's identifier, the name of its role and an expiry one hour
/// ahead; its subject is read back as the account's identifier; it
/// authenticates its bearer as that account at every second of that hour and
/// is expired from then on.
pub open spec fn is_token_for(token: Seq<char>, user: UserView, secret: Seq<u8>, now: u64) -> bool {
    &&& uuid_parse(claims_for(user, now).sub) == Some(user.id)
    &&& hs256_claims(token, secret) == Some(
        (uuid_text(user.id), user.role, (now + TOKEN_TTL_SECS) as u64),
    )
    &&& forall|then: u64|
        then >= now + TOKEN_TTL_SECS ==> #[trigger] authenticate_outcome(
            Some("Bearer "@ + token),
            secret,
            then,
        ) == Err::<ClaimsView, _>(TokenError::Expired)
    &&& forall|then: u64|
        then < now + TOKEN_TTL_SECS ==> #[trigger] authenticate_outcome(
            Some("Bearer "@ + token),
            secret,
            then,
        ) == Ok::<_, TokenError>(claims_for(user, now))
}

/// The token that a login returns, or why it returns none, given what the
/// clock read. Without a reading the login goes as far as the password
/// check and then issues no token.
pub open spec fn login_outcome_at(
    found: Result<Option<UserView>, DbError>,
    password: Seq<char>,
    secret: Option<Seq<u8>>,
    clock: Option<u64>,
) -> Result<Seq<char>, AppErrorView> {
    match clock {
        Some(now) => login_outcome(found, password, secret, now),
        None => match found {
            Err(_) => Err(AppErrorView::DatabaseError("Login failed: fetch user"@)),
            Ok(None) => Err(AppErrorView::NotFound("User not found"@)),
            Ok(Some(user)) => match check_outcome(argon2_check(password, user.password_hash)) {
                Err(error) => Err(error),
                Ok(()) => signing_outcome(None),
            },
        },
    }
}

/// What a login returned, given what the clock read: the outcome for that
/// reading, and a token only if the clock was read, which is then the token
/// for the account at that second.
pub open spec fn is_login_at(
    result: Result<LoginResponse, AppError>,
    found: Result<Option<User>, DbError>,
    password: Seq<char>,
    secret: Option<&[u8]>,
    clock: Option<u64>,
) -> bool {
    &&& result_view(result) == login_outcome_at(
        found_view(found),
        password,
        opt_bytes_view(secret),
        clock,
    )
    &&& result matches Ok(response) ==> clock is Some && is_token_for(
        response.token@,
        found.unwrap().unwrap()@,
        secret.unwrap()@,
        clock.unwrap(),
    )
}

/// Checks who logs in: the account, if the store knows the login name and
/// the password is the account's.
fn checked_user(found: Result<Option<User>, DbError>, payload: &LoginRequest) -> (result: Result<
    User,
    AppError,
>)
    ensures
        match found_view(found) {
            Err(_) => result matches Err(e) && e@ == AppErrorView::DatabaseError(
                "Login failed: fetch user"@,
            ),
            Ok(None) => result matches Err(e) && e@ == AppErrorView::NotFound("User not found"@),
            Ok(Some(user)) => match check_outcome(
                argon2_check(payload.password@, user.password_hash),
            ) {
                Err(error) => result matches Err(e) && e@ == error,
                Ok(()) => result matches Ok(u) && Ok::<_, DbError>(Some(u)) == found,
            },
        },
{
    let user = match found {
        Err(_) => {
            return Err(AppError::DatabaseError("Login failed: fetch user".to_owned()));
        },
        Ok(None) => {
            return Err(AppError::NotFound("User not found".to_owned()));
        },
        Ok(Some(user)) => user,
    };
    verify_password(payload.password.as_str(), user.password_hash.as_str())?;
    Ok(user)
}

/// Logs a user in, given what the clock read.
///
/// `found` is what the store answered when asked for the account named
/// `payload.login_name`. A failing store, an unknown name and a wrong
/// password are reported first. Then, without a reading of the clock, no
/// token is issued; with one, the login is that of `login_at`.
pub fn login_by_clock(
    found: Result<Option<User>, DbError>,
    payload: &LoginRequest,
    secret: Option<&[u8]>,
    clock: Option<u64>,
) -> (result: Result<LoginResponse, AppError>)
    ensures
        is_login_at(result, found, payload.password@, secret, clock),
{
    let user = checked_user(found, payload)?;
    let expiration = match clock {
        Some(now) => now.checked_add(TOKEN_TTL_SECS),
        None => None,
    };
    let expiration = match expiration {
        Some(expiration) => expiration,
        None => {
            return match token_or_error(None) {
                Ok(token) => Ok(LoginResponse { token }),
                Err(error) => Err(error),
            };
        },
    };
    let claims = Claims {
        sub: format_uuid(user.id),
        role: Role::from_name(user.role.as_str()),
        exp: expiration,
    };
    proof {
        lemma_name_of_role(user.role@);
    }
    let token = generate_jwt(claims, secret)?;
    Ok(LoginResponse { token })
}

/// Logs a user in at the second `now`.
///
/// `found` is what the store answered when asked for the account named
/// `payload.login_name`. A token that is returned is the token for the
/// account at that second; see `is_token_for`.
pub fn login_at(
    found: Result<Option<User>, DbError>,
    payload: &LoginRequest,
    secret: Option<&[u8]>,
    now: u64,
) -> (result: Result<LoginResponse, AppError>)
    ensures
        result_view(result) == login_outcome(
            found_view(found),
            payload.password@,
            opt_bytes_view(secret),
            now,
        ),
        result matches Ok(response) ==> is_token_for(
            response.token@,
            found.unwrap().unwrap()@,
            secret.unwrap()@,
            now,
        ),
{
    login_by_clock(found, payload, secret, Some(now))
}

/// Logs a user in now: reads the clock once and does what `login_by_clock`
/// does on what it read.
///
/// A token that is returned is the token for the account at the second that
/// the clock read.
pub fn login(found: Result<Option<User>, DbError>, payload: &LoginRequest, secret: Option<&[u8]>) -> (result:
    Result<LoginResponse, AppError>)
    ensures
        exists|clock: Option<u64>| #[trigger]
            is_login_at(result, found, payload.password@, secret, clock),
        result matches Ok(response) ==> exists|now: u64| #[trigger]
            is_token_for(response.token@, found.unwrap().unwrap()@, secret.unwrap()@, now),
{
    let clock = unix_now();
    let result = login_by_clock(found, payload, secret, clock);
    proof {
        if result is Ok {
            assert(is_token_for(
                result.unwrap().token@,
                found.unwrap().unwrap()@,
                secret.unwrap()@,
                clock.unwrap(),
            ));
        }
    }
    result
}

/// An account opened by signup logs in as a plain user: its role is stored
/// as `"user"`, and the claims issued for it are not privileged.
pub proof fn lemma_signed_up_account_is_not_privileged(user: UserView, now: u64)
    requires
        user.role == "user"@,
    ensures
        claims_for(user, now).role == RoleView::User,
        !claims_for(user, now).role.is_admin(),
{
    lemma_known_names_differ();
}

} // verus!
