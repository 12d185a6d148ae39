//! Hashing a password for storage and checking an attempt against the
//! stored hash. The hashing itself is Argon2, from the `argon2` crate.

use vstd::prelude::*;
use vstd::utf8::encode_utf8;
use crate::errors::app_error::{AppError, AppErrorView, result_view};
use crate::text::opt_view;

verus! {

/// What checking a password against a stored hash can find.
#[derive(Debug, Clone, Copy, PartialEq, Eq, Structural)]
pub enum PasswordCheck {
    /// The password is the one that was hashed.
    Match,
    /// The stored hash is well formed and belongs to another password.
    Mismatch,
    /// The stored text is no password hash.
    Malformed,
}

/// What the `argon2` crate finds when it checks `password` against
/// `stored`: `Malformed` where `PasswordHash::new` rejects `stored`,
/// otherwise what `Argon2::default().verify_password` decides.
pub uninterp spec fn argon2_check(password: Seq<char>, stored: Seq<char>) -> PasswordCheck;

/// The longest password that Argon2 takes, in bytes.
pub const MAX_PASSWORD_BYTES: usize = 0xFFFF_FFFF;

/// Whether a password can be hashed: its UTF-8 form must not be longer than
/// Argon2 allows.
pub open spec fn hashable(password: Seq<char>) -> bool {
    encode_utf8(password).len() <= MAX_PASSWORD_BYTES
}

/// Draws a salt of `Salt::RECOMMENDED_LENGTH` bytes from the operating
/// system with `OsRng::try_fill_bytes`, writes it down with
/// `SaltString::encode_b64`, hashes `password` under it with
/// `Argon2::default().hash_password` and prints the hash as a PHC string;
/// `None` where any of these reports an error.
///
/// Trusted, of every outcome:
/// - A password longer than `argon2::MAX_PWD_LEN` bytes is not hashed: the
///   crate refuses it in `verify_inputs`.
/// - A hash that comes out verifies against the password that went in, as
///   the crate's documentation shows.
///
/// The salt is random, and the operating system may fail to give one, so
/// nothing is said of the text and no hash is promised.
#[verifier::external_body]
fn argon2_hash(password: &str) -> (hash: Option<String>)
    ensures
        hash matches Some(h) ==> hashable(password@) && argon2_check(password@, h@)
            == PasswordCheck::Match,
        !hashable(password@) ==> hash is None,
{
    let mut bytes = [0u8; argon2::password_hash::Salt::RECOMMENDED_LENGTH];
    let mut rng = argon2::password_hash::rand_core::OsRng;
    argon2::password_hash::rand_core::RngCore::try_fill_bytes(&mut rng, &mut bytes).ok()?;
    let salt = argon2::password_hash::SaltString::encode_b64(&bytes).ok()?;
    let hasher = argon2::Argon2::default();
    match argon2::PasswordHasher::hash_password(&hasher, password.as_bytes(), &salt) {
        Ok(hash) => Some(hash.to_string()),
        Err(_) => None,
    }
}

/// Parses `stored` with `PasswordHash::new` and checks `password` against
/// it with `Argon2::default().verify_password`, which recomputes the hash
/// under the parameters and salt that `stored` holds.
///
/// Trusted: the result is the named value `argon2_check`.
#[verifier::external_body]
fn argon2_verify(password: &str, stored: &str) -> (check: PasswordCheck)
    ensures
        check == argon2_check(password@, stored@),
{
    match argon2::PasswordHash::new(stored) {
        Err(_) => PasswordCheck::Malformed,
        Ok(parsed) => match argon2::PasswordVerifier::verify_password(
            &argon2::Argon2::default(),
            password.as_bytes(),
            &parsed,
        ) {
            Ok(()) => PasswordCheck::Match,
            Err(_) => PasswordCheck::Mismatch,
        },
    }
}

/// What the caller of `hash_password` gets for each outcome of the hashing.
pub open spec fn hash_outcome(hash: Option<Seq<char>>) -> Result<Seq<char>, AppErrorView> {
    match hash {
        Some(h) => Ok(h),
        None => Err(AppErrorView::InternalError("Signup failed: hash the password."@)),
    }
}

/// What the caller of `verify_password` gets for each finding: a wrong
/// password is the caller's fault, a corrupt stored hash is the service's.
pub open spec fn check_outcome(check: PasswordCheck) -> Result<(), AppErrorView> {
    match check {
        PasswordCheck::Match => Ok(()),
        PasswordCheck::Mismatch => Err(AppErrorView::Unauthorized("Invalid login credentials."@)),
        PasswordCheck::Malformed => Err(AppErrorView::InternalError("Password hash parse error"@)),
    }
}

/// Reports a failed hashing as an internal error.
pub fn hashed_or_error(hash: Option<String>) -> (result: Result<String, AppError>)
    ensures
        result_view(result) == hash_outcome(opt_view(hash)),
{
    match hash {
        Some(h) => Ok(h),
        None => Err(AppError::InternalError("Signup failed: hash the password.".to_owned())),
    }
}

/// Reports what a password check found.
pub fn password_verdict(check: PasswordCheck) -> (result: Result<(), AppError>)
    ensures
        result_view(result) == check_outcome(check),
{
    match check {
        PasswordCheck::Match => Ok(()),
        PasswordCheck::Mismatch => Err(
            AppError::Unauthorized("Invalid login credentials.".to_owned()),
        ),
        PasswordCheck::Malformed => Err(
            AppError::InternalError("Password hash parse error".to_owned()),
        ),
    }
}

/// Hashes a password for storage, under a fresh random salt.
///
/// A hash that is returned verifies against the password. A password of
/// more than `MAX_PASSWORD_BYTES` bytes is refused. Whether a shorter one
/// is hashed is up to the hasher and to the operating system, which has to
/// give the salt; every failure is reported as the same internal error.
pub fn hash_password(password: &str) -> (result: Result<String, AppError>)
    ensures
        result matches Ok(h) ==> hashable(password@) && argon2_check(password@, h@)
            == PasswordCheck::Match,
        result matches Err(e) ==> e@ == AppErrorView::InternalError(
            "Signup failed: hash the password."@,
        ),
        !hashable(password@) ==> result is Err,
{
    hashed_or_error(argon2_hash(password))
}

/// Checks a password against a stored hash.
pub fn verify_password(password: &str, hashed: &str) -> (result: Result<(), AppError>)
    ensures
        result_view(result) == check_outcome(argon2_check(password@, hashed@)),
{
    password_verdict(argon2_verify(password, hashed))
}

/// A password verifies against every hash that `hash_password` made of it.
pub proof fn lemma_hash_round_trip(password: Seq<char>, hash: Seq<char>)
    requires
        argon2_check(password, hash) == PasswordCheck::Match,
    ensures
        check_outcome(argon2_check(password, hash)) == Ok::<(), AppErrorView>(()),
{
}

/// A password that the stored hash does not belong to is refused as
/// unauthorized, with the same message whatever the password was. Whether
/// two passwords can share a hash is a matter of Argon2 and is not claimed
/// here.
pub proof fn lemma_mismatch_is_unauthorized(password: Seq<char>, hash: Seq<char>)
    requires
        argon2_check(password, hash) == PasswordCheck::Mismatch,
    ensures
        check_outcome(argon2_check(password, hash)) == Err::<(), _>(
            AppErrorView::Unauthorized("Invalid login credentials."@),
        ),
{
}

} // verus!
