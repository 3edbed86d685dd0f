//! Accounts: the rules for registering and for logging in. Passwords are
//! hashed and checked with bcrypt.

use vstd::prelude::*;
use vstd::utf8::encode_utf8;
use crate::error::AppError;
use crate::models::{LoginPayload, RegisterUserPayload, User};
use crate::store::StoreFailure;

verus! {

/// The least number of bytes a password must have.
pub const MIN_PASSWORD_BYTES: usize = 8;

/// The work factor passwords are hashed with.
pub const HASH_COST: u32 = 12;

/// Whether bcrypt finds that `password` belongs to `hash`: `None` where
/// `hash` is no bcrypt hash at all.
pub uninterp spec fn bcrypt_verdict(password: Seq<char>, hash: Seq<char>) -> Option<bool>;

/// `bcrypt::hash`: a bcrypt hash of the password under a salt drawn at
/// random, so that two calls differ; `None` where the system gave no
/// random bytes or the cost is out of bcrypt's range. Which hash comes
/// back is not told, only that it is one of this password:
/// `bcrypt::verify` reads cost and salt out of the hash, hashes the
/// password again with them and finds the same.
#[verifier::external_body]
fn bcrypt_hash(password: &str, cost: u32) -> (hash: Option<String>)
    ensures
        hash matches Some(text) ==> bcrypt_verdict(password@, text@) == Some(true),
{
    bcrypt::hash(password, cost).ok()
}

/// `bcrypt::verify`: whether the password, hashed with the cost and salt
/// that `hash` names, gives `hash`. An error, which bcrypt returns for a
/// text that is no bcrypt hash, is mapped to `None`.
#[verifier::external_body]
fn bcrypt_verify(password: &str, hash: &str) -> (verdict: Option<bool>)
    ensures
        verdict == bcrypt_verdict(password@, hash@),
{
    bcrypt::verify(password, hash).ok()
}

/// The length of a text in bytes, as the machine counts it.
pub open spec fn byte_len(text: Seq<char>) -> usize {
    encode_utf8(text).len() as usize
}

/// What a registration with a password too short is told.
pub open spec fn short_password_text() -> Seq<char> {
    "Password must be at least 8 characters long."@
}

/// Whether a password is long enough to register with.
pub open spec fn acceptable_password(password: Seq<char>) -> bool {
    byte_len(password) >= MIN_PASSWORD_BYTES
}

/// Checks a registration before anything is hashed or stored: the
/// password must have at least `MIN_PASSWORD_BYTES` bytes.
pub fn validate_registration(payload: &RegisterUserPayload) -> (outcome: Result<(), AppError>)
    ensures
        acceptable_password(payload.password@) <==> outcome is Ok,
        outcome matches Err(error) ==> (error matches AppError::InvalidInput(text) && text@
            == short_password_text()),
{
    if payload.password.as_str().len() < MIN_PASSWORD_BYTES {
        Err(AppError::InvalidInput(String::from_str("Password must be at least 8 characters long.")))
    } else {
        Ok(())
    }
}

/// The row of a user about to be stored.
#[derive(Debug, PartialEq, Eq)]
pub struct NewUser {
    pub username: String,
    pub password_hash: String,
}

/// What hashing made of a registration.
pub fn hashed_registration(username: String, hash: Option<String>) -> (outcome: Result<NewUser, AppError>)
    ensures
        hash matches Some(text) ==> (outcome matches Ok(row) && row.username == username
            && row.password_hash == text),
        hash is None ==> (outcome matches Err(error) && error == AppError::PasswordHashError),
{
    match hash {
        Some(password_hash) => Ok(NewUser { username, password_hash }),
        None => Err(AppError::PasswordHashError),
    }
}

/// Turns a registration into the row to store: the password is checked
/// and then hashed. A password too short is refused before it is hashed.
/// The row keeps the name as it was given and a hash that the password
/// verifies against; where the hashing itself fails, the registration
/// ends with that failure.
pub fn prepare_registration(payload: RegisterUserPayload) -> (outcome: Result<NewUser, AppError>)
    ensures
        !acceptable_password(payload.password@) ==> (outcome matches Err(
            AppError::InvalidInput(text),
        ) && text@ == short_password_text()),
        acceptable_password(payload.password@) ==> (outcome matches Ok(row) && row.username
            == payload.username && bcrypt_verdict(payload.password@, row.password_hash@) == Some(
            true,
        )) || (outcome matches Err(error) && error == AppError::PasswordHashError),
{
    match validate_registration(&payload) {
        Err(error) => Err(error),
        Ok(()) => {
            let hash = bcrypt_hash(payload.password.as_str(), HASH_COST);
            hashed_registration(payload.username, hash)
        },
    }
}

/// How a registration ends when the store refuses the new user: a name
/// that is taken is told apart from other refusals.
pub open spec fn registration_refusal(failure: StoreFailure) -> AppError {
    match failure {
        StoreFailure::UniqueViolation => AppError::UsernameExists,
        _ => AppError::DatabaseError,
    }
}

/// How a registration ends when the store refuses the new user.
pub fn refused_registration(failure: StoreFailure) -> (error: AppError)
    ensures
        error == registration_refusal(failure),
{
    match failure {
        StoreFailure::UniqueViolation => AppError::UsernameExists,
        _ => AppError::DatabaseError,
    }
}

/// Whether a login is let through: there is such a user, and bcrypt finds
/// that the password belongs to the stored hash.
pub open spec fn credentials_hold(password: Seq<char>, user: Option<User>) -> bool {
    user matches Some(found) && bcrypt_verdict(password, found.password_hash@) == Some(true)
}

/// Who has registered can log in: a login with the password of a
/// registration is let through when the store holds a user with the hash
/// that the registration stored.
pub proof fn lemma_registered_password_logs_in(password: Seq<char>, row: NewUser, user: User)
    requires
        bcrypt_verdict(password, row.password_hash@) == Some(true),
        user.password_hash@ == row.password_hash@,
    ensures
        credentials_hold(password, Some(user)),
{
}

/// What the check of a password against a stored hash amounts to: only a
/// plain yes counts.
pub fn password_accepted(verdict: Option<bool>) -> (yes: bool)
    ensures
        yes == (verdict == Some(true)),
{
    match verdict {
        Some(matches) => matches,
        None => false,
    }
}

/// Checks a login against the user that the store holds under the name,
/// if any. An unknown name and a wrong password are refused alike.
pub fn check_credentials(payload: &LoginPayload, user: Option<User>) -> (outcome: Result<User, AppError>)
    ensures
        credentials_hold(payload.password@, user) ==> outcome == Ok::<User, AppError>(user->0),
        !credentials_hold(payload.password@, user) ==> outcome == Err::<User, AppError>(
            AppError::WrongCredentials,
        ),
{
    match user {
        None => Err(AppError::WrongCredentials),
        Some(found) => {
            let verdict = bcrypt_verify(payload.password.as_str(), found.password_hash.as_str());
            if password_accepted(verdict) {
                Ok(found)
            } else {
                Err(AppError::WrongCredentials)
            }
        },
    }
}

} // verus!
