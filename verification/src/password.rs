use vstd::prelude::*;

use crate::error::{AppError, ErrorView};

verus! {

#[verifier::external_type_specification]
#[verifier::external_body]
pub struct ExBcryptError(bcrypt::BcryptError);

/// What `bcrypt::verify` answers for a password and a stored hash:
/// `Some(matches)`, or `None` where it fails (a malformed hash, for one).
pub uninterp spec fn bcrypt_verify_outcome(password: Seq<char>, hash: Seq<char>) -> Option<bool>;

/// True when the stored hash accepts the password.
pub open spec fn password_matches(password: Seq<char>, hash: Seq<char>) -> bool {
    bcrypt_verify_outcome(password, hash) == Some(true)
}

/// Calls `bcrypt::verify`. The answer depends on the password and the hash alone
/// (the salt and cost are read from the hash), and is named `bcrypt_verify_outcome`;
/// the text of an error is not stated. The work grows with the cost written in the hash.
#[verifier::external_body]
fn bcrypt_verify(password: &str, hash: &str) -> (res: Result<bool, bcrypt::BcryptError>)
    ensures
        match res {
            Ok(b) => bcrypt_verify_outcome(password@, hash@) == Some(b),
            Err(_) => bcrypt_verify_outcome(password@, hash@) is None,
        },
{
    bcrypt::verify(password, hash)
}

/// True of the text of a failure of the random source bcrypt draws its salt from: the
/// `Display` text of `BcryptError::Rand`, which begins with `Rand error: `.
pub open spec fn is_random_source_failure(m: Seq<char>) -> bool {
    m.len() >= 12 && m.subrange(0, 12) == "Rand error: "@
}

/// Calls `bcrypt::hash` with `bcrypt::DEFAULT_COST` (12), an error taken by its `Display`
/// text. The salt is drawn at random, so the hash itself is not stated; what is stated is
/// what the crate's source shows of every hash it returns: it has the form `$2b$12$`
/// followed by 22 characters of salt and 31 of digest, and `bcrypt::verify` re-derives it
/// from the embedded salt and cost and accepts the same password. With a valid cost, the
/// only failing step of `hash` is drawing the salt (`getrandom`), whose error is
/// `BcryptError::Rand`, shown as `Rand error: ` and the cause. Whether the random source
/// fails is not stated.
#[verifier::external_body]
fn bcrypt_hash(password: &str) -> (res: Result<String, String>)
    ensures
        res matches Ok(h) ==> password_matches(password@, h@),
        res matches Ok(h) ==> h@.len() == 60 && h@.subrange(0, 7) == "$2b$12$"@,
        res matches Err(m) ==> is_random_source_failure(m@),
{
    bcrypt::hash(password, bcrypt::DEFAULT_COST).map_err(|e| e.to_string())
}

/// Renders a bcrypt error with its `Display` text. The text is not stated.
#[verifier::external_body]
fn bcrypt_error_text(e: &bcrypt::BcryptError) -> String {
    e.to_string()
}

/// Hashes a password for storage (bcrypt, cost 12, random salt). Any hash returned
/// accepts that same password; the hasher fails only where its random source does, which
/// is an internal error with the hasher's text.
pub fn hash_password(password: &str) -> (res: Result<String, AppError>)
    ensures
        res matches Ok(h) ==> password_matches(password@, h@),
        res matches Ok(h) ==> h@.len() == 60 && h@.subrange(0, 7) == "$2b$12$"@,
        res matches Err(e) ==> e@ is Internal,
        res matches Err(e) ==> (e@ matches ErrorView::Internal(m) && is_random_source_failure(m)),
{
    match bcrypt_hash(password) {
        Ok(h) => Ok(h),
        Err(m) => Err(AppError::Internal(m)),
    }
}

/// Checks a password against a stored hash: `Ok(matches)`, or an internal error where
/// the hash cannot be checked.
pub fn verify_password(password: &str, hash: &str) -> (res: Result<bool, AppError>)
    ensures
        match bcrypt_verify_outcome(password@, hash@) {
            Some(b) => res == Ok::<bool, AppError>(b),
            None => res matches Err(e) && e@ is Internal,
        },
{
    match bcrypt_verify(password, hash) {
        Ok(b) => Ok(b),
        Err(e) => Err(AppError::Internal(bcrypt_error_text(&e))),
    }
}

} // verus!
