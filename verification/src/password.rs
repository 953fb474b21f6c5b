//! Hashing of passwords, and the comparison of a password with a stored
//! hash.

use crate::error::AppError;
use vstd::prelude::*;

verus! {

/// The error type of the `bcrypt` crate, carried through unread.
#[verifier::external_type_specification]
#[verifier::external_body]
pub struct ExBcryptError(bcrypt::BcryptError);

/// What `bcrypt::verify` answers for a password and a stored hash: whether
/// the two match, or nothing where it reports an error, as it does for a
/// hash that is not well formed.
pub uninterp spec fn bcrypt_answer(password: Seq<char>, hash: Seq<char>) -> Option<bool>;

/// Whether `password` counts as the one that `hash` was made of: an error
/// of the comparison counts as a mismatch.
pub open spec fn password_matches(password: Seq<char>, hash: Seq<char>) -> bool {
    bcrypt_answer(password, hash) == Some(true)
}

/// Calls `bcrypt::hash` with the crate's default cost. The salt is drawn at
/// random on each call, so the hash itself is left open. What is claimed is
/// that `bcrypt::verify` reports a match of the password with it: it finds
/// cost and salt in the hash, hashes the password with them as `hash` did,
/// and compares.
#[verifier::external_body]
fn bcrypt_hash(password: &str) -> (hashed: Result<String, bcrypt::BcryptError>)
    ensures
        hashed matches Ok(hash) ==> bcrypt_answer(password@, hash@) == Some(true),
{
    bcrypt::hash(password, bcrypt::DEFAULT_COST)
}

/// Calls `bcrypt::verify`, which splits the stored hash into cost, salt and
/// digest, hashes the password again with that cost and salt and compares
/// the digests. Its answer depends on the two texts alone and is named
/// [`bcrypt_answer`].
#[verifier::external_body]
fn bcrypt_verify(password: &str, hash: &str) -> (answer: Result<bool, bcrypt::BcryptError>)
    ensures
        match answer {
            Ok(same) => bcrypt_answer(password@, hash@) == Some(same),
            Err(_) => bcrypt_answer(password@, hash@) is None,
        },
{
    bcrypt::verify(password, hash)
}

/// Turns what the hasher handed back into the hash or the error to report.
pub fn hash_outcome(hashed: Result<String, bcrypt::BcryptError>) -> (outcome: Result<
    String,
    AppError,
>)
    ensures
        match hashed {
            Ok(text) => outcome matches Ok(kept) && kept@ == text@,
            Err(_) => outcome == Err::<String, AppError>(AppError::InternalServerError),
        },
{
    match hashed {
        Ok(text) => Ok(text),
        Err(_) => Err(AppError::InternalServerError),
    }
}

/// Turns what the comparison handed back into a plain yes or no: only a
/// reported match counts.
pub fn match_outcome(answer: Result<bool, bcrypt::BcryptError>) -> (same: bool)
    ensures
        same == (answer matches Ok(same_text) && same_text),
{
    match answer {
        Ok(answer) => answer,
        Err(_) => false,
    }
}

/// A salted hash of `password`: one that `password` matches. Where the
/// hasher fails there is none, and `InternalServerError` is reported. The
/// salt is drawn at random, so two calls on one password need not give the
/// same hash.
pub fn hash_password(password: &str) -> (outcome: Result<String, AppError>)
    ensures
        outcome matches Ok(hash) ==> password_matches(password@, hash@),
        outcome matches Err(error) ==> error == AppError::InternalServerError,
{
    hash_outcome(bcrypt_hash(password))
}

/// Whether `password` is the one that `hash` was made of. A hash that
/// cannot be read counts as a mismatch.
pub fn verify_password(password: &str, hash: &str) -> (same: bool)
    ensures
        same == password_matches(password@, hash@),
{
    match_outcome(bcrypt_verify(password, hash))
}

} // verus!
