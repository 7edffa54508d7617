//! Password hashes.

use crate::outside::{bcrypt_error_text, bcrypt_hash, bcrypt_verdict, bcrypt_verify};
use vstd::prelude::*;

verus! {

/// A failure of hashing or of reading a hash, in the words of the hasher.
#[derive(Debug, PartialEq, Eq)]
pub struct HashError {
    pub message: String,
}

pub struct Hasher;

impl Hasher {
    /// A hash of `target`. Which hash comes depends on a salt drawn at
    /// random; each is found to be one of `target` by `verify`.
    pub fn hash(target: &str) -> (r: Result<String, HashError>)
        ensures
            r matches Ok(hashed) ==> bcrypt_verdict(target@, hashed@) == Some(true),
    {
        match bcrypt_hash(target) {
            Ok(hashed) => Ok(hashed),
            Err(e) => Err(HashError { message: bcrypt_error_text(&e) }),
        }
    }

    /// Whether `hashed_target` is a hash of `target`; an error where it is
    /// no hash at all.
    pub fn verify(target: &str, hashed_target: &str) -> (r: Result<bool, HashError>)
        ensures
            match r {
                Ok(verdict) => bcrypt_verdict(target@, hashed_target@) == Some(verdict),
                Err(_) => bcrypt_verdict(target@, hashed_target@) is None,
            },
    {
        match bcrypt_verify(target, hashed_target) {
            Ok(verdict) => Ok(verdict),
            Err(e) => Err(HashError { message: bcrypt_error_text(&e) }),
        }
    }
}

} // verus!
