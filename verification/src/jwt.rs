//! Claims, and the rule by which a token has expired.

use crate::outside::{since_epoch, system_now, whole_seconds};
use vstd::prelude::*;

verus! {

/// What every set of claims tells: when it expires, in seconds since the
/// start of 1970.
pub trait Claim {
    spec fn expiry(&self) -> usize;

    fn exp(&self) -> (r: usize)
        ensures
            r == self.expiry(),
    ;
}

#[derive(Debug, Clone, Copy, PartialEq, Eq)]
pub struct BackendClaims {
    pub exp: usize,
    pub timestamp: u64,
}

#[derive(Debug, PartialEq, Eq)]
pub struct UserClaims {
    pub user_id: String,
    pub exp: usize,
    pub jti: String,
}

impl Clone for UserClaims {
    fn clone(&self) -> (r: Self)
        ensures
            r.user_id@ == self.user_id@,
            r.exp == self.exp,
            r.jti@ == self.jti@,
    {
        UserClaims { user_id: self.user_id.clone(), exp: self.exp, jti: self.jti.clone() }
    }
}

impl Claim for UserClaims {
    open spec fn expiry(&self) -> usize {
        self.exp
    }

    fn exp(&self) -> (r: usize) {
        self.exp
    }
}

impl Claim for BackendClaims {
    open spec fn expiry(&self) -> usize {
        self.exp
    }

    fn exp(&self) -> (r: usize) {
        self.exp
    }
}

/// Why claims are refused.
#[derive(Debug, Clone, Copy, PartialEq, Eq, Structural)]
pub enum JwtError {
    ExpiredSignature,
}

/// The key with which tokens are signed and read.
pub struct JwtToken {
    secret: String,
}

/// Whether claims that expire at `exp` have expired at `now`: they have
/// from the second of their expiry on.
pub open spec fn expired_at(exp: usize, now: u64) -> bool {
    exp <= now as usize
}

impl JwtToken {
    pub closed spec fn secret_text(&self) -> Seq<char> {
        self.secret@
    }

    pub fn new(secret_key: &str) -> (r: Self)
        ensures
            r.secret_text() == secret_key@,
    {
        JwtToken { secret: String::from_str(secret_key) }
    }

    /// The key.
    pub fn secret(&self) -> (r: &str)
        ensures
            r@ == self.secret_text(),
    {
        self.secret.as_str()
    }

    /// The seconds since the start of 1970 on the system clock; zero where
    /// the clock stands before that.
    pub fn get_current_timestamp() -> u64 {
        let now = system_now();
        match since_epoch(&now) {
            Ok(elapsed) => whole_seconds(&elapsed),
            Err(_) => 0,
        }
    }

    /// Whether claims that expire at `exp` have expired at `now`.
    pub fn is_expired_at(exp: usize, now: u64) -> (r: bool)
        ensures
            r == expired_at(exp, now),
    {
        exp <= #[verifier::truncate] (now as usize)
    }

    /// Whether claims that expire at `exp` have expired by the system clock:
    /// the verdict at the second that the clock shows.
    pub fn is_token_expired(exp: usize) -> (r: bool)
        ensures
            exists|now: u64| r == #[trigger] expired_at(exp, now),
    {
        let now = Self::get_current_timestamp();
        let r = Self::is_expired_at(exp, now);
        assert(r == expired_at(exp, now));
        r
    }

    /// The claims themselves where they have not expired at `now`.
    pub fn check_claims<T: Claim>(claims: T, now: u64) -> (r: Result<T, JwtError>)
        ensures
            match r {
                Ok(kept) => kept == claims && !expired_at(claims.expiry(), now),
                Err(e) => e == JwtError::ExpiredSignature && expired_at(claims.expiry(), now),
            },
    {
        if Self::is_expired_at(claims.exp(), now) {
            Err(JwtError::ExpiredSignature)
        } else {
            Ok(claims)
        }
    }
}

} // verus!
