//! One-time codes and where they are kept until they are used.

use crate::auth::TwoFaType;
use crate::outside::{
    redis_address_ok, redis_error_text, redis_open, since_epoch, system_now, totp_code, totp_generate,
    whole_seconds,
};
use crate::text::{all_digits, byte_len, byte_length, signed_decimal};
use vstd::prelude::*;

verus! {

/// Why no code was made.
#[derive(Debug, Clone, Copy, PartialEq, Eq, Structural)]
pub enum TotpError {
    /// The secret takes less than sixteen bytes.
    Secret,
    /// The system clock stands before 1970.
    Clock,
}

impl TotpError {
    pub fn message(&self) -> (r: String)
        ensures
            r@ == match self {
                TotpError::Secret => "failed to create TOTP instance"@,
                TotpError::Clock => "System time error"@,
            },
    {
        match self {
            TotpError::Secret => String::from_str("failed to create TOTP instance"),
            TotpError::Clock => String::from_str("System time error"),
        }
    }
}

/// The number of digits of a code.
pub const CODE_DIGITS: usize = 6;

/// The number of steps before and after its own for which a code is taken.
pub const CODE_SKEW: u8 = 1;

/// The seconds for which one code stands.
pub const CODE_STEP: u64 = 30;

/// The code of a secret at `time`, in seconds since the start of 1970.
pub open spec fn code_of(secret: Seq<char>, time: u64) -> Seq<char> {
    totp_code(secret, CODE_DIGITS, CODE_SKEW, CODE_STEP, time)
}

/// A maker of six-digit codes that change every thirty seconds.
pub struct TotpGen {
    pub secret: String,
}

impl TotpGen {
    pub fn new(secret: &str) -> (r: Self)
        ensures
            r.secret@ == secret@,
    {
        TotpGen { secret: String::from_str(secret) }
    }

    /// The code at `time`, in seconds since the start of 1970. A secret of
    /// less than sixteen bytes makes none.
    pub fn code_at(&self, time: u64) -> (r: Result<String, TotpError>)
        ensures
            match r {
                Ok(code) => byte_len(self.secret@) >= 16 && code@ == code_of(self.secret@, time)
                    && code@.len() == CODE_DIGITS && all_digits(code@),
                Err(e) => byte_len(self.secret@) < 16 && e == TotpError::Secret,
            },
    {
        match totp_generate(self.secret.as_str(), CODE_DIGITS, CODE_SKEW, CODE_STEP, time) {
            Ok(code) => Ok(code),
            Err(_) => Err(TotpError::Secret),
        }
    }

    /// The code at the time of the system clock.
    pub fn generate_totp(&self) -> (r: Result<String, TotpError>)
        ensures
            byte_len(self.secret@) < 16 ==> r == Err::<String, _>(TotpError::Secret),
            match r {
                Ok(code) => byte_len(self.secret@) >= 16 && code@.len() == CODE_DIGITS
                    && all_digits(code@) && exists|time: u64|
                    code@ == #[trigger] code_of(self.secret@, time),
                Err(e) => e == TotpError::Secret ==> byte_len(self.secret@) < 16,
            },
    {
        if byte_length(self.secret.as_str()) < 16 {
            return Err(TotpError::Secret);
        }
        let now = system_now();
        match since_epoch(&now) {
            Ok(elapsed) => self.code_at(whole_seconds(&elapsed)),
            Err(_) => Err(TotpError::Clock),
        }
    }
}

/// A failure of the key store, in its own words.
#[derive(Debug, PartialEq, Eq)]
pub struct RedisFault {
    pub message: String,
}

/// The address of the key store on this machine.
pub open spec fn local_address() -> Seq<char> {
    "redis://127.0.0.1/"@
}

/// A client of the key store in which codes are kept.
pub struct RedisClient {
    pub client: redis::Client,
}

impl RedisClient {
    /// A client for the key store on this machine, where its address is
    /// taken. Nothing is connected yet.
    pub fn new() -> (r: Result<Self, RedisFault>)
        ensures
            r is Ok <==> redis_address_ok(local_address()),
    {
        match redis_open("redis://127.0.0.1/") {
            Ok(client) => Ok(RedisClient { client }),
            Err(e) => Err(RedisFault { message: redis_error_text(&e) }),
        }
    }

    /// The seconds that a key has left, from what the store says of it: the
    /// store says -2 of a key that is not there and -1 of one that stays
    /// for ever, and neither has seconds left.
    pub fn interpret_ttl(raw: i64) -> (r: Option<i64>)
        ensures
            r == if raw == -2 || raw == -1 {
                None
            } else {
                Some(raw)
            },
    {
        if raw == -2 {
            None
        } else if raw == -1 {
            None
        } else {
            Some(raw)
        }
    }
}

/// The seconds for which a code is kept.
pub const CODE_LIFETIME: i64 = 600;

/// The seconds after a code was stored in which no new one is stored.
pub const COOL_DOWN: i64 = 60;

/// What to do when a code is to be stored.
#[derive(Debug, PartialEq, Eq)]
pub enum StorePlan {
    /// A code was stored less than a minute ago: ask again in so many
    /// seconds.
    Wait(i64),
    /// Store the code for so many seconds.
    Write(String, u64),
    /// There is no code to store.
    NoCode,
}

/// Whether a code with so many seconds left was stored less than a minute
/// ago.
pub open spec fn must_wait(ttl: Option<i64>) -> bool {
    match ttl {
        Some(left) => left >= CODE_LIFETIME - COOL_DOWN,
        None => false,
    }
}

impl StorePlan {
    /// The words with which the plan refuses to store, where it does.
    pub open spec fn refusal_text(self) -> Option<Seq<char>> {
        match self {
            StorePlan::Wait(seconds) => Some(
                "please request a new verification code in "@ + signed_decimal(seconds as int),
            ),
            StorePlan::Write(_, _) => None,
            StorePlan::NoCode => Some(
                "please provide a totp in TotpStorage::new(..., Some(totp), ...)"@,
            ),
        }
    }

    /// The words with which the plan refuses to store, where it does.
    pub fn refusal(&self) -> (r: Option<String>)
        ensures
            match r {
                Some(words) => self.refusal_text() == Some(words@),
                None => self.refusal_text() is None,
            },
    {
        match self {
            StorePlan::Wait(seconds) => {
                let mut words = String::from_str("please request a new verification code in ");
                words.append(crate::text::signed_decimal_text(*seconds).as_str());
                Some(words)
            },
            StorePlan::Write(_, _) => None,
            StorePlan::NoCode => Some(
                String::from_str("please provide a totp in TotpStorage::new(..., Some(totp), ...)"),
            ),
        }
    }

    /// The words for a code that the store did not take, after the words
    /// of the store.
    pub fn store_failure(words: &str) -> (r: String)
        ensures
            r@ == "failed to store totp: "@ + words@,
    {
        let mut message = String::from_str("failed to store totp: ");
        message.append(words);
        message
    }
}

/// The key under which the code of a user is kept.
pub open spec fn storage_key(twofa_type: TwoFaType, user_id: i64) -> Seq<char> {
    twofa_type.name() + ":"@ + signed_decimal(user_id as int)
}

/// The place of one user's code in the key store.
pub struct TotpStorage {
    pub totp: Option<String>,
    pub redis_client: RedisClient,
    pub redis_key: String,
}

impl TotpStorage {
    /// The place of the code of `user_id` for the kind of second factor,
    /// where the address of the key store is taken.
    pub fn new(user_id: i64, totp: Option<String>, twofa_type: TwoFaType) -> (r: Result<
        Self,
        RedisFault,
    >)
        ensures
            r is Ok <==> redis_address_ok(local_address()),
            r matches Ok(storage) ==> storage.totp == totp && storage.redis_key@ == storage_key(
                twofa_type,
                user_id,
            ),
    {
        let con = match RedisClient::new() {
            Ok(con) => con,
            Err(e) => {
                return Err(e);
            },
        };
        Ok(TotpStorage { totp, redis_client: con, redis_key: Self::key_for(twofa_type, user_id) })
    }

    /// The key under which the code of `user_id` is kept.
    pub fn key_for(twofa_type: TwoFaType, user_id: i64) -> (r: String)
        ensures
            r@ == storage_key(twofa_type, user_id),
    {
        let mut key = String::from_str(twofa_type.as_str());
        key.append(":");
        let id = crate::text::signed_decimal_text(user_id);
        key.append(id.as_str());
        key
    }

    /// What to do when the code is to be stored, given the seconds that the
    /// code in the store has left, if there is one.
    pub fn plan_store(&self, ttl: Option<i64>) -> (r: StorePlan)
        ensures
            match r {
                StorePlan::Wait(seconds) => must_wait(ttl) && seconds == ttl->Some_0 - (
                CODE_LIFETIME - COOL_DOWN),
                StorePlan::Write(code, lifetime) => !must_wait(ttl) && self.totp is Some && code@
                    == self.totp->Some_0@ && lifetime == CODE_LIFETIME,
                StorePlan::NoCode => !must_wait(ttl) && self.totp is None,
            },
    {
        let min_ttl: i64 = CODE_LIFETIME - COOL_DOWN;
        match ttl {
            Some(left) => {
                if left >= min_ttl {
                    return StorePlan::Wait(left - min_ttl);
                }
            },
            None => {},
        }
        match &self.totp {
            Some(code) => StorePlan::Write(code.clone(), 600),
            None => StorePlan::NoCode,
        }
    }
}

/// What a request does with a code in the key store.
#[derive(Debug, Clone, Copy, PartialEq, Eq, Structural)]
pub enum TotpRedisAction {
    Insert,
    Delete,
    Retrieve,
}

/// A request on the code of one kind of second factor.
pub struct TotpRequest {
    twofa_type: TwoFaType,
    action: TotpRedisAction,
}

impl TotpRequest {
    pub closed spec fn parts(&self) -> (TwoFaType, TotpRedisAction) {
        (self.twofa_type, self.action)
    }

    pub fn new(twofa_type: TwoFaType, action: TotpRedisAction) -> (r: Self)
        ensures
            r.parts() == (twofa_type, action),
    {
        TotpRequest { twofa_type, action }
    }

    pub fn twofa_type(&self) -> (r: TwoFaType)
        ensures
            r == self.parts().0,
    {
        self.twofa_type
    }

    pub fn action(&self) -> (r: TotpRedisAction)
        ensures
            r == self.parts().1,
    {
        self.action
    }
}

} // verus!
