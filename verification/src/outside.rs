//! The calls that leave this library. Nothing below is proved: each
//! contract says what the called function is taken to do.

use crate::text::{all_digits, byte_len};
use std::time::{Duration, Instant, SystemTime, SystemTimeError};
use vstd::prelude::*;

verus! {

// ---------------------------------------------------------------------------
// Clocks
// ---------------------------------------------------------------------------

#[verifier::external_type_specification]
#[verifier::external_body]
pub struct ExSystemTime(SystemTime);

#[verifier::external_type_specification]
#[verifier::external_body]
pub struct ExSystemTimeError(SystemTimeError);

#[verifier::external_type_specification]
#[verifier::external_body]
pub struct ExInstant(Instant);

/// `SystemTime::now`: the time of the system clock. Nothing is known of it.
#[verifier::external_body]
pub(crate) fn system_now() -> SystemTime {
    SystemTime::now()
}

/// `SystemTime::duration_since` with `UNIX_EPOCH`: the time that has passed
/// since the start of 1970, or an error where the clock stands before it.
#[verifier::external_body]
pub(crate) fn since_epoch(time: &SystemTime) -> Result<Duration, SystemTimeError> {
    time.duration_since(std::time::UNIX_EPOCH)
}

/// `Duration::as_secs`: the whole seconds of a duration.
#[verifier::external_body]
pub(crate) fn whole_seconds(duration: &Duration) -> u64 {
    duration.as_secs()
}

/// `Duration::as_millis`: the whole milliseconds of a duration.
#[verifier::external_body]
pub(crate) fn whole_millis(duration: &Duration) -> u128 {
    duration.as_millis()
}

/// `Duration::as_micros`: the whole microseconds of a duration.
#[verifier::external_body]
pub(crate) fn whole_micros(duration: &Duration) -> u128 {
    duration.as_micros()
}

/// `Instant::now`: a reading of the monotonic clock. Nothing is known of it.
#[verifier::external_body]
pub(crate) fn instant_now() -> Instant {
    Instant::now()
}

/// `Instant::duration_since`: the time from `earlier` to `later`, zero where
/// `earlier` is the later of the two.
#[verifier::external_body]
pub(crate) fn time_between(later: &Instant, earlier: &Instant) -> Duration {
    later.duration_since(*earlier)
}

// ---------------------------------------------------------------------------
// Chance
// ---------------------------------------------------------------------------

/// `Rng::gen_range` on the generator of `rand::thread_rng`, with the range
/// from zero up to `limit`, which is left out: some number below `limit`.
/// The range must hold a number, else the call panics.
#[verifier::external_body]
pub(crate) fn random_below(limit: u64) -> (r: u64)
    requires
        limit > 0,
    ensures
        r < limit,
{
    rand::Rng::gen_range(&mut rand::thread_rng(), 0..limit)
}

/// `Uuid::new_v4`, written out by its `to_string`: a random identifier.
/// Nothing is known of it.
#[verifier::external_body]
pub(crate) fn random_uuid() -> String {
    uuid::Uuid::new_v4().to_string()
}

// ---------------------------------------------------------------------------
// Password hashes
// ---------------------------------------------------------------------------

#[verifier::external_type_specification]
#[verifier::external_body]
pub struct ExBcryptError(bcrypt::BcryptError);

/// What `bcrypt::verify` finds of a password and a hash: whether the hash
/// is one of the password, or nothing where the hash cannot be read.
pub uninterp spec fn bcrypt_verdict(password: Seq<char>, hash: Seq<char>) -> Option<bool>;

/// `bcrypt::hash` at `bcrypt::DEFAULT_COST`: a hash of the password under a
/// salt drawn at random. Which hash comes is not known; `bcrypt::verify`
/// computes the hash anew under the salt that the hash holds, so it finds
/// it to be one of the password.
#[verifier::external_body]
pub(crate) fn bcrypt_hash(password: &str) -> (r: Result<String, bcrypt::BcryptError>)
    ensures
        r matches Ok(hash) ==> bcrypt_verdict(password@, hash@) == Some(true),
{
    bcrypt::hash(password, bcrypt::DEFAULT_COST)
}

/// `bcrypt::verify`.
#[verifier::external_body]
pub(crate) fn bcrypt_verify(password: &str, hash: &str) -> (r: Result<bool, bcrypt::BcryptError>)
    ensures
        match r {
            Ok(verdict) => bcrypt_verdict(password@, hash@) == Some(verdict),
            Err(_) => bcrypt_verdict(password@, hash@) is None,
        },
{
    bcrypt::verify(password, hash)
}

/// The words of a `bcrypt::BcryptError`, by its `to_string`.
#[verifier::external_body]
pub(crate) fn bcrypt_error_text(error: &bcrypt::BcryptError) -> String {
    error.to_string()
}

// ---------------------------------------------------------------------------
// Patterns
// ---------------------------------------------------------------------------

#[verifier::external_type_specification]
#[verifier::external_body]
pub struct ExRegexError(regex::Error);

/// What `Regex::is_match` finds of a text for the pattern that `Regex::new`
/// compiles: whether the pattern matches somewhere in the text, or nothing
/// where the pattern does not compile.
pub uninterp spec fn regex_verdict(pattern: Seq<char>, text: Seq<char>) -> Option<bool>;

/// `Regex::new` on the pattern, then `Regex::is_match` on the text.
#[verifier::external_body]
pub(crate) fn pattern_matches(pattern: &str, text: &str) -> (r: Result<bool, regex::Error>)
    ensures
        match r {
            Ok(verdict) => regex_verdict(pattern@, text@) == Some(verdict),
            Err(_) => regex_verdict(pattern@, text@) is None,
        },
{
    regex::Regex::new(pattern).map(|compiled| compiled.is_match(text))
}

// ---------------------------------------------------------------------------
// One-time codes
// ---------------------------------------------------------------------------

#[verifier::external_type_specification]
#[verifier::external_body]
pub struct ExTotpUrlError(totp_rs::TotpUrlError);

/// The code that `TOTP::generate` gives at `time` for the generator that
/// `TOTP::new` makes with SHA-1 of the secret, the number of digits, the
/// skew and the step.
pub uninterp spec fn totp_code(secret: Seq<char>, digits: usize, skew: u8, step: u64, time: u64)
    -> Seq<char>;

/// `TOTP::new` with SHA-1, the number of digits, the skew, the step and the
/// bytes of the secret, then `TOTP::generate` at `time`. `new` takes six to
/// eight digits and a secret of sixteen bytes or more, and refuses the
/// rest; `generate` divides the time by the step, and writes a number with
/// as many digits as the generator has.
#[verifier::external_body]
pub(crate) fn totp_generate(
    secret: &str,
    digits: usize,
    skew: u8,
    step: u64,
    time: u64,
) -> (r: Result<String, totp_rs::TotpUrlError>)
    requires
        step > 0,
    ensures
        r is Ok <==> (6 <= digits <= 8 && byte_len(secret@) >= 16),
        r matches Ok(code) ==> code@ == totp_code(secret@, digits, skew, step, time) && code@.len()
            == digits && all_digits(code@),
{
    totp_rs::TOTP::new(totp_rs::Algorithm::SHA1, digits, skew, step, secret.as_bytes().to_vec())
        .map(|totp| totp.generate(time))
}

// ---------------------------------------------------------------------------
// Key stores
// ---------------------------------------------------------------------------

#[verifier::external_type_specification]
#[verifier::external_body]
pub struct ExRedisClient(redis::Client);

#[verifier::external_type_specification]
#[verifier::external_body]
pub struct ExRedisError(redis::RedisError);

/// What `redis::Client::open` finds of an address: whether it reads as the
/// address of a server. The call reads the address and nothing else, and
/// connects to nothing.
pub uninterp spec fn redis_address_ok(url: Seq<char>) -> bool;

/// `redis::Client::open`: a client for the server at `url`, where `url`
/// reads as the address of one.
#[verifier::external_body]
pub(crate) fn redis_open(url: &str) -> (r: Result<redis::Client, redis::RedisError>)
    ensures
        r is Ok <==> redis_address_ok(url@),
{
    redis::Client::open(url)
}

/// The words of a `redis::RedisError`, by its `to_string`.
#[verifier::external_body]
pub(crate) fn redis_error_text(error: &redis::RedisError) -> String {
    error.to_string()
}

// ---------------------------------------------------------------------------
// Documents of settings
// ---------------------------------------------------------------------------

#[verifier::external_type_specification]
#[verifier::external_body]
pub struct ExTomlValue(toml::Value);

#[verifier::external_type_specification]
#[verifier::external_body]
pub struct ExTomlError(toml::de::Error);

/// The members of a TOML table that are strings, by their keys. A value
/// that is no table has none.
pub uninterp spec fn document_texts(document: toml::Value) -> Map<Seq<char>, Seq<char>>;

/// The members of a TOML table that are arrays, by their keys: of each
/// item its string, or nothing where the item is no string. A value that is
/// no table has none.
pub uninterp spec fn document_lists(document: toml::Value) -> Map<
    Seq<char>,
    Seq<Option<Seq<char>>>,
>;

/// The views of items that may be texts.
pub open spec fn option_texts(items: Seq<Option<String>>) -> Seq<Option<Seq<char>>> {
    Seq::new(
        items.len(),
        |i: int|
            match items[i] {
                Some(s) => Some(s@),
                None => None,
            },
    )
}

/// What `str::parse` to a `toml::Value` finds in a text: the string members
/// and the array members of the document that the text writes, or nothing
/// where the text writes no document.
pub uninterp spec fn toml_members(contents: Seq<char>) -> Option<
    (Map<Seq<char>, Seq<char>>, Map<Seq<char>, Seq<Option<Seq<char>>>>),
>;

/// `str::parse` to a `toml::Value`: the document that the text writes, or
/// the error of the parser.
#[verifier::external_body]
pub(crate) fn toml_parse(contents: &str) -> (r: Result<toml::Value, toml::de::Error>)
    ensures
        match r {
            Ok(document) => toml_members(contents@) == Some(
                (document_texts(document), document_lists(document)),
            ),
            Err(_) => toml_members(contents@) is None,
        },
{
    contents.parse::<toml::Value>()
}

/// `toml::Value::get` with a key, then `toml::Value::as_str`: the member
/// under the key where the document is a table that has it and it is a
/// string.
#[verifier::external_body]
pub(crate) fn toml_text(document: &toml::Value, key: &str) -> (r: Option<String>)
    ensures
        match r {
            Some(s) => document_texts(*document).contains_key(key@) && document_texts(
                *document,
            )[key@] == s@,
            None => !document_texts(*document).contains_key(key@),
        },
{
    document.get(key).and_then(|v| v.as_str()).map(|s| s.to_string())
}

/// `toml::Value::get` with a key, then `toml::Value::as_array`, and of each
/// item `toml::Value::as_str`: the member under the key where the document
/// is a table that has it and it is an array.
#[verifier::external_body]
pub(crate) fn toml_list(document: &toml::Value, key: &str) -> (r: Option<Vec<Option<String>>>)
    ensures
        match r {
            Some(items) => document_lists(*document).contains_key(key@) && document_lists(
                *document,
            )[key@] == option_texts(items@),
            None => !document_lists(*document).contains_key(key@),
        },
{
    document.get(key).and_then(|v| v.as_array()).map(
        |items| items.iter().map(|item| item.as_str().map(|s| s.to_string())).collect(),
    )
}

/// The words of a `toml::de::Error`, by its `to_string`.
#[verifier::external_body]
pub(crate) fn toml_error_text(error: &toml::de::Error) -> String {
    error.to_string()
}

} // verus!
