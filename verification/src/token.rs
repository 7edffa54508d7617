//! Issuing a token and checking one: what to ask of the store, and what to
//! make of its answer. Sending the request and signing the token are left
//! to the caller.

use crate::entities::{AuthTokens, TableModel};
use crate::error::{ErrorModel, QueryError};
use crate::json::{JsonModel, JsonValue};
use crate::jwt::UserClaims;
use crate::outside::random_uuid;
use crate::model::{
    DatabaseAction, DatabaseRequest, Filters, FiltersModel, RequestModel, WhereClause, WhereModel,
};
use crate::response::DatabaseResponse;
use crate::text::{parse_i64, read_i64, same_text, signed_decimal, signed_decimal_text};
use crate::values::{lemma_put_fresh, Values};
use vstd::prelude::*;

verus! {

/// The second at which a token made at `now` expires when it lasts
/// `expires_in` seconds, where that second can be written.
pub open spec fn expiry(now: u64, expires_in: usize) -> Option<usize> {
    if (now as usize) + expires_in <= usize::MAX {
        Some(((now as usize) + expires_in) as usize)
    } else {
        None
    }
}

pub fn expiry_after(now: u64, expires_in: usize) -> (r: Option<usize>)
    ensures
        r == expiry(now, expires_in),
{
    let start: usize = #[verifier::truncate] (now as usize);
    if expires_in <= usize::MAX - start {
        Some(start + expires_in)
    } else {
        None
    }
}

/// The claims of a token of the user `uid` with the identifier `jti` that
/// expires at `exp`.
pub fn new_claims(uid: i64, jti: &str, exp: usize) -> (r: UserClaims)
    ensures
        r.user_id@ == signed_decimal(uid as int),
        r.exp == exp,
        r.jti@ == jti@,
{
    UserClaims { user_id: signed_decimal_text(uid), exp, jti: String::from_str(jti) }
}

/// The row that records the token.
pub fn token_row(uid: i64, jti: &str, exp: usize) -> (r: AuthTokens)
    ensures
        r.jti@ == jti@,
        r.uid == uid,
        r.expires_at == exp as i64,
{
    AuthTokens { jti: String::from_str(jti), uid, expires_at: #[verifier::truncate] (exp as i64) }
}

/// The request that stores the row of a token.
pub fn store_request(token: &AuthTokens) -> (r: DatabaseRequest)
    ensures
        r@ == (RequestModel {
            table: "auth_tokens"@,
            action: DatabaseAction::Insert,
            values: Some(token.columns()),
            bulk_values: None,
            filters: None,
        }),
{
    DatabaseRequest {
        table: String::from_str("auth_tokens"),
        action: DatabaseAction::Insert,
        values: Some(token.as_hash_map()),
        bulk_values: None,
        filters: None,
    }
}

/// The request that fetches the rows of the tokens of a user.
pub fn lookup_request(uid: i64) -> (r: DatabaseRequest)
    ensures
        r@ == (RequestModel {
            table: "auth_tokens"@,
            action: DatabaseAction::Retrieve,
            values: None,
            bulk_values: None,
            filters: Some(
                FiltersModel {
                    where_clause: Some(
                        WhereModel::Single(seq![("uid"@, JsonModel::Integer(uid as int))]),
                    ),
                    order_by: None,
                    limit: None,
                    offset: None,
                },
            ),
        }),
{
    let mut by_user = Values::new();
    proof {
        lemma_put_fresh(by_user@, "uid"@, JsonModel::Integer(uid as int));
    }
    by_user.insert(String::from_str("uid"), JsonValue::Int(uid));
    assert(by_user@ =~= seq![("uid"@, JsonModel::Integer(uid as int))]);
    DatabaseRequest {
        table: String::from_str("auth_tokens"),
        action: DatabaseAction::Retrieve,
        values: None,
        bulk_values: None,
        filters: Some(
            Filters {
                where_clause: Some(WhereClause::Single(by_user)),
                order_by: None,
                limit: None,
                offset: None,
            },
        ),
    }
}

/// The columns of the row that records a token.
pub open spec fn token_columns(uid: i64, jti: Seq<char>, exp: usize) -> Seq<(Seq<char>, JsonModel)> {
    seq![
        ("uid"@, JsonModel::Integer(uid as int)),
        ("jti"@, JsonModel::Text(jti)),
        ("expires_at"@, JsonModel::Integer((exp as i64) as int)),
    ]
}

/// A new token for the user `uid` that is made at `now` and lasts
/// `expires_in` seconds: its claims, under an identifier drawn at random,
/// and the request that stores its row. There is none where the second of
/// its expiry cannot be written.
pub fn issue(uid: i64, now: u64, expires_in: usize) -> (r: Option<(UserClaims, DatabaseRequest)>)
    ensures
        match r {
            Some((claims, request)) => expiry(now, expires_in) == Some(claims.exp)
                && claims.user_id@ == signed_decimal(uid as int) && request@ == (RequestModel {
                table: "auth_tokens"@,
                action: DatabaseAction::Insert,
                values: Some(token_columns(uid, claims.jti@, claims.exp)),
                bulk_values: None,
                filters: None,
            }),
            None => expiry(now, expires_in) is None,
        },
{
    match expiry_after(now, expires_in) {
        None => None,
        Some(exp) => {
            let jti = random_uuid();
            let claims = new_claims(uid, jti.as_str(), exp);
            let request = store_request(&token_row(uid, jti.as_str(), exp));
            Some((claims, request))
        },
    }
}

/// A refusal, and the status with which it is answered.
pub type Refusal = (String, u16);

/// The refusal of a token that cannot be read or has expired, in the words
/// of the reader.
pub fn refuse_unread(words: String) -> (r: Refusal)
    ensures
        r.0 == words,
        r.1 == 401,
{
    (words, 401)
}

pub open spec fn refusal_is(r: Refusal, message: Seq<char>, status: u16) -> bool {
    r.0@ == message && r.1 == status
}

fn refuse(message: &str, status: u16) -> (r: Refusal)
    ensures
        refusal_is(r, message@, status),
{
    (String::from_str(message), status)
}

/// The user that the claims name.
pub fn claimed_uid(claims: &UserClaims) -> (r: Result<i64, Refusal>)
    ensures
        match r {
            Ok(uid) => parse_i64(claims.user_id@) == Some(uid),
            Err(refusal) => parse_i64(claims.user_id@) is None && refusal_is(
                refusal,
                "the user of the token is not a number"@,
                500,
            ),
        },
{
    match read_i64(claims.user_id.as_str()) {
        Some(uid) => Ok(uid),
        None => Err(refuse("the user of the token is not a number", 500)),
    }
}

/// What the answer to a stored token means: an error of the store is
/// handed on in its own words, and anything else is taken as done, no
/// answer too.
pub fn after_store(response: Option<&DatabaseResponse<AuthTokens>>) -> (r: Result<(), QueryError>)
    ensures
        match r {
            Ok(()) => !(response matches Some(answer) && answer is Error),
            Err(e) => response matches Some(answer) && answer is Error && e@
                == ErrorModel::StoreError(answer->error@),
        },
{
    match response {
        Some(DatabaseResponse::Error { error }) => Err(QueryError::StoreError(error.clone())),
        _ => Ok(()),
    }
}

/// Some row records the identifier.
pub open spec fn records(rows: Seq<AuthTokens>, jti: Seq<char>) -> bool {
    exists|i: int| 0 <= i < rows.len() && (#[trigger] rows[i]).jti@ == jti
}

/// Whether one of the rows records the identifier.
pub fn is_recorded(rows: &Vec<AuthTokens>, jti: &str) -> (r: bool)
    ensures
        r == records(rows@, jti@),
{
    let mut i: usize = 0;
    while i < rows.len()
        invariant
            i <= rows.len(),
            forall|j: int| 0 <= j < i ==> (#[trigger] rows@[j]).jti@ != jti@,
        decreases rows.len() - i,
    {
        if same_text(rows[i].jti.as_str(), jti) {
            return true;
        }
        i += 1;
    }
    false
}

/// What the answer to a lookup means for a token with the identifier
/// `jti`: the token stands where one of the rows records it.
pub fn after_lookup(jti: &str, response: Option<&DatabaseResponse<AuthTokens>>) -> (r: Result<
    (),
    Refusal,
>)
    ensures
        match response {
            None => r matches Err(refusal) && refusal_is(refusal, "Database response failed"@, 500),
            Some(DatabaseResponse::Error { error }) => r matches Err(refusal) && refusal_is(
                refusal,
                error@,
                500,
            ),
            Some(DatabaseResponse::Status { .. }) => r matches Err(refusal) && refusal_is(
                refusal,
                "an unknown database error occurred."@,
                500,
            ),
            Some(DatabaseResponse::Data(rows)) => if records(rows@, jti@) {
                r is Ok
            } else {
                r matches Err(refusal) && refusal_is(
                    refusal,
                    "token rejected. could not verify the trustworthiness of this token"@,
                    401,
                )
            },
        },
{
    match response {
        None => Err(refuse("Database response failed", 500)),
        Some(DatabaseResponse::Error { error }) => Err((error.clone(), 500)),
        Some(DatabaseResponse::Status { .. }) => Err(
            refuse("an unknown database error occurred.", 500),
        ),
        Some(DatabaseResponse::Data(rows)) => {
            if is_recorded(rows, jti) {
                Ok(())
            } else {
                Err(
                    refuse(
                        "token rejected. could not verify the trustworthiness of this token",
                        401,
                    ),
                )
            }
        },
    }
}

} // verus!
