//! Values made of the type that their column declares.

use crate::error::{ErrorModel, QueryError};
use crate::grammar::{coerce, kind_name};
use crate::json::JsonValue;
use crate::text::{read_i64, same_text};
use vstd::prelude::*;

verus! {

/// The kind of `value`, as an error names it.
pub fn kind_of(value: &JsonValue) -> (r: String)
    ensures
        r@ == kind_name(value@),
{
    match value {
        JsonValue::Null => String::from_str("null"),
        JsonValue::Bool(_) => String::from_str("boolean"),
        JsonValue::Int(_) => String::from_str("number"),
        JsonValue::UInt(_) => String::from_str("number"),
        JsonValue::Float(_) => String::from_str("number"),
        JsonValue::Text(_) => String::from_str("string"),
        JsonValue::Array(_) => String::from_str("array"),
        JsonValue::Object(_) => String::from_str("object"),
    }
}

fn mismatch(column: &str, value: &JsonValue, expected_type: &str) -> (e: QueryError)
    ensures
        e@ == ErrorModel::TypeMismatch(column@, expected_type@, kind_name(value@)),
{
    QueryError::TypeMismatch(
        String::from_str(column),
        String::from_str(expected_type),
        kind_of(value),
    )
}

/// Makes `value` of the type `expected_type` that `column` declares.
pub fn convert_value(column: &str, value: &JsonValue, expected_type: &str) -> (r: Result<
    JsonValue,
    QueryError,
>)
    ensures
        match r {
            Ok(v) => coerce(column@, value@, expected_type@) == Ok::<_, ErrorModel>(v@),
            Err(e) => coerce(column@, value@, expected_type@) == Err::<crate::json::JsonModel, _>(e@),
        },
{
    if same_text(expected_type, "bigint") {
        match value {
            JsonValue::Text(s) => match read_i64(s.as_str()) {
                Some(n) => Ok(JsonValue::Int(n)),
                None => Err(mismatch(column, value, expected_type)),
            },
            JsonValue::Int(n) => Ok(JsonValue::Int(*n)),
            JsonValue::UInt(n) => if *n <= 0x7fff_ffff_ffff_ffff {
                Ok(JsonValue::Int(*n as i64))
            } else {
                Err(mismatch(column, value, expected_type))
            },
            _ => Err(mismatch(column, value, expected_type)),
        }
    } else if same_text(expected_type, "text") {
        match value {
            JsonValue::Text(s) => Ok(JsonValue::Text(s.clone())),
            _ => Err(mismatch(column, value, expected_type)),
        }
    } else if same_text(expected_type, "boolean") {
        match value {
            JsonValue::Bool(b) => Ok(JsonValue::Bool(*b)),
            _ => Err(mismatch(column, value, expected_type)),
        }
    } else {
        Err(QueryError::UnsupportedType(String::from_str(expected_type)))
    }
}

} // verus!
