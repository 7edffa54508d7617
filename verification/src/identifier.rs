//! Names that may stand in a statement. A name cannot be bound as a value
//! is, so nothing but a checked name is ever written into a statement.

use crate::error::{ErrorModel, QueryError};
use crate::grammar::is_identifier;
use crate::text::{char_is_identifier, chars_of};
use vstd::prelude::*;

verus! {

/// Whether `name` is one character or more, each an ASCII letter, a digit
/// or `_`.
pub fn is_valid_identifier(name: &str) -> (r: bool)
    ensures
        r == is_identifier(name@),
{
    let v = chars_of(name);
    if v.len() == 0 {
        return false;
    }
    let mut i: usize = 0;
    while i < v.len()
        invariant
            i <= v.len(),
            v@ == name@,
            forall|j: int| 0 <= j < i ==> crate::text::is_identifier_char(#[trigger] name@[j]),
        decreases v.len() - i,
    {
        if !char_is_identifier(v[i]) {
            return false;
        }
        i += 1;
    }
    true
}

/// The name itself where it may stand in a statement, else the error that
/// names it.
pub fn sanitize(name: &str) -> (r: Result<String, QueryError>)
    ensures
        match r {
            Ok(s) => is_identifier(name@) && s@ == name@,
            Err(e) => !is_identifier(name@) && e@ == ErrorModel::InvalidIdentifier(name@),
        },
{
    if is_valid_identifier(name) {
        Ok(String::from_str(name))
    } else {
        Err(QueryError::InvalidIdentifier(String::from_str(name)))
    }
}

} // verus!
