//! Checking a request before a statement is assembled from it.

use crate::builder::validate_parts;
use crate::error::{ErrorModel, QueryError};
use crate::grammar::{table_after_validation, validated};
use crate::model::DatabaseRequest;
use vstd::prelude::*;

verus! {

impl DatabaseRequest {
    /// Normalizes the table in place (white space removed, then lower case)
    /// and checks that an insert, a bulk insert or an update comes with
    /// values. A table that is refused as a name is left stripped.
    pub fn validate(&mut self) -> (r: Result<(), QueryError>)
        ensures
            final(self).table@ == table_after_validation(old(self).table@),
            final(self).action == old(self).action,
            final(self).values == old(self).values,
            final(self).bulk_values == old(self).bulk_values,
            final(self).filters == old(self).filters,
            match r {
                Ok(()) => validated(
                    old(self)@.table,
                    old(self)@.action,
                    old(self)@.values,
                    old(self)@.bulk_values,
                ) == Ok::<_, ErrorModel>(final(self).table@),
                Err(e) => validated(
                    old(self)@.table,
                    old(self)@.action,
                    old(self)@.values,
                    old(self)@.bulk_values,
                ) == Err::<Seq<char>, _>(e@),
            },
    {
        validate_parts(&mut self.table, self.action, &self.values, &self.bulk_values)
    }
}

} // verus!
