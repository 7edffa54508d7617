//! The ways in which assembling a statement or reading a response fails.

use crate::model::DatabaseAction;
use vstd::prelude::*;

verus! {

#[derive(Debug, PartialEq, Eq)]
pub enum QueryError {
    /// A table or column name that is empty or holds a character other than
    /// an ASCII letter, a digit or `_`.
    InvalidIdentifier(String),
    /// A column (first) for which the table (second) declares no type.
    UnknownColumn(String, String),
    /// A column that a row of a bulk insert does not supply.
    MissingColumn(String),
    /// An action that needs values and got none.
    MissingValues(DatabaseAction),
    /// A declared type other than `bigint`, `text` and `boolean`.
    UnsupportedType(String),
    /// A column, its declared type, and the kind of the value that cannot
    /// be of that type.
    TypeMismatch(String, String, String),
    /// An action for which no statement is defined.
    ActionNotImplemented(DatabaseAction),
    /// A response that is no envelope.
    ParseError(String),
    /// A failure that the store reported, in its own words.
    StoreError(String),
}

pub enum ErrorModel {
    InvalidIdentifier(Seq<char>),
    UnknownColumn(Seq<char>, Seq<char>),
    MissingColumn(Seq<char>),
    MissingValues(DatabaseAction),
    UnsupportedType(Seq<char>),
    TypeMismatch(Seq<char>, Seq<char>, Seq<char>),
    ActionNotImplemented(DatabaseAction),
    ParseError(Seq<char>),
    StoreError(Seq<char>),
}

impl View for QueryError {
    type V = ErrorModel;

    open spec fn view(&self) -> ErrorModel {
        match self {
            QueryError::InvalidIdentifier(n) => ErrorModel::InvalidIdentifier(n@),
            QueryError::UnknownColumn(c, t) => ErrorModel::UnknownColumn(c@, t@),
            QueryError::MissingColumn(c) => ErrorModel::MissingColumn(c@),
            QueryError::MissingValues(a) => ErrorModel::MissingValues(*a),
            QueryError::UnsupportedType(t) => ErrorModel::UnsupportedType(t@),
            QueryError::TypeMismatch(c, t, r) => ErrorModel::TypeMismatch(c@, t@, r@),
            QueryError::ActionNotImplemented(a) => ErrorModel::ActionNotImplemented(*a),
            QueryError::ParseError(d) => ErrorModel::ParseError(d@),
            QueryError::StoreError(d) => ErrorModel::StoreError(d@),
        }
    }
}

} // verus!
