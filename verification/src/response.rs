//! The envelope in which the store answers: an error, a status, or rows.

use crate::entities::TableModel;
use crate::error::{ErrorModel, QueryError};
use crate::json::{lemma_array_view, lemma_object_view, models, JsonModel, JsonValue};
use crate::text::same_text;
use vstd::prelude::*;

verus! {

/// An answer of the store.
#[derive(Debug, PartialEq, Eq)]
pub enum DatabaseResponse<T> {
    Error { error: String },
    Status { status: String },
    Data(Vec<T>),
}

impl<T> DatabaseResponse<T> {
    pub fn is_error(&self) -> (r: bool)
        ensures
            r == (self is Error),
    {
        match self {
            DatabaseResponse::Error { .. } => true,
            _ => false,
        }
    }

    /// The words of the store, where the answer is an error.
    pub fn error_message(&self) -> (r: Option<&str>)
        ensures
            match r {
                Some(message) => self is Error && message@ == self->error@,
                None => !(self is Error),
            },
    {
        match self {
            DatabaseResponse::Error { error } => Some(error.as_str()),
            _ => None,
        }
    }

    /// The rows, where the answer holds rows.
    pub fn get_data(self) -> (r: Option<Vec<T>>)
        ensures
            r == match self {
                DatabaseResponse::Data(rows) => Some(rows),
                _ => None,
            },
    {
        match self {
            DatabaseResponse::Data(rows) => Some(rows),
            _ => None,
        }
    }
}

/// What an answer with rows as JSON values stands for.
pub enum ResponseModel {
    Error(Seq<char>),
    Status(Seq<char>),
    Data(Seq<JsonModel>),
}

impl View for DatabaseResponse<JsonValue> {
    type V = ResponseModel;

    open spec fn view(&self) -> ResponseModel {
        match self {
            DatabaseResponse::Error { error } => ResponseModel::Error(error@),
            DatabaseResponse::Status { status } => ResponseModel::Status(status@),
            DatabaseResponse::Data(rows) => ResponseModel::Data(models(rows@)),
        }
    }
}

/// Why a value is no envelope.
pub open spec fn not_one_member() -> Seq<char> {
    "expected an object with exactly one of the members Error, Status, Data"@
}

pub open spec fn unknown_member() -> Seq<char> {
    "unknown variant, expected one of Error, Status, Data"@
}

pub open spec fn bad_error() -> Seq<char> {
    "Error: expected an object with a string member error"@
}

pub open spec fn bad_status() -> Seq<char> {
    "Status: expected an object with a string member status"@
}

pub open spec fn bad_data() -> Seq<char> {
    "Data: expected an array"@
}

/// The first member of the object with that name that is a text.
pub open spec fn text_member(members: Seq<(Seq<char>, JsonModel)>, name: Seq<char>) -> Option<
    Seq<char>,
> {
    match crate::values::lookup(members, name) {
        Some(JsonModel::Text(s)) => Some(s),
        _ => None,
    }
}

/// The envelope written as a JSON value: an object with one member, named
/// after the kind of the answer.
pub open spec fn encode(response: ResponseModel) -> JsonModel {
    match response {
        ResponseModel::Error(error) => JsonModel::Object(
            seq![("Error"@, JsonModel::Object(seq![("error"@, JsonModel::Text(error))]))],
        ),
        ResponseModel::Status(status) => JsonModel::Object(
            seq![("Status"@, JsonModel::Object(seq![("status"@, JsonModel::Text(status))]))],
        ),
        ResponseModel::Data(rows) => JsonModel::Object(seq![("Data"@, JsonModel::Array(rows))]),
    }
}

/// The envelope read from a JSON value.
pub open spec fn decode(value: JsonModel) -> Result<ResponseModel, ErrorModel> {
    match value {
        JsonModel::Object(members) => if members.len() != 1 {
            Err(ErrorModel::ParseError(not_one_member()))
        } else if members[0].0 == "Error"@ {
            match members[0].1 {
                JsonModel::Object(inner) => match text_member(inner, "error"@) {
                    Some(error) => Ok(ResponseModel::Error(error)),
                    None => Err(ErrorModel::ParseError(bad_error())),
                },
                _ => Err(ErrorModel::ParseError(bad_error())),
            }
        } else if members[0].0 == "Status"@ {
            match members[0].1 {
                JsonModel::Object(inner) => match text_member(inner, "status"@) {
                    Some(status) => Ok(ResponseModel::Status(status)),
                    None => Err(ErrorModel::ParseError(bad_status())),
                },
                _ => Err(ErrorModel::ParseError(bad_status())),
            }
        } else if members[0].0 == "Data"@ {
            match members[0].1 {
                JsonModel::Array(rows) => Ok(ResponseModel::Data(rows)),
                _ => Err(ErrorModel::ParseError(bad_data())),
            }
        } else {
            Err(ErrorModel::ParseError(unknown_member()))
        },
        _ => Err(ErrorModel::ParseError(not_one_member())),
    }
}

/// An envelope that is written and read again is the envelope.
pub proof fn lemma_decode_encode(response: ResponseModel)
    ensures
        decode(encode(response)) == Ok::<_, ErrorModel>(response),
{
    reveal_strlit("Error");
    reveal_strlit("Status");
    reveal_strlit("Data");
    assert("Error"@ != "Status"@) by {
        assert("Error"@[0] != "Status"@[0]);
    }
    assert("Error"@ != "Data"@) by {
        assert("Error"@[0] != "Data"@[0]);
    }
    assert("Status"@ != "Data"@) by {
        assert("Status"@[0] != "Data"@[0]);
    }
    match response {
        ResponseModel::Error(error) => {
            let inner = seq![("error"@, JsonModel::Text(error))];
            crate::values::lemma_position_at(inner, "error"@, 0);
        },
        ResponseModel::Status(status) => {
            let inner = seq![("status"@, JsonModel::Text(status))];
            crate::values::lemma_position_at(inner, "status"@, 0);
        },
        ResponseModel::Data(rows) => {},
    }
}

/// The first member named `name`, where it is a text.
fn find_text<'a>(members: &'a Vec<(String, JsonValue)>, name: &str) -> (r: Option<&'a String>)
    ensures
        match r {
            Some(s) => text_member(crate::json::member_models(members@), name@) == Some(s@),
            None => text_member(crate::json::member_models(members@), name@) is None,
        },
{
    let ghost all = crate::json::member_models(members@);
    let mut i: usize = 0;
    while i < members.len()
        invariant
            i <= members.len(),
            all == crate::json::member_models(members@),
            forall|j: int| 0 <= j < i ==> (#[trigger] all[j]).0 != name@,
        decreases members.len() - i,
    {
        if same_text(members[i].0.as_str(), name) {
            proof {
                crate::values::lemma_position_at(all, name@, i as int);
            }
            return match &members[i].1 {
                JsonValue::Text(s) => Some(s),
                _ => None,
            };
        }
        i += 1;
    }
    proof {
        crate::values::lemma_position(all, name@);
    }
    None
}

fn parse_error(detail: &str) -> (e: QueryError)
    ensures
        e@ == ErrorModel::ParseError(detail@),
{
    QueryError::ParseError(String::from_str(detail))
}

impl DatabaseResponse<JsonValue> {
    /// Reads the envelope from a JSON value. The rows stay JSON values.
    pub fn from_value(value: &JsonValue) -> (r: Result<Self, QueryError>)
        ensures
            match r {
                Ok(response) => decode(value@) == Ok::<_, ErrorModel>(response@),
                Err(e) => decode(value@) == Err::<ResponseModel, _>(e@),
            },
    {
        match value {
            JsonValue::Object(members) => {
                proof {
                    lemma_object_view(*members);
                }
                if members.len() != 1 {
                    return Err(
                        parse_error(
                            "expected an object with exactly one of the members Error, Status, Data",
                        ),
                    );
                }
                let name = members[0].0.as_str();
                let body = &members[0].1;
                if same_text(name, "Error") {
                    match body {
                        JsonValue::Object(inner) => {
                            proof {
                                lemma_object_view(*inner);
                            }
                            match find_text(inner, "error") {
                                Some(error) => Ok(DatabaseResponse::Error { error: error.clone() }),
                                None => Err(
                                    parse_error(
                                        "Error: expected an object with a string member error",
                                    ),
                                ),
                            }
                        },
                        _ => Err(
                            parse_error("Error: expected an object with a string member error"),
                        ),
                    }
                } else if same_text(name, "Status") {
                    match body {
                        JsonValue::Object(inner) => {
                            proof {
                                lemma_object_view(*inner);
                            }
                            match find_text(inner, "status") {
                                Some(status) => Ok(
                                    DatabaseResponse::Status { status: status.clone() },
                                ),
                                None => Err(
                                    parse_error(
                                        "Status: expected an object with a string member status",
                                    ),
                                ),
                            }
                        },
                        _ => Err(
                            parse_error("Status: expected an object with a string member status"),
                        ),
                    }
                } else if same_text(name, "Data") {
                    match body {
                        JsonValue::Array(rows) => {
                            proof {
                                lemma_array_view(*rows);
                            }
                            Ok(DatabaseResponse::Data(crate::builder::clone_values(rows)))
                        },
                        _ => Err(parse_error("Data: expected an array")),
                    }
                } else {
                    Err(parse_error("unknown variant, expected one of Error, Status, Data"))
                }
            },
            _ => Err(
                parse_error(
                    "expected an object with exactly one of the members Error, Status, Data",
                ),
            ),
        }
    }

    /// Writes the envelope as a JSON value.
    pub fn to_value(&self) -> (r: JsonValue)
        ensures
            r@ == encode(self@),
    {
        match self {
            DatabaseResponse::Error { error } => {
                let mut inner: Vec<(String, JsonValue)> = Vec::new();
                inner.push((String::from_str("error"), JsonValue::Text(error.clone())));
                let mut outer: Vec<(String, JsonValue)> = Vec::new();
                proof {
                    lemma_object_view(inner);
                    assert(crate::json::member_models(inner@) =~= seq![
                        ("error"@, JsonModel::Text(error@)),
                    ]);
                }
                outer.push((String::from_str("Error"), JsonValue::Object(inner)));
                proof {
                    lemma_object_view(outer);
                    assert(crate::json::member_models(outer@) =~= seq![
                        (
                            "Error"@,
                            JsonModel::Object(seq![("error"@, JsonModel::Text(error@))]),
                        ),
                    ]);
                }
                JsonValue::Object(outer)
            },
            DatabaseResponse::Status { status } => {
                let mut inner: Vec<(String, JsonValue)> = Vec::new();
                inner.push((String::from_str("status"), JsonValue::Text(status.clone())));
                let mut outer: Vec<(String, JsonValue)> = Vec::new();
                proof {
                    lemma_object_view(inner);
                    assert(crate::json::member_models(inner@) =~= seq![
                        ("status"@, JsonModel::Text(status@)),
                    ]);
                }
                outer.push((String::from_str("Status"), JsonValue::Object(inner)));
                proof {
                    lemma_object_view(outer);
                    assert(crate::json::member_models(outer@) =~= seq![
                        (
                            "Status"@,
                            JsonModel::Object(seq![("status"@, JsonModel::Text(status@))]),
                        ),
                    ]);
                }
                JsonValue::Object(outer)
            },
            DatabaseResponse::Data(rows) => {
                let copy = crate::builder::clone_values(rows);
                let mut outer: Vec<(String, JsonValue)> = Vec::new();
                proof {
                    lemma_array_view(copy);
                }
                outer.push((String::from_str("Data"), JsonValue::Array(copy)));
                proof {
                    lemma_object_view(outer);
                    assert(crate::json::member_models(outer@) =~= seq![
                        ("Data"@, JsonModel::Array(models(rows@))),
                    ]);
                }
                JsonValue::Object(outer)
            },
        }
    }
}

/// Whether a JSON value is a row of the table of `T`: an object whose
/// members make an entity.
pub open spec fn is_row_of<T: TableModel>(row: JsonModel) -> bool {
    match row {
        JsonModel::Object(members) => T::fits(crate::values::gathered(members)),
        _ => false,
    }
}

pub open spec fn not_a_row() -> Seq<char> {
    "Data: a row is no entity of the table"@
}

/// The entity that a JSON value holds.
fn entity_of<T: TableModel>(row: &JsonValue) -> (r: Option<T>)
    ensures
        r is Some <==> is_row_of::<T>(row@),
        r matches Some(entity) ==> forall|i: int|
            0 <= i < entity.columns().len() ==> crate::values::lookup(
                crate::values::gathered(row@->Object_0),
                (#[trigger] entity.columns()[i]).0,
            ) == Some(entity.columns()[i].1),
{
    match row {
        JsonValue::Object(members) => {
            proof {
                lemma_object_view(*members);
            }
            let values = crate::values::Values::from_members(members);
            match T::from_row(&values) {
                Ok(entity) => Some(entity),
                Err(_) => None,
            }
        },
        _ => None,
    }
}

impl DatabaseResponse<JsonValue> {
    /// The answer with each row made into an entity of the table of `T`.
    /// An error and a status stay as they are; rows are refused together
    /// where one of them is no entity.
    pub fn into_entities<T: TableModel>(self) -> (r: Result<DatabaseResponse<T>, QueryError>)
        ensures
            match self {
                DatabaseResponse::Error { error } => r matches Ok(DatabaseResponse::Error {
                    error: same,
                }) && same@ == error@,
                DatabaseResponse::Status { status } => r matches Ok(DatabaseResponse::Status {
                    status: same,
                }) && same@ == status@,
                DatabaseResponse::Data(rows) => if forall|i: int|
                    0 <= i < rows@.len() ==> is_row_of::<T>(#[trigger] rows@[i]@) {
                    r matches Ok(DatabaseResponse::Data(entities)) && entities@.len()
                        == rows@.len() && forall|i: int, j: int|
                        0 <= i < rows@.len() && 0 <= j < entities@[i].columns().len()
                            ==> crate::values::lookup(
                            crate::values::gathered(rows@[i]@->Object_0),
                            (#[trigger] entities@[i].columns()[j]).0,
                        ) == Some(entities@[i].columns()[j].1)
                } else {
                    r matches Err(e) && e@ == ErrorModel::ParseError(not_a_row())
                },
            },
    {
        match self {
            DatabaseResponse::Error { error } => Ok(DatabaseResponse::Error { error }),
            DatabaseResponse::Status { status } => Ok(DatabaseResponse::Status { status }),
            DatabaseResponse::Data(rows) => {
                let mut entities: Vec<T> = Vec::new();
                let mut i: usize = 0;
                while i < rows.len()
                    invariant
                        i <= rows.len(),
                        self == DatabaseResponse::<JsonValue>::Data(rows),
                        entities@.len() == i,
                        forall|k: int| 0 <= k < i ==> is_row_of::<T>(#[trigger] rows@[k]@),
                        forall|k: int, j: int|
                            0 <= k < i && 0 <= j < entities@[k].columns().len()
                                ==> crate::values::lookup(
                                crate::values::gathered(rows@[k]@->Object_0),
                                (#[trigger] entities@[k].columns()[j]).0,
                            ) == Some(entities@[k].columns()[j].1),
                    decreases rows.len() - i,
                {
                    match entity_of::<T>(&rows[i]) {
                        Some(entity) => {
                            entities.push(entity);
                        },
                        None => {
                            assert(!is_row_of::<T>(rows@[i as int]@));
                            return Err(parse_error("Data: a row is no entity of the table"));
                        },
                    }
                    i += 1;
                }
                Ok(DatabaseResponse::Data(entities))
            },
        }
    }
}

} // verus!
