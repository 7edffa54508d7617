use query_engine::entities::{
    project_values, row_bool, row_int, row_text, AuthTokens, AuthUser, Rehydrate, RowError,
    TableModel, User,
};
use query_engine::error::QueryError;
use query_engine::json::JsonValue;
use query_engine::jwt::UserClaims;
use query_engine::model::{DatabaseAction, Filters, QueryBuilder, WhereClause};
use query_engine::registry::{Maker, ModelEntry, ModelFactory, ModelRegistry};
use query_engine::response::DatabaseResponse;
use query_engine::token::{
    after_lookup, after_store, claimed_uid, expiry_after, is_recorded, issue, lookup_request,
    new_claims, refuse_unread, store_request, token_row,
};
use query_engine::values::{TableColumns, Values};

fn text(s: &str) -> JsonValue {
    JsonValue::Text(s.to_string())
}

fn values_of(entries: Vec<(&str, JsonValue)>) -> Values {
    let mut values = Values::new();
    for (key, value) in entries {
        values.insert(key.to_string(), value);
    }
    values
}

fn object(entries: Vec<(&str, JsonValue)>) -> JsonValue {
    JsonValue::Object(entries.into_iter().map(|(k, v)| (k.to_string(), v)).collect())
}

fn a_user() -> User {
    User {
        uid: 7,
        email: "a@b.co".to_string(),
        owner: true,
        email_verified: false,
        username: "alice".to_string(),
    }
}

fn a_token() -> AuthTokens {
    AuthTokens { jti: "j-1".to_string(), uid: -3, expires_at: 99 }
}

#[test]
fn cells_of_a_row() {
    let row = values_of(vec![
        ("uid", JsonValue::Int(7)),
        ("big", JsonValue::UInt(u64::MAX)),
        ("small", JsonValue::UInt(8)),
        ("name", text("n")),
        ("flag", JsonValue::Bool(true)),
        ("none", JsonValue::Null),
    ]);
    assert_eq!(row_int(&row, "uid"), Ok(7));
    assert_eq!(row_int(&row, "small"), Ok(8));
    assert_eq!(row_int(&row, "big"), Err(RowError::ColumnDecode("big".to_string())));
    assert_eq!(row_int(&row, "name"), Err(RowError::ColumnDecode("name".to_string())));
    assert_eq!(row_int(&row, "gone"), Err(RowError::ColumnNotFound("gone".to_string())));
    assert_eq!(row_text(&row, "name"), Ok("n".to_string()));
    assert_eq!(row_text(&row, "none"), Err(RowError::ColumnDecode("none".to_string())));
    assert_eq!(row_text(&row, "gone"), Err(RowError::ColumnNotFound("gone".to_string())));
    assert_eq!(row_bool(&row, "flag"), Ok(true));
    assert_eq!(row_bool(&row, "uid"), Err(RowError::ColumnDecode("uid".to_string())));
    assert_eq!(row_bool(&row, "gone"), Err(RowError::ColumnNotFound("gone".to_string())));
}

#[test]
fn users_from_rows() {
    let row = values_of(vec![
        ("username", text("alice")),
        ("uid", JsonValue::Int(7)),
        ("owner", JsonValue::Bool(true)),
        ("email", text("a@b.co")),
        ("email_verified", JsonValue::Bool(false)),
        ("extra", JsonValue::Null),
    ]);
    assert_eq!(User::from_row(&row), Ok(a_user()));
    let no_owner = values_of(vec![("uid", JsonValue::Int(7)), ("email", text("a@b.co"))]);
    assert_eq!(User::from_row(&no_owner), Err(RowError::ColumnNotFound("owner".to_string())));
    let bad_uid = values_of(vec![("uid", text("7")), ("email", JsonValue::Int(1))]);
    assert_eq!(User::from_row(&bad_uid), Err(RowError::ColumnDecode("uid".to_string())));
    assert_eq!(User::from_row(&Values::new()), Err(RowError::ColumnNotFound("uid".to_string())));
}

#[test]
fn users_as_values() {
    let user = a_user();
    assert_eq!(User::table_name(), "users");
    assert_eq!(
        user.debug_string(),
        "User { uid: 7, email: a@b.co, owner: true, email_verified: false, username: alice }"
    );
    let columns = vec![
        ("uid", JsonValue::Int(7)),
        ("email", text("a@b.co")),
        ("owner", JsonValue::Bool(true)),
        ("email_verified", JsonValue::Bool(false)),
        ("username", text("alice")),
    ];
    assert_eq!(user.as_value(), object(columns.clone()));
    assert_eq!(user.as_hash_map(), values_of(columns));
    assert_eq!(User::from_row(&user.as_hash_map()), Ok(a_user()));
}

#[test]
fn users_by_some_of_their_columns() {
    let user = a_user();
    assert_eq!(
        user.get_keys_as_hashmap(vec!["username", "nothing", "uid", "username"]),
        values_of(vec![("username", text("alice")), ("uid", JsonValue::Int(7))])
    );
    assert_eq!(user.get_keys_as_hashmap(Vec::new()), Values::new());
    assert_eq!(
        project_values(&user.as_hash_map(), &vec!["owner"]),
        values_of(vec![("owner", JsonValue::Bool(true))])
    );
}

#[test]
fn accounts() {
    let account = AuthUser {
        uid: -1,
        email: "a@b.co".to_string(),
        email_verified: true,
        username: "bob".to_string(),
        password_hash: "$2b$".to_string(),
    };
    assert_eq!(AuthUser::table_name(), "auth_users");
    assert_eq!(
        account.debug_string(),
        "AuthUser { uid: -1, email: a@b.co, email_verified: true, username: bob, password_hash: $2b$ }"
    );
    let columns = vec![
        ("uid", JsonValue::Int(-1)),
        ("email", text("a@b.co")),
        ("email_verified", JsonValue::Bool(true)),
        ("username", text("bob")),
        ("password_hash", text("$2b$")),
    ];
    assert_eq!(account.as_value(), object(columns.clone()));
    assert_eq!(account.as_hash_map(), values_of(columns));
    assert_eq!(AuthUser::from_row(&account.as_hash_map()), Ok(account));
    assert_eq!(
        AuthUser::from_row(&values_of(vec![("uid", JsonValue::Int(1)), ("email", text("e"))])),
        Err(RowError::ColumnNotFound("email_verified".to_string()))
    );
}

#[test]
fn tokens() {
    let token = a_token();
    assert_eq!(AuthTokens::table_name(), "auth_tokens");
    assert_eq!(token.debug_string(), "AuthToken { uid: -3, jti: j-1, expires_at: 99 }");
    let columns =
        vec![("uid", JsonValue::Int(-3)), ("jti", text("j-1")), ("expires_at", JsonValue::Int(99))];
    assert_eq!(token.as_value(), object(columns.clone()));
    assert_eq!(token.as_hash_map(), values_of(columns));
    assert_eq!(AuthTokens::from_row(&token.as_hash_map()), Ok(a_token()));
    assert_eq!(
        AuthTokens::from_row(&values_of(vec![("uid", JsonValue::Int(1))])),
        Err(RowError::ColumnNotFound("jti".to_string()))
    );
    assert_eq!(
        token.get_keys_as_hashmap(vec!["expires_at", "jti"]),
        values_of(vec![("expires_at", JsonValue::Int(99)), ("jti", text("j-1"))])
    );
}

#[test]
fn registry_of_tables() {
    let mut registry = ModelRegistry::new();
    assert!(registry.get("users").is_none());
    registry.register::<User>();
    registry.register::<AuthTokens>();
    registry.register::<User>();
    assert!(registry.get("auth_users").is_none());
    assert!(registry.get("Users").is_none());
    let entry = registry.get("auth_tokens").unwrap();
    let made = entry.factory.make(&a_token().as_hash_map()).unwrap();
    assert_eq!(made.debug_string(), "AuthToken { uid: -3, jti: j-1, expires_at: 99 }");
    assert_eq!(made.as_value(), a_token().as_value());
    let user = registry.get("users").unwrap().factory.make(&a_user().as_hash_map()).unwrap();
    assert_eq!(user.as_hash_map(), a_user().as_hash_map());
    assert!(registry.get("users").unwrap().factory.make(&Values::new()).is_err());
}

#[test]
fn the_last_entry_of_a_table_stays() {
    let mut registry = ModelRegistry::new();
    registry.register::<User>();
    registry.register::<AuthUser>();
    registry.insert("users", ModelEntry::of::<AuthTokens>());
    let made = registry.get("users").unwrap().factory.make(&a_token().as_hash_map()).unwrap();
    assert_eq!(made.as_value(), a_token().as_value());
    assert!(registry.get("users").unwrap().factory.make(&a_user().as_hash_map()).is_err());
    assert!(registry.get("auth_users").is_some());
    assert!(registry.get("auth_tokens").is_none());
}

#[test]
fn envelopes_are_read() {
    let error = object(vec![("Error", object(vec![("error", text("boom"))]))]);
    assert_eq!(
        DatabaseResponse::from_value(&error),
        Ok(DatabaseResponse::Error { error: "boom".to_string() })
    );
    let status = object(vec![("Status", object(vec![("more", JsonValue::Null), ("status", text("ok"))]))]);
    assert_eq!(
        DatabaseResponse::from_value(&status),
        Ok(DatabaseResponse::Status { status: "ok".to_string() })
    );
    let data = object(vec![("Data", JsonValue::Array(vec![a_token().as_value(), JsonValue::Int(1)]))]);
    assert_eq!(
        DatabaseResponse::from_value(&data),
        Ok(DatabaseResponse::Data(vec![a_token().as_value(), JsonValue::Int(1)]))
    );
}

fn parse_error(detail: &str) -> Result<DatabaseResponse<JsonValue>, QueryError> {
    Err(QueryError::ParseError(detail.to_string()))
}

#[test]
fn what_is_no_envelope_is_refused() {
    let one = "expected an object with exactly one of the members Error, Status, Data";
    assert_eq!(DatabaseResponse::from_value(&JsonValue::Null), parse_error(one));
    assert_eq!(DatabaseResponse::from_value(&JsonValue::Array(Vec::new())), parse_error(one));
    assert_eq!(DatabaseResponse::from_value(&object(Vec::new())), parse_error(one));
    assert_eq!(
        DatabaseResponse::from_value(&object(vec![
            ("Data", JsonValue::Array(Vec::new())),
            ("Status", object(vec![("status", text("ok"))])),
        ])),
        parse_error(one)
    );
    assert_eq!(
        DatabaseResponse::from_value(&object(vec![("data", JsonValue::Array(Vec::new()))])),
        parse_error("unknown variant, expected one of Error, Status, Data")
    );
    assert_eq!(
        DatabaseResponse::from_value(&object(vec![("Error", text("boom"))])),
        parse_error("Error: expected an object with a string member error")
    );
    assert_eq!(
        DatabaseResponse::from_value(&object(vec![("Error", object(vec![("error", JsonValue::Int(1))]))])),
        parse_error("Error: expected an object with a string member error")
    );
    assert_eq!(
        DatabaseResponse::from_value(&object(vec![("Status", object(Vec::new()))])),
        parse_error("Status: expected an object with a string member status")
    );
    assert_eq!(
        DatabaseResponse::from_value(&object(vec![("Data", object(Vec::new()))])),
        parse_error("Data: expected an array")
    );
}

#[test]
fn envelopes_are_written_and_read_again() {
    let answers = vec![
        DatabaseResponse::Error { error: "boom".to_string() },
        DatabaseResponse::Error { error: String::new() },
        DatabaseResponse::Status { status: "inserted".to_string() },
        DatabaseResponse::Data(Vec::new()),
        DatabaseResponse::Data(vec![a_user().as_value(), JsonValue::Null, text("x")]),
    ];
    for answer in answers {
        assert_eq!(DatabaseResponse::from_value(&answer.to_value()), Ok(answer));
    }
    assert_eq!(
        DatabaseResponse::Status { status: "ok".to_string() }.to_value(),
        object(vec![("Status", object(vec![("status", text("ok"))]))])
    );
}

#[test]
fn answers_are_told_apart() {
    let error: DatabaseResponse<User> = DatabaseResponse::Error { error: "boom".to_string() };
    assert!(error.is_error());
    assert_eq!(error.error_message(), Some("boom"));
    assert_eq!(error.get_data(), None);
    let status: DatabaseResponse<User> = DatabaseResponse::Status { status: "ok".to_string() };
    assert!(!status.is_error());
    assert_eq!(status.error_message(), None);
    assert_eq!(status.get_data(), None);
    let data = DatabaseResponse::Data(vec![a_user()]);
    assert!(!data.is_error());
    assert_eq!(data.error_message(), None);
    assert_eq!(data.get_data(), Some(vec![a_user()]));
}

#[test]
fn rows_become_entities() {
    let data = DatabaseResponse::Data(vec![a_token().as_value(), a_token().as_value()]);
    assert_eq!(
        data.into_entities::<AuthTokens>(),
        Ok(DatabaseResponse::Data(vec![a_token(), a_token()]))
    );
    let mixed = DatabaseResponse::Data(vec![a_token().as_value(), a_user().as_value()]);
    assert_eq!(
        mixed.into_entities::<AuthTokens>(),
        Err(QueryError::ParseError("Data: a row is no entity of the table".to_string()))
    );
    let no_object = DatabaseResponse::Data(vec![JsonValue::Int(1)]);
    assert!(no_object.into_entities::<User>().is_err());
    let error: DatabaseResponse<JsonValue> = DatabaseResponse::Error { error: "e".to_string() };
    assert_eq!(
        error.into_entities::<User>(),
        Ok(DatabaseResponse::Error { error: "e".to_string() })
    );
    let status: DatabaseResponse<JsonValue> = DatabaseResponse::Status { status: "s".to_string() };
    assert_eq!(
        status.into_entities::<User>(),
        Ok(DatabaseResponse::Status { status: "s".to_string() })
    );
}

#[test]
fn a_token_is_issued() {
    assert_eq!(expiry_after(100, 50), Some(150));
    assert_eq!(expiry_after(1, usize::MAX), None);
    assert_eq!(expiry_after(0, usize::MAX), Some(usize::MAX));
    let claims = new_claims(42, "j-1", 150);
    assert_eq!(claims, UserClaims { user_id: "42".to_string(), exp: 150, jti: "j-1".to_string() });
    let row = token_row(42, "j-1", 150);
    assert_eq!(row, AuthTokens { jti: "j-1".to_string(), uid: 42, expires_at: 150 });
    let request = store_request(&row);
    assert_eq!(request.table, "auth_tokens");
    assert_eq!(request.action, DatabaseAction::Insert);
    assert_eq!(request.values, Some(row.as_hash_map()));
    assert!(request.bulk_values.is_none() && request.filters.is_none());
    let mut columns = TableColumns::new();
    columns.insert("uid".to_string(), "bigint".to_string());
    columns.insert("jti".to_string(), "text".to_string());
    columns.insert("expires_at".to_string(), "bigint".to_string());
    let mut builder = QueryBuilder::new(
        request.table,
        request.action,
        request.bulk_values,
        request.values,
        Some(columns),
        request.filters,
    );
    let (sql, bindings) = builder.build_query().unwrap();
    assert_eq!(sql, "INSERT INTO auth_tokens (uid, jti, expires_at) VALUES ($1, $2, $3)");
    assert_eq!(bindings, vec![JsonValue::Int(42), text("j-1"), JsonValue::Int(150)]);
}

#[test]
fn a_new_token_has_its_own_identifier() {
    let (claims, request) = issue(42, 1000, 60).unwrap();
    assert_eq!(claims.user_id, "42");
    assert_eq!(claims.exp, 1060);
    assert_eq!(claims.jti.len(), 36);
    assert_eq!(request.table, "auth_tokens");
    assert_eq!(request.action, DatabaseAction::Insert);
    assert_eq!(request.values, Some(token_row(42, &claims.jti, 1060).as_hash_map()));
    assert!(request.bulk_values.is_none() && request.filters.is_none());
    let (other, _) = issue(42, 1000, 60).unwrap();
    assert_ne!(other.jti, claims.jti);
    assert!(issue(42, 1, usize::MAX).is_none());
    assert_eq!(refuse_unread("ExpiredSignature".to_string()), ("ExpiredSignature".to_string(), 401));
}

#[test]
fn factories_make_what_their_table_holds() {
    let entry = ModelEntry::of::<AuthUser>();
    assert!(entry.factory.make(&a_user().as_hash_map()).is_err());
    let account = AuthUser {
        uid: 1,
        email: "e".to_string(),
        email_verified: false,
        username: "u".to_string(),
        password_hash: "h".to_string(),
    };
    let made = entry.factory.make(&account.as_hash_map()).unwrap();
    assert_eq!(made.as_hash_map(), account.as_hash_map());
    let token = AuthTokens::rehydrate(&a_token().as_hash_map()).unwrap();
    assert_eq!(token.as_value(), a_token().as_value());
    assert_eq!(
        User::rehydrate(&a_token().as_hash_map()).err(),
        Some(RowError::ColumnNotFound("email".to_string()))
    );
    assert_eq!(Maker::<User>::fresh().make(&a_user().as_hash_map()).unwrap().as_value(), a_user().as_value());
}

#[test]
fn a_token_is_looked_up() {
    let request = lookup_request(42);
    assert_eq!(request.table, "auth_tokens");
    assert_eq!(request.action, DatabaseAction::Retrieve);
    assert_eq!(
        request.filters,
        Some(Filters {
            where_clause: Some(WhereClause::Single(values_of(vec![("uid", JsonValue::Int(42))]))),
            order_by: None,
            limit: None,
            offset: None,
        })
    );
    assert!(request.values.is_none() && request.bulk_values.is_none());
    let claims = new_claims(42, "j-1", 150);
    assert_eq!(claimed_uid(&claims), Ok(42));
    let forged = UserClaims { user_id: "4x2".to_string(), exp: 1, jti: "j".to_string() };
    assert_eq!(
        claimed_uid(&forged),
        Err(("the user of the token is not a number".to_string(), 500))
    );
}

#[test]
fn answers_to_a_stored_token() {
    assert_eq!(after_store(None), Ok(()));
    assert_eq!(after_store(Some(&DatabaseResponse::Status { status: "ok".to_string() })), Ok(()));
    assert_eq!(after_store(Some(&DatabaseResponse::Data(Vec::new()))), Ok(()));
    assert_eq!(
        after_store(Some(&DatabaseResponse::Error { error: "duplicate key".to_string() })),
        Err(QueryError::StoreError("duplicate key".to_string()))
    );
}

#[test]
fn answers_to_a_lookup() {
    let rows = vec![
        AuthTokens { jti: "a".to_string(), uid: 1, expires_at: 1 },
        AuthTokens { jti: "b".to_string(), uid: 1, expires_at: 2 },
    ];
    assert!(is_recorded(&rows, "b"));
    assert!(!is_recorded(&rows, "c"));
    assert!(!is_recorded(&Vec::new(), "a"));
    let data = DatabaseResponse::Data(rows);
    assert_eq!(after_lookup("a", Some(&data)), Ok(()));
    assert_eq!(
        after_lookup("z", Some(&data)),
        Err((
            "token rejected. could not verify the trustworthiness of this token".to_string(),
            401
        ))
    );
    assert_eq!(after_lookup("a", None), Err(("Database response failed".to_string(), 500)));
    assert_eq!(
        after_lookup("a", Some(&DatabaseResponse::Error { error: "down".to_string() })),
        Err(("down".to_string(), 500))
    );
    assert_eq!(
        after_lookup("a", Some(&DatabaseResponse::Status { status: "ok".to_string() })),
        Err(("an unknown database error occurred.".to_string(), 500))
    );
}
