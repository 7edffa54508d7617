use query_engine::error::QueryError;
use query_engine::filters::{placeholder_text, predicate_text, where_sql, where_values};
use query_engine::json::JsonValue;
use query_engine::model::{
    DatabaseAction, DatabaseRequest, DeleteAction, Filters, OrderBy, OrderDirection, WhereClause,
};
use query_engine::builder::{clone_values, normalize_table, validate_parts, values_missing};
use query_engine::values::Values;

fn values_of(entries: Vec<(&str, JsonValue)>) -> Values {
    let mut values = Values::new();
    for (key, value) in entries {
        values.insert(key.to_string(), value);
    }
    values
}

fn filters_with(clause: Option<WhereClause>) -> Filters {
    Filters { where_clause: clause, order_by: None, limit: None, offset: None }
}

#[test]
fn placeholders_and_predicates() {
    assert_eq!(placeholder_text(1), "$1");
    assert_eq!(placeholder_text(0), "$0");
    assert_eq!(placeholder_text(120), "$120");
    assert_eq!(predicate_text("uid", 3), "uid = $3");
}

#[test]
fn where_fragment_with_and() {
    let filters = filters_with(Some(WhereClause::And(values_of(vec![
        ("a", JsonValue::Int(1)),
        ("b", JsonValue::Text("x".to_string())),
    ]))));
    let mut index = 3;
    let (sql, values) = filters.build_where_caluse(&mut index).unwrap();
    assert_eq!(sql, " WHERE a = $3 AND b = $4");
    assert_eq!(values, vec![JsonValue::Int(1), JsonValue::Text("x".to_string())]);
    assert_eq!(index, 5);
}

#[test]
fn where_fragment_with_single_is_joined_as_and() {
    let filters = filters_with(Some(WhereClause::Single(values_of(vec![
        ("a", JsonValue::Int(1)),
        ("b", JsonValue::Int(2)),
    ]))));
    let mut index = 1;
    let (sql, values) = filters.build_where_caluse(&mut index).unwrap();
    assert_eq!(sql, " WHERE a = $1 AND b = $2");
    assert_eq!(values.len(), 2);
    assert_eq!(index, 3);
}

#[test]
fn where_fragment_with_or_is_in_parentheses() {
    let filters = filters_with(Some(WhereClause::Or(values_of(vec![
        ("a", JsonValue::Null),
        ("b", JsonValue::Bool(false)),
        ("c", JsonValue::Float(4607182418800017408)),
    ]))));
    let mut index = 9;
    let (sql, values) = filters.build_where_caluse(&mut index).unwrap();
    assert_eq!(sql, " WHERE (a = $9 OR b = $10 OR c = $11)");
    assert_eq!(
        values,
        vec![JsonValue::Null, JsonValue::Bool(false), JsonValue::Float(4607182418800017408)]
    );
    assert_eq!(index, 12);
}

#[test]
fn where_fragment_without_clause_is_empty() {
    let mut index = 4;
    let (sql, values) = filters_with(None).build_where_caluse(&mut index).unwrap();
    assert_eq!(sql, "");
    assert!(values.is_empty());
    assert_eq!(index, 4);
}

#[test]
fn where_fragment_refuses_a_bad_column_and_leaves_the_index() {
    let filters = filters_with(Some(WhereClause::Or(values_of(vec![
        ("a", JsonValue::Int(1)),
        ("b;", JsonValue::Int(2)),
        ("c'", JsonValue::Int(3)),
    ]))));
    let mut index = 2;
    assert_eq!(
        filters.build_where_caluse(&mut index),
        Err(QueryError::InvalidIdentifier("b;".to_string()))
    );
    assert_eq!(index, 2);
}

#[test]
fn where_values_and_text_apart() {
    let clause = WhereClause::And(values_of(vec![("a", JsonValue::Int(1))]));
    assert_eq!(where_values(&clause), Ok(vec![JsonValue::Int(1)]));
    assert_eq!(where_sql(&clause, 7), " WHERE a = $7");
    let empty = WhereClause::Or(Values::new());
    assert_eq!(where_values(&empty), Err(QueryError::InvalidIdentifier(String::new())));
    assert_eq!(clause.entries().len(), 1);
    assert_eq!(clause.clone(), clause);
}

#[test]
fn order_limit_and_offset() {
    let filters = Filters {
        where_clause: None,
        order_by: Some(OrderBy { column: "created_at".to_string(), direction: OrderDirection::Desc }),
        limit: Some(0),
        offset: Some(4294967295),
    };
    assert_eq!(filters.build_order_by(), Ok(" ORDER BY created_at DESC".to_string()));
    assert_eq!(filters.build_limit(), Ok(" LIMIT 0".to_string()));
    assert_eq!(filters.build_offset(), Ok(" OFFSET 4294967295".to_string()));
    let none = Filters::default();
    assert_eq!(none.build_order_by(), Ok(String::new()));
    assert_eq!(none.build_limit(), Ok(String::new()));
    assert_eq!(none.build_offset(), Ok(String::new()));
    assert_eq!(filters.clone(), filters);
}

#[test]
fn order_refuses_a_bad_column() {
    let filters = Filters {
        where_clause: None,
        order_by: Some(OrderBy { column: "".to_string(), direction: OrderDirection::Asc }),
        limit: None,
        offset: None,
    };
    assert_eq!(filters.build_order_by(), Err(QueryError::InvalidIdentifier(String::new())));
}

#[test]
fn tables_are_normalized() {
    assert_eq!(normalize_table("Users"), Ok("users".to_string()));
    assert_eq!(normalize_table("  auth _ TOKENS \n"), Ok("auth_tokens".to_string()));
    assert_eq!(normalize_table("t1"), Ok("t1".to_string()));
    assert_eq!(normalize_table(""), Err(QueryError::InvalidIdentifier(String::new())));
    assert_eq!(normalize_table("a-b c"), Err(QueryError::InvalidIdentifier("a-bc".to_string())));
}

#[test]
fn validation_normalizes_the_table_in_place() {
    let mut request = DatabaseRequest {
        table: " Auth Tokens ".to_string(),
        action: DatabaseAction::Retrieve,
        values: None,
        bulk_values: None,
        filters: None,
    };
    assert_eq!(request.validate(), Ok(()));
    assert_eq!(request.table, "authtokens");
    assert_eq!(request.action, DatabaseAction::Retrieve);
}

#[test]
fn validation_leaves_a_refused_table_stripped() {
    let mut request = DatabaseRequest { table: "Bad Name!".to_string(), ..DatabaseRequest::default() };
    assert_eq!(request.validate(), Err(QueryError::InvalidIdentifier("BadName!".to_string())));
    assert_eq!(request.table, "BadName!");
}

#[test]
fn validation_asks_for_values() {
    for action in [DatabaseAction::Insert, DatabaseAction::Update, DatabaseAction::BulkInsert] {
        let mut request = DatabaseRequest {
            table: "Users".to_string(),
            action,
            values: None,
            bulk_values: None,
            filters: None,
        };
        assert_eq!(request.validate(), Err(QueryError::MissingValues(action)));
        assert_eq!(request.table, "users");
    }
    let mut empty = DatabaseRequest {
        table: "users".to_string(),
        action: DatabaseAction::Insert,
        values: Some(Values::new()),
        bulk_values: Some(vec![Values::new()]),
        filters: None,
    };
    assert_eq!(empty.validate(), Err(QueryError::MissingValues(DatabaseAction::Insert)));
    empty.action = DatabaseAction::BulkInsert;
    assert_eq!(empty.validate(), Ok(()));
    empty.action = DatabaseAction::Update;
    empty.values = Some(values_of(vec![("a", JsonValue::Int(1))]));
    assert_eq!(empty.validate(), Ok(()));
}

#[test]
fn validation_asks_nothing_of_retrieve_and_delete() {
    for action in [
        DatabaseAction::Retrieve,
        DatabaseAction::Delete(DeleteAction::DeleteTable),
        DatabaseAction::Delete(DeleteAction::DeleteValue),
    ] {
        assert!(!values_missing(action, &None, &None));
        let mut table = "T".to_string();
        assert_eq!(validate_parts(&mut table, action, &None, &None), Ok(()));
        assert_eq!(table, "t");
    }
    assert!(values_missing(DatabaseAction::Insert, &None, &Some(vec![Values::new()])));
    assert!(values_missing(DatabaseAction::BulkInsert, &Some(Values::new()), &Some(Vec::new())));
}

#[test]
fn words_name_directions_and_actions() {
    assert_eq!(OrderDirection::from_str("asc"), Ok(OrderDirection::Asc));
    assert_eq!(OrderDirection::from_str("DESC"), Ok(OrderDirection::Desc));
    assert_eq!(OrderDirection::from_str("Asc"), Ok(OrderDirection::Asc));
    assert_eq!(
        OrderDirection::from_str("up"),
        Err("invalid order_direction type: up".to_string())
    );
    assert_eq!(DatabaseAction::from_str("Insert"), Ok(DatabaseAction::Insert));
    assert_eq!(DatabaseAction::from_str("UPDATE"), Ok(DatabaseAction::Update));
    assert_eq!(
        DatabaseAction::from_str("delete"),
        Ok(DatabaseAction::Delete(DeleteAction::DeleteValue))
    );
    assert_eq!(
        DatabaseAction::from_str("retrieve"),
        Err("invalid database_action type: retrieve".to_string())
    );
}

#[test]
fn values_are_copied() {
    let values = vec![JsonValue::Int(1), JsonValue::Text("x".to_string())];
    assert_eq!(clone_values(&values), values);
    let order = OrderBy { column: "uid".to_string(), direction: OrderDirection::Asc };
    assert_eq!(order.clone(), order);
}
