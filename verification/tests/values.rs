use query_engine::coerce::{convert_value, kind_of};
use query_engine::error::QueryError;
use query_engine::json::JsonValue;
use query_engine::values::{TableColumns, Values};

fn text(s: &str) -> JsonValue {
    JsonValue::Text(s.to_string())
}

#[test]
fn values_keep_the_order_in_which_they_were_put() {
    let mut values = Values::new();
    assert!(values.is_empty());
    values.insert("b".to_string(), JsonValue::Int(1));
    values.insert("a".to_string(), JsonValue::Int(2));
    values.insert("c".to_string(), JsonValue::Null);
    assert_eq!(values.len(), 3);
    assert_eq!(values.keys(), vec!["b".to_string(), "a".to_string(), "c".to_string()]);
    assert_eq!(values.key_at(1), "a");
    assert_eq!(values.value_at(1), &JsonValue::Int(2));
    assert_eq!(values.get("a"), Some(&JsonValue::Int(2)));
    assert_eq!(values.get("z"), None);
    assert!(values.contains_key("c"));
    assert!(!values.contains_key("C"));
    assert_eq!(values.find("c"), Some(2));
}

#[test]
fn a_value_put_again_keeps_its_place() {
    let mut values = Values::new();
    values.insert("a".to_string(), JsonValue::Int(1));
    values.insert("b".to_string(), JsonValue::Int(2));
    values.insert("a".to_string(), JsonValue::Int(3));
    assert_eq!(values.len(), 2);
    assert_eq!(values.keys(), vec!["a".to_string(), "b".to_string()]);
    assert_eq!(values.get("a"), Some(&JsonValue::Int(3)));
    let copy = values.clone();
    assert_eq!(copy, values);
}

#[test]
fn values_from_the_members_of_an_object() {
    let members = vec![
        ("a".to_string(), JsonValue::Int(1)),
        ("b".to_string(), JsonValue::Int(2)),
        ("a".to_string(), JsonValue::Int(3)),
    ];
    let values = Values::from_members(&members);
    assert_eq!(values.keys(), vec!["a".to_string(), "b".to_string()]);
    assert_eq!(values.get("a"), Some(&JsonValue::Int(3)));
}

#[test]
fn table_columns() {
    let mut columns = TableColumns::new();
    assert!(columns.is_empty());
    columns.insert("uid".to_string(), "bigint".to_string());
    columns.insert("email".to_string(), "text".to_string());
    columns.insert("uid".to_string(), "text".to_string());
    assert_eq!(columns.len(), 2);
    assert_eq!(columns.get("uid"), Some(&"text".to_string()));
    assert_eq!(columns.get("email"), Some(&"text".to_string()));
    assert_eq!(columns.get("owner"), None);
    assert_eq!(columns.find("email"), Some(1));
    assert_eq!(columns.clone(), columns);
}

#[test]
fn json_values_are_copied_whole() {
    let value = JsonValue::Object(vec![
        ("list".to_string(), JsonValue::Array(vec![JsonValue::Int(1), text("x"), JsonValue::Null])),
        ("inner".to_string(), JsonValue::Object(vec![("f".to_string(), JsonValue::Float(7))])),
        ("big".to_string(), JsonValue::UInt(u64::MAX)),
        ("flag".to_string(), JsonValue::Bool(true)),
    ]);
    assert_eq!(value.clone(), value);
}

#[test]
fn kinds_of_values() {
    assert_eq!(kind_of(&JsonValue::Null), "null");
    assert_eq!(kind_of(&JsonValue::Bool(false)), "boolean");
    assert_eq!(kind_of(&JsonValue::Int(-1)), "number");
    assert_eq!(kind_of(&JsonValue::UInt(1)), "number");
    assert_eq!(kind_of(&JsonValue::Float(0)), "number");
    assert_eq!(kind_of(&text("")), "string");
    assert_eq!(kind_of(&JsonValue::Array(Vec::new())), "array");
    assert_eq!(kind_of(&JsonValue::Object(Vec::new())), "object");
}

fn mismatch(column: &str, declared: &str, received: &str) -> Result<JsonValue, QueryError> {
    Err(QueryError::TypeMismatch(column.to_string(), declared.to_string(), received.to_string()))
}

#[test]
fn bigint_takes_integers_and_their_numerals() {
    assert_eq!(convert_value("uid", &JsonValue::Int(42), "bigint"), Ok(JsonValue::Int(42)));
    assert_eq!(convert_value("uid", &JsonValue::Int(i64::MIN), "bigint"), Ok(JsonValue::Int(i64::MIN)));
    assert_eq!(convert_value("uid", &JsonValue::UInt(42), "bigint"), Ok(JsonValue::Int(42)));
    assert_eq!(
        convert_value("uid", &JsonValue::UInt(9223372036854775807), "bigint"),
        Ok(JsonValue::Int(i64::MAX))
    );
    assert_eq!(convert_value("uid", &text("42"), "bigint"), Ok(JsonValue::Int(42)));
    assert_eq!(convert_value("uid", &text("-7"), "bigint"), Ok(JsonValue::Int(-7)));
}

#[test]
fn bigint_refuses_the_rest() {
    assert_eq!(
        convert_value("uid", &JsonValue::UInt(9223372036854775808), "bigint"),
        mismatch("uid", "bigint", "number")
    );
    assert_eq!(convert_value("uid", &JsonValue::Float(1), "bigint"), mismatch("uid", "bigint", "number"));
    assert_eq!(convert_value("uid", &text("4 2"), "bigint"), mismatch("uid", "bigint", "string"));
    assert_eq!(convert_value("uid", &text(""), "bigint"), mismatch("uid", "bigint", "string"));
    assert_eq!(convert_value("uid", &JsonValue::Bool(true), "bigint"), mismatch("uid", "bigint", "boolean"));
    assert_eq!(convert_value("uid", &JsonValue::Null, "bigint"), mismatch("uid", "bigint", "null"));
    assert_eq!(
        convert_value("uid", &JsonValue::Array(vec![JsonValue::Int(1)]), "bigint"),
        mismatch("uid", "bigint", "array")
    );
}

#[test]
fn text_takes_texts_only() {
    assert_eq!(convert_value("email", &text("a@b.co"), "text"), Ok(text("a@b.co")));
    assert_eq!(convert_value("email", &text(""), "text"), Ok(text("")));
    assert_eq!(convert_value("email", &JsonValue::Int(1), "text"), mismatch("email", "text", "number"));
    assert_eq!(convert_value("email", &JsonValue::Bool(true), "text"), mismatch("email", "text", "boolean"));
    assert_eq!(
        convert_value("email", &JsonValue::Object(Vec::new()), "text"),
        mismatch("email", "text", "object")
    );
}

#[test]
fn boolean_takes_booleans_only() {
    assert_eq!(convert_value("owner", &JsonValue::Bool(true), "boolean"), Ok(JsonValue::Bool(true)));
    assert_eq!(convert_value("owner", &JsonValue::Bool(false), "boolean"), Ok(JsonValue::Bool(false)));
    assert_eq!(convert_value("owner", &text("true"), "boolean"), mismatch("owner", "boolean", "string"));
    assert_eq!(convert_value("owner", &JsonValue::Int(1), "boolean"), mismatch("owner", "boolean", "number"));
}

#[test]
fn other_types_are_unsupported() {
    for declared in ["timestamp", "uuid", "float", "", "BIGINT", "Text", "bool", "int"] {
        assert_eq!(
            convert_value("c", &JsonValue::Int(1), declared),
            Err(QueryError::UnsupportedType(declared.to_string()))
        );
    }
}

#[test]
fn converting_twice_changes_nothing() {
    let cases = vec![
        ("bigint", text("42")),
        ("bigint", text("-0")),
        ("bigint", JsonValue::UInt(5)),
        ("bigint", JsonValue::Int(-5)),
        ("text", text("x")),
        ("boolean", JsonValue::Bool(true)),
    ];
    for (declared, value) in cases {
        let once = convert_value("c", &value, declared).unwrap();
        let twice = convert_value("c", &once, declared).unwrap();
        assert_eq!(once, twice);
    }
}
