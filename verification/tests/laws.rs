use query_engine::json::JsonValue;
use query_engine::model::{
    DatabaseAction, DeleteAction, Filters, OrderBy, OrderDirection, QueryBuilder, WhereClause,
};
use query_engine::values::{TableColumns, Values};

fn values_of(entries: Vec<(&str, JsonValue)>) -> Values {
    let mut values = Values::new();
    for (key, value) in entries {
        values.insert(key.to_string(), value);
    }
    values
}

fn typed(names: &[&str]) -> TableColumns {
    let mut columns = TableColumns::new();
    for name in names {
        columns.insert(name.to_string(), "bigint".to_string());
    }
    columns
}

fn numbered(names: &[&str], from: i64) -> Values {
    let mut values = Values::new();
    for (i, name) in names.iter().enumerate() {
        values.insert(name.to_string(), JsonValue::Int(from + i as i64));
    }
    values
}

fn placeholders_in(sql: &str) -> Vec<usize> {
    let chars: Vec<char> = sql.chars().collect();
    let mut found = Vec::new();
    let mut i = 0;
    while i < chars.len() {
        if chars[i] == '$' {
            let mut j = i + 1;
            while j < chars.len() && chars[j].is_ascii_digit() {
                j += 1;
            }
            if j > i + 1 {
                found.push(chars[i + 1..j].iter().collect::<String>().parse().unwrap());
            }
        }
        i += 1;
    }
    found
}

fn filters(where_names: &[&str], or: bool) -> Filters {
    let map = numbered(where_names, 100);
    Filters {
        where_clause: Some(if or { WhereClause::Or(map) } else { WhereClause::And(map) }),
        order_by: Some(OrderBy { column: "c0".to_string(), direction: OrderDirection::Asc }),
        limit: Some(12),
        offset: Some(3),
    }
}

fn builders() -> Vec<QueryBuilder> {
    let names = ["c0", "1c", "c_2", "C3", "c4", "c5", "c6", "c7", "c8", "c9", "c10", "c11"];
    let mut all = Vec::new();
    for action in [
        DatabaseAction::Retrieve,
        DatabaseAction::Insert,
        DatabaseAction::BulkInsert,
        DatabaseAction::Update,
        DatabaseAction::Delete(DeleteAction::DeleteValue),
        DatabaseAction::Delete(DeleteAction::DeleteTable),
    ] {
        for width in [1usize, 3, 12] {
            for with_filters in [None, Some(false), Some(true)] {
                let rows = (0..4).map(|r| numbered(&names[..width], 10 * r)).collect();
                all.push(QueryBuilder::new(
                    "T9".to_string(),
                    action,
                    Some(rows),
                    Some(numbered(&names[..width], 0)),
                    Some(typed(&names)),
                    with_filters.map(|or| filters(&names[..width], or)),
                ));
            }
        }
    }
    all
}

#[test]
fn placeholders_number_the_bound_values() {
    let mut seen = 0;
    for mut builder in builders() {
        let (sql, bindings) = builder.build_query().unwrap();
        let expected: Vec<usize> = (1..=bindings.len()).collect();
        assert_eq!(placeholders_in(&sql), expected, "{}", sql);
        assert_eq!(builder.bind_params, bindings);
        seen += bindings.len();
    }
    assert!(seen > 300);
}

#[test]
fn an_update_binds_its_values_before_those_of_the_where_clause() {
    let mut builder = QueryBuilder::new(
        "t".to_string(),
        DatabaseAction::Update,
        None,
        Some(numbered(&["a", "b"], 1)),
        Some(typed(&["a", "b"])),
        Some(filters(&["x", "y"], true)),
    );
    let (sql, bindings) = builder.build_query().unwrap();
    assert_eq!(sql, "UPDATE t SET a = $1, b = $2 WHERE (x = $3 OR y = $4)");
    assert_eq!(
        bindings,
        vec![JsonValue::Int(1), JsonValue::Int(2), JsonValue::Int(100), JsonValue::Int(101)]
    );
}

#[test]
fn an_insert_numbers_a_where_clause_after_its_values() {
    let mut builder = QueryBuilder::new(
        "t".to_string(),
        DatabaseAction::Insert,
        None,
        Some(numbered(&["a", "b"], 1)),
        Some(typed(&["a", "b"])),
        Some(filters(&["x"], false)),
    );
    let (sql, bindings) = builder.build_query().unwrap();
    assert_eq!(sql, "INSERT INTO t (a, b) VALUES ($1, $2) WHERE x = $3");
    assert_eq!(bindings.len(), 3);
}

#[test]
fn building_twice_gives_the_same_statement() {
    let mut builder = QueryBuilder::new(
        " T ".to_string(),
        DatabaseAction::Retrieve,
        None,
        None,
        None,
        Some(filters(&["x", "y"], false)),
    );
    let first = builder.build_query().unwrap();
    let second = builder.build_query().unwrap();
    assert_eq!(first, second);
    assert_eq!(builder.bind_params.len(), 2);
}

#[test]
fn dropping_a_table_writes_no_clause() {
    for table in ["where_order", "WHERE", "Limit", "OFFSET", "t"] {
        let mut builder = QueryBuilder::new(
            table.to_string(),
            DatabaseAction::Delete(DeleteAction::DeleteTable),
            Some(vec![Values::new()]),
            Some(values_of(vec![("a", JsonValue::Int(1))])),
            None,
            Some(filters(&["x", "y"], true)),
        );
        let (sql, bindings) = builder.build_query().unwrap();
        assert_eq!(sql, format!("DROP TABLE {}", table.to_lowercase()));
        assert!(bindings.is_empty());
        for word in ["WHERE", "ORDER", "LIMIT", "OFFSET", "$"] {
            assert!(!sql.contains(word), "{}", sql);
        }
    }
}

#[test]
fn deleting_rows_without_a_where_clause_truncates() {
    let without_where = Filters {
        where_clause: None,
        order_by: None,
        limit: Some(1),
        offset: None,
    };
    for given in [None, Some(without_where)] {
        let mut builder = QueryBuilder::new(
            "Sessions".to_string(),
            DatabaseAction::Delete(DeleteAction::DeleteValue),
            None,
            None,
            None,
            given,
        );
        let (sql, bindings) = builder.build_query().unwrap();
        assert!(sql.starts_with("TRUNCATE TABLE"));
        assert_eq!(sql, "TRUNCATE TABLE sessions");
        assert!(bindings.is_empty());
    }
}

#[test]
fn a_retrieve_without_filters_is_the_select_alone() {
    for (table, name) in [("users", "users"), ("A_1", "a_1"), ("9", "9")] {
        let mut builder = QueryBuilder::new(
            table.to_string(),
            DatabaseAction::Retrieve,
            Some(Vec::new()),
            Some(Values::new()),
            Some(TableColumns::new()),
            None,
        );
        let (sql, bindings) = builder.build_query().unwrap();
        assert_eq!(sql, format!("SELECT * FROM {}", name));
        assert!(bindings.is_empty());
    }
}

#[test]
fn names_in_statements_are_identifiers() {
    let bad = ["a b", "a;", "", "a'--"];
    for name in bad {
        let tried = vec![
            QueryBuilder::new(
                format!("{}!", name),
                DatabaseAction::Retrieve,
                None,
                None,
                None,
                None,
            ),
            QueryBuilder::new(
                "t".to_string(),
                DatabaseAction::Insert,
                None,
                Some(numbered(&["ok", name], 0)),
                Some(typed(&["ok", name])),
                None,
            ),
            QueryBuilder::new(
                "t".to_string(),
                DatabaseAction::Update,
                None,
                Some(numbered(&[name], 0)),
                Some(typed(&[name])),
                None,
            ),
            QueryBuilder::new(
                "t".to_string(),
                DatabaseAction::BulkInsert,
                Some(vec![numbered(&["ok", name], 0)]),
                None,
                Some(typed(&["ok", name])),
                None,
            ),
            QueryBuilder::new(
                "t".to_string(),
                DatabaseAction::Delete(DeleteAction::DeleteValue),
                None,
                None,
                None,
                Some(filters(&["ok", name], false)),
            ),
        ];
        for mut builder in tried {
            let outcome = builder.build_query();
            assert!(
                matches!(outcome, Err(query_engine::error::QueryError::InvalidIdentifier(_))),
                "{:?} {:?}",
                name,
                outcome
            );
        }
    }
}
