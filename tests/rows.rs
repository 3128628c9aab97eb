use libsql_orm_core::rows::{count_result, named_columns, total_or_zero};
use libsql_orm_core::{QueryError, QueryResult, SqlValue};

#[test]
fn count_from_integer_row() {
    assert_eq!(count_result(Some(Some(SqlValue::Integer(42)))).unwrap(), 42);
    assert_eq!(count_result(Some(Some(SqlValue::Integer(-1)))).unwrap(), u64::MAX);
}

#[test]
fn count_errors() {
    match count_result(None) {
        Err(QueryError::Query(m)) => assert_eq!(m, "No count result"),
        other => panic!("unexpected {:?}", other),
    }
    match count_result(Some(Some(SqlValue::Text("3".to_string())))) {
        Err(QueryError::Query(m)) => assert_eq!(m, "Failed to get count"),
        other => panic!("unexpected {:?}", other),
    }
    assert!(matches!(count_result(Some(None)), Err(QueryError::Query(_))));
}

#[test]
fn paginated_total() {
    assert_eq!(total_or_zero(Some(Some(SqlValue::Integer(7)))), 7);
    assert_eq!(total_or_zero(Some(Some(SqlValue::Null))), 0);
    assert_eq!(total_or_zero(None), 0);
}

#[test]
fn unnamed_columns_are_skipped() {
    let r = named_columns(
        vec![Some("id".to_string()), None, Some("name".to_string())],
        vec![SqlValue::Integer(1), SqlValue::Null, SqlValue::Text("ann".to_string())],
    );
    assert_eq!(
        r,
        vec![
            ("id".to_string(), SqlValue::Integer(1)),
            ("name".to_string(), SqlValue::Text("ann".to_string())),
        ]
    );
    assert!(named_columns(vec![], vec![]).is_empty());
}

#[test]
fn result_envelopes() {
    let r = QueryResult::new(vec!["a", "b"]);
    assert_eq!(r.data, vec!["a", "b"]);
    assert_eq!(r.total, None);
    let t = QueryResult::with_total(vec![1], 100);
    assert_eq!(t.data, vec![1]);
    assert_eq!(t.total, Some(100));
}
