use libsql_orm_core::filters::{Aggregate, Filter, FilterOperator, FilterValue, JoinType, Operator, Sort};
use libsql_orm_core::render::build_filter_operator;
use libsql_orm_core::{QueryBuilder, SqlValue, Value};

fn ival(i: i64) -> Value {
    Value::Integer(i)
}

fn single(column: &str, op: Operator, v: i64) -> FilterOperator {
    FilterOperator::Single(Filter::new(column, op, ival(v)))
}

fn marks(s: &str) -> usize {
    s.chars().filter(|c| *c == '?').count()
}

#[test]
fn not_of_single_filter() {
    let f = FilterOperator::negate(single("a", Operator::Eq, 1));
    let (sql, params) = build_filter_operator(&f);
    assert_eq!(sql, "NOT (a = ?)");
    assert_eq!(params, vec![SqlValue::Integer(1)]);
}

#[test]
fn and_with_nested_or() {
    let f = FilterOperator::And(vec![
        single("x", Operator::Gt, 5),
        FilterOperator::Or(vec![single("y", Operator::Eq, 1), single("y", Operator::Eq, 2)]),
    ]);
    let (sql, params) = build_filter_operator(&f);
    assert_eq!(sql, "(x > ? AND (y = ? OR y = ?))");
    assert_eq!(params, vec![SqlValue::Integer(5), SqlValue::Integer(1), SqlValue::Integer(2)]);
}

#[test]
fn in_list_filter() {
    let f = FilterOperator::Single(Filter::with_value(
        "id",
        Operator::In,
        FilterValue::Multiple(vec![ival(1), ival(2), ival(3)]),
    ));
    let (sql, params) = build_filter_operator(&f);
    assert_eq!(sql, "id IN (?, ?, ?)");
    assert_eq!(params, vec![SqlValue::Integer(1), SqlValue::Integer(2), SqlValue::Integer(3)]);
}

#[test]
fn empty_in_list_filter() {
    let f = FilterOperator::Single(Filter::with_value("id", Operator::NotIn, FilterValue::Multiple(vec![])));
    let (sql, params) = build_filter_operator(&f);
    assert_eq!(sql, "id NOT IN ()");
    assert!(params.is_empty());
}

#[test]
fn between_filter() {
    let f = FilterOperator::Single(Filter::with_value(
        "col",
        Operator::Between,
        FilterValue::Range(ival(10), ival(20)),
    ));
    let (sql, params) = build_filter_operator(&f);
    assert_eq!(sql, "col BETWEEN ? AND ?");
    assert_eq!(params, vec![SqlValue::Integer(10), SqlValue::Integer(20)]);
}

#[test]
fn null_checks_bind_nothing() {
    let b = QueryBuilder::new("t")
        .with_filter(Filter::is_null("a"))
        .with_filter(Filter::is_not_null("b"));
    let (sql, params) = b.build();
    assert_eq!(sql, "SELECT * FROM t WHERE a IS NULL AND b IS NOT NULL");
    assert!(params.is_empty());
}

#[test]
fn custom_text_is_emitted_as_is() {
    let b = QueryBuilder::new("t").where_filter(FilterOperator::custom("age > 3"));
    let (sql, params) = b.build();
    assert_eq!(sql, "SELECT * FROM t WHERE age > 3");
    assert!(params.is_empty());
}

#[test]
fn values_are_lowered_for_binding() {
    let f = FilterOperator::Or(vec![
        FilterOperator::Single(Filter::eq("flag", Value::Boolean(true))),
        FilterOperator::Single(Filter::eq("flag", Value::Boolean(false))),
        FilterOperator::Single(Filter::ne("name", Value::Text("bo".to_string()))),
        FilterOperator::Single(Filter::eq("data", Value::Blob(vec![1, 2]))),
        FilterOperator::Single(Filter::eq("score", Value::Real(1.5f64.to_bits()))),
        FilterOperator::Single(Filter::eq("gone", Value::Null)),
    ]);
    let (sql, params) = build_filter_operator(&f);
    assert_eq!(sql, "(flag = ? OR flag = ? OR name != ? OR data = ? OR score = ? OR gone = ?)");
    assert_eq!(
        params,
        vec![
            SqlValue::Integer(1),
            SqlValue::Integer(0),
            SqlValue::Text("bo".to_string()),
            SqlValue::Blob(vec![1, 2]),
            SqlValue::Real(1.5f64.to_bits()),
            SqlValue::Null,
        ]
    );
}

#[test]
fn placeholders_match_parameters() {
    let b = QueryBuilder::new("t")
        .where_filter(FilterOperator::And(vec![
            single("a", Operator::Lt, 1),
            FilterOperator::negate(FilterOperator::Or(vec![
                FilterOperator::Single(Filter::with_value(
                    "b",
                    Operator::In,
                    FilterValue::Multiple(vec![ival(2), ival(3)]),
                )),
                FilterOperator::Single(Filter::with_value(
                    "c",
                    Operator::NotBetween,
                    FilterValue::Range(ival(4), ival(5)),
                )),
            ])),
        ]))
        .where_filter(single("d", Operator::Ge, 6));
    let (sql, params) = b.build();
    assert_eq!(
        sql,
        "SELECT * FROM t WHERE (a < ? AND NOT ((b IN (?, ?) OR c NOT BETWEEN ? AND ?))) AND d >= ?"
    );
    assert_eq!(marks(&sql), params.len());
    let expected: Vec<SqlValue> = (1..=6).map(SqlValue::Integer).collect();
    assert_eq!(params, expected);
}

#[test]
fn full_statement_in_clause_order() {
    let b = QueryBuilder::new("orders")
        .select(vec!["orders.id", "users.name"])
        .join(JoinType::Inner, "users", "users.id = orders.user_id")
        .join_as(JoinType::Left, "products", "p", "p.id = orders.product_id")
        .where_filter(single("orders.total", Operator::Gt, 100))
        .group_by(vec!["users.id", "orders.id"])
        .having(FilterOperator::custom("COUNT(*) > 1"))
        .order_by(Sort::desc("users.name"))
        .order_by_multiple(vec![Sort::asc("orders.id")])
        .limit(10)
        .offset(20);
    let (sql, params) = b.build();
    assert_eq!(
        sql,
        "SELECT orders.id, users.name FROM orders INNER JOIN users ON users.id = orders.user_id \
         LEFT JOIN products AS p ON p.id = orders.product_id WHERE orders.total > ? \
         GROUP BY users.id, orders.id HAVING COUNT(*) > 1 ORDER BY users.name DESC, orders.id ASC \
         LIMIT 10 OFFSET 20"
    );
    assert_eq!(params, vec![SqlValue::Integer(100)]);
}

#[test]
fn where_then_having_parameters() {
    let b = QueryBuilder::new("t")
        .having(single("n", Operator::Gt, 2))
        .where_filter(single("a", Operator::Eq, 1))
        .join(JoinType::Right, "u", "u.id = t.id")
        .join(JoinType::Full, "v", "v.id = t.id");
    let (sql, params) = b.build();
    assert_eq!(
        sql,
        "SELECT * FROM t RIGHT JOIN u ON u.id = t.id FULL JOIN v ON v.id = t.id WHERE a = ? HAVING n > ?"
    );
    assert_eq!(params, vec![SqlValue::Integer(1), SqlValue::Integer(2)]);
}

#[test]
fn count_drops_selection_order_and_paging() {
    let b = QueryBuilder::new("t")
        .distinct(true)
        .select(vec!["a", "b"])
        .aggregate(Aggregate::Sum, "a", Some("s"))
        .join(JoinType::Inner, "u", "u.id = t.id")
        .where_filter(single("a", Operator::Ne, 0))
        .group_by(vec!["b"])
        .having(single("s", Operator::Gt, 9))
        .order_by(Sort::asc("b"))
        .limit(5)
        .offset(7);
    let (sql, params) = b.build_count();
    assert_eq!(
        sql,
        "SELECT COUNT(*) FROM t INNER JOIN u ON u.id = t.id WHERE a != ? GROUP BY b HAVING s > ?"
    );
    assert_eq!(params, vec![SqlValue::Integer(0), SqlValue::Integer(9)]);
    for word in ["ORDER BY", "LIMIT", "OFFSET", "SUM", "DISTINCT"] {
        assert!(!sql.contains(word));
    }
}

#[test]
fn count_of_plain_table() {
    let (sql, params) = QueryBuilder::new("users").build_count();
    assert_eq!(sql, "SELECT COUNT(*) FROM users");
    assert!(params.is_empty());
}

#[test]
fn distinct_aggregate_ignores_columns() {
    let b = QueryBuilder::new("orders")
        .distinct(true)
        .select(vec!["a", "b"])
        .aggregate(Aggregate::Count, "id", Some("n"));
    assert_eq!(b.build().0, "SELECT DISTINCT COUNT(id) AS n FROM orders");
}

#[test]
fn aggregate_wins_over_selected_column() {
    let b = QueryBuilder::new("users")
        .select_column("name")
        .aggregate(Aggregate::Count, "id", Some("n"));
    assert_eq!(b.build().0, "SELECT COUNT(id) AS n FROM users");
    let c = QueryBuilder::new("users").aggregate(Aggregate::Max, "age", None);
    assert_eq!(c.build().0, "SELECT MAX(age) FROM users");
    let d = QueryBuilder::new("users").aggregate(Aggregate::Avg, "age", None);
    assert_eq!(d.build().0, "SELECT AVG(age) FROM users");
    let e = QueryBuilder::new("users").aggregate(Aggregate::Min, "age", Some("m"));
    assert_eq!(e.build().0, "SELECT MIN(age) AS m FROM users");
}

#[test]
fn clone_is_independent() {
    let base = QueryBuilder::new("t")
        .where_filter(single("a", Operator::Eq, 1))
        .limit(10)
        .offset(0);
    let before = base.build();
    let changed = base.clone().limit(5).offset(20);
    assert_eq!(base.build(), before);
    assert_eq!(before.0, "SELECT * FROM t WHERE a = ? LIMIT 10 OFFSET 0");
    assert_eq!(changed.build().0, "SELECT * FROM t WHERE a = ? LIMIT 5 OFFSET 20");
    assert_eq!(changed.build().1, before.1);
}

#[test]
fn duplicate_keeps_every_clause() {
    let b = QueryBuilder::new("t")
        .select_distinct("a")
        .join_as(JoinType::Inner, "u", "x", "x.id = t.id")
        .where_filter(FilterOperator::Or(vec![single("a", Operator::Le, 1), FilterOperator::custom("b")]))
        .group_by(vec!["a"])
        .having(single("c", Operator::Lt, 2))
        .with_sorts(vec![Sort::desc("a")])
        .limit(3);
    let c = b.duplicate();
    assert_eq!(c.build(), b.build());
    assert_eq!(c.build_count(), b.build_count());
}

#[test]
fn paginated_count_keeps_filters() {
    let b = QueryBuilder::new("t").where_filter(single("x", Operator::Eq, 3));
    let (count, page) = b.paginated_statements(10, 20);
    assert_eq!(count.0, "SELECT COUNT(*) FROM t WHERE x = ?");
    assert_eq!(count.1, vec![SqlValue::Integer(3)]);
    assert_eq!(page.0, "SELECT * FROM t WHERE x = ? LIMIT 10 OFFSET 20");
    assert_eq!(page.1, vec![SqlValue::Integer(3)]);
    assert_eq!(b.build().0, "SELECT * FROM t WHERE x = ?");
}

#[test]
fn selection_variants() {
    let t = || QueryBuilder::new("t");
    assert_eq!(t().select_columns(&["a", "b"]).build().0, "SELECT a, b FROM t");
    assert_eq!(t().select(vec!["a"]).select_all().build().0, "SELECT * FROM t");
    assert_eq!(t().select_count().build().0, "SELECT COUNT(*) FROM t");
    assert_eq!(t().select_aggregate("MAX(a)").build().0, "SELECT MAX(a) FROM t");
    assert_eq!(t().select_distinct("a").build().0, "SELECT DISTINCT a FROM t");
    assert_eq!(t().distinct(true).distinct(false).build().0, "SELECT * FROM t");
}

#[test]
fn limit_and_offset_extremes() {
    let b = QueryBuilder::new("t").limit(0).offset(4294967295);
    assert_eq!(b.build().0, "SELECT * FROM t LIMIT 0 OFFSET 4294967295");
    let c = QueryBuilder::new("t").offset(9);
    assert_eq!(c.build().0, "SELECT * FROM t OFFSET 9");
}

#[test]
fn search_binds_the_pattern() {
    let b = QueryBuilder::new("t").search("name", "o'k");
    let (sql, params) = b.build();
    assert_eq!(sql, "SELECT * FROM t WHERE name LIKE ?");
    assert_eq!(params, vec![SqlValue::Text("%o'k%".to_string())]);
}

#[test]
fn where_in_subquery() {
    let sub = QueryBuilder::new("orders").select_column("user_id").limit(2);
    let b = QueryBuilder::new("users").where_in("id", sub);
    assert_eq!(b.build().0, "SELECT * FROM users WHERE id IN (SELECT user_id FROM orders LIMIT 2)");
}

#[test]
fn where_in_binds_subquery_parameters() {
    let sub = QueryBuilder::new("orders")
        .select_column("user_id")
        .where_filter(single("total", Operator::Gt, 50));
    let b = QueryBuilder::new("users")
        .where_filter(single("age", Operator::Ge, 18))
        .where_in("id", sub)
        .where_filter(single("score", Operator::Lt, 9));
    let (sql, params) = b.build();
    assert_eq!(
        sql,
        "SELECT * FROM users WHERE age >= ? AND id IN (SELECT user_id FROM orders WHERE total > ?) AND score < ?"
    );
    assert_eq!(params, vec![SqlValue::Integer(18), SqlValue::Integer(50), SqlValue::Integer(9)]);
    assert_eq!(marks(&sql), params.len());
}

#[test]
fn bound_text_binds_its_parameters() {
    let f = FilterOperator::Not(Box::new(FilterOperator::Bound(
        "a = ? OR b = ?".to_string(),
        vec![SqlValue::Integer(1), SqlValue::Text("x".to_string())],
    )));
    let (sql, params) = build_filter_operator(&f);
    assert_eq!(sql, "NOT (a = ? OR b = ?)");
    assert_eq!(params, vec![SqlValue::Integer(1), SqlValue::Text("x".to_string())]);
    let c = f.duplicate();
    assert_eq!(build_filter_operator(&c), (sql, params));
}

#[test]
fn with_filters_appends_in_order() {
    let b = QueryBuilder::new("t").with_filters(vec![
        Filter::eq("a", ival(1)),
        Filter::new("b", Operator::Like, Value::Text("x%".to_string())),
        Filter::new("c", Operator::NotLike, Value::Text("y".to_string())),
    ]);
    let (sql, params) = b.build();
    assert_eq!(sql, "SELECT * FROM t WHERE a = ? AND b LIKE ? AND c NOT LIKE ?");
    assert_eq!(
        params,
        vec![SqlValue::Integer(1), SqlValue::Text("x%".to_string()), SqlValue::Text("y".to_string())]
    );
}
