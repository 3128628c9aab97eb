//! The statement builder: clause collections, their mathematical model, and
//! the emission of SELECT and COUNT statements.
use vstd::prelude::*;
use crate::value::{SqlValue, SqlValueModel, Value, models};
use crate::text::{decimal, join, views, push_decimal, push_joined};
use crate::filters::{
    Aggregate, Filter, FilterOperator, JoinType, Operator, Sort, SortOrder, aggregate_text, join_text,
    order_text,
};
use crate::render::{
    Rendered, build_where_clause, duplicate_list, join_rendered, lemma_render_list_joins, render_filter,
    render_op, renderings,
};

verus! {

impl Clone for QueryBuilder {
    /// A deep copy: the copy has the same content, and changing it leaves
    /// `self` as it is.
    fn clone(&self) -> (r: Self)
        ensures
            r@ == self@,
    {
        self.duplicate()
    }
}

/// Rows together with the number of rows that match in all, where it is known.
pub struct QueryResult<T> {
    pub data: Vec<T>,
    pub total: Option<u64>,
}

impl<T> QueryResult<T> {
    /// Rows with no known total.
    pub fn new(data: Vec<T>) -> (r: QueryResult<T>)
        ensures
            r.data == data,
            r.total.is_none(),
    {
        QueryResult { data, total: None }
    }

    /// Rows out of a known total.
    pub fn with_total(data: Vec<T>, total: u64) -> (r: QueryResult<T>)
        ensures
            r.data == data,
            r.total == Some(total),
    {
        QueryResult { data, total: Some(total) }
    }
}

struct JoinClause {
    join_type: JoinType,
    table: String,
    alias: Option<String>,
    condition: String,
}

struct AggregateClause {
    function: Aggregate,
    column: String,
    alias: Option<String>,
}

/// A join: its kind, the joined table, an optional alias and the raw condition.
pub struct JoinModel {
    pub join_type: JoinType,
    pub table: Seq<char>,
    pub alias: Option<Seq<char>>,
    pub condition: Seq<char>,
}

/// An aggregate selection: the function, its column and an optional alias.
pub struct AggregateModel {
    pub function: Aggregate,
    pub column: Seq<char>,
    pub alias: Option<Seq<char>>,
}

/// A sort: the column and the direction.
pub struct SortModel {
    pub column: Seq<char>,
    pub order: SortOrder,
}

/// The content of a builder. Filters are held by their renderings, which is all
/// that a statement uses of them.
pub struct QueryModel {
    pub table: Seq<char>,
    pub select_columns: Seq<Seq<char>>,
    pub joins: Seq<JoinModel>,
    pub where_clauses: Seq<Rendered>,
    pub group_by: Seq<Seq<char>>,
    pub having: Seq<Rendered>,
    pub order_by: Seq<SortModel>,
    pub limit: Option<u32>,
    pub offset: Option<u32>,
    pub distinct: bool,
    pub aggregate: Option<AggregateModel>,
}

/// A builder for one SELECT or COUNT statement.
pub struct QueryBuilder {
    table: String,
    select_columns: Vec<String>,
    joins: Vec<JoinClause>,
    where_clauses: Vec<FilterOperator>,
    group_by: Vec<String>,
    having: Vec<FilterOperator>,
    order_by: Vec<Sort>,
    limit: Option<u32>,
    offset: Option<u32>,
    distinct: bool,
    aggregate: Option<AggregateClause>,
}

/// The text of an optional string.
pub open spec fn opt_view(o: Option<String>) -> Option<Seq<char>> {
    match o {
        Some(s) => Some(s@),
        None => None,
    }
}

spec fn join_model(j: JoinClause) -> JoinModel {
    JoinModel {
        join_type: j.join_type,
        table: j.table@,
        alias: opt_view(j.alias),
        condition: j.condition@,
    }
}

/// The model of a sort.
pub open spec fn sort_model(s: Sort) -> SortModel {
    SortModel { column: s.column@, order: s.order }
}

/// The models of a list of sorts.
pub open spec fn sort_models(s: Seq<Sort>) -> Seq<SortModel> {
    s.map_values(|x: Sort| sort_model(x))
}

impl View for QueryBuilder {
    type V = QueryModel;

    closed spec fn view(&self) -> QueryModel {
        QueryModel {
            table: self.table@,
            select_columns: views(self.select_columns@),
            joins: self.joins@.map_values(|j: JoinClause| join_model(j)),
            where_clauses: renderings(self.where_clauses@),
            group_by: views(self.group_by@),
            having: renderings(self.having@),
            order_by: sort_models(self.order_by@),
            limit: self.limit,
            offset: self.offset,
            distinct: self.distinct,
            aggregate: match self.aggregate {
                Some(a) => Some(
                    AggregateModel { function: a.function, column: a.column@, alias: opt_view(a.alias) },
                ),
                None => None,
            },
        }
    }
}

/// `" AS alias"` where there is an alias.
pub open spec fn alias_text(alias: Option<Seq<char>>) -> Seq<char> {
    match alias {
        Some(a) => " AS "@ + a,
        None => Seq::empty(),
    }
}

/// What a SELECT statement selects: the aggregate where one is set, otherwise
/// the columns joined with `", "`.
pub open spec fn projection_text(m: QueryModel) -> Seq<char> {
    match m.aggregate {
        Some(a) => aggregate_text(a.function) + "("@ + a.column + ")"@ + alias_text(a.alias),
        None => join(m.select_columns, ", "@),
    }
}

/// One join clause, with a leading space.
pub open spec fn join_clause_text(j: JoinModel) -> Seq<char> {
    " "@ + join_text(j.join_type) + " "@ + j.table + alias_text(j.alias) + " ON "@ + j.condition
}

/// The join clauses, in order.
pub open spec fn joins_text(s: Seq<JoinModel>) -> Seq<char>
    decreases s.len(),
{
    if s.len() == 0 {
        Seq::empty()
    } else {
        joins_text(s.drop_last()) + join_clause_text(s.last())
    }
}

/// A filter clause introduced by `keyword`, absent when it has no filters.
pub open spec fn filter_clause(keyword: Seq<char>, filters: Seq<Rendered>) -> Rendered {
    if filters.len() == 0 {
        Rendered { sql: Seq::empty(), params: Seq::empty() }
    } else {
        let r = join_rendered(filters, " AND "@);
        Rendered { sql: keyword + r.sql, params: r.params }
    }
}

/// The GROUP BY clause, absent when there are no grouping columns.
pub open spec fn group_text(cols: Seq<Seq<char>>) -> Seq<char> {
    if cols.len() == 0 {
        Seq::empty()
    } else {
        " GROUP BY "@ + join(cols, ", "@)
    }
}

/// The part shared by SELECT and COUNT statements: FROM, joins, WHERE,
/// GROUP BY and HAVING, with the parameters of WHERE and then of HAVING.
pub open spec fn body(m: QueryModel) -> Rendered {
    let w = filter_clause(" WHERE "@, m.where_clauses);
    let h = filter_clause(" HAVING "@, m.having);
    Rendered {
        sql: " FROM "@ + m.table + joins_text(m.joins) + w.sql + group_text(m.group_by) + h.sql,
        params: w.params + h.params,
    }
}

/// One sort: the column and its direction.
pub open spec fn sort_text(s: SortModel) -> Seq<char> {
    s.column + " "@ + order_text(s.order)
}

/// The ORDER BY clause, absent when there are no sorts.
pub open spec fn order_clause(s: Seq<SortModel>) -> Seq<char> {
    if s.len() == 0 {
        Seq::empty()
    } else {
        " ORDER BY "@ + join(s.map_values(|x: SortModel| sort_text(x)), ", "@)
    }
}

/// ` LIMIT n` and ` OFFSET n`, each where it is set.
pub open spec fn paging_text(limit: Option<u32>, offset: Option<u32>) -> Seq<char> {
    (match limit {
        Some(n) => " LIMIT "@ + decimal(n as nat),
        None => Seq::empty(),
    }) + (match offset {
        Some(n) => " OFFSET "@ + decimal(n as nat),
        None => Seq::empty(),
    })
}

/// The text of a SELECT statement up to its LIMIT and OFFSET.
pub open spec fn select_head(m: QueryModel) -> Seq<char> {
    "SELECT "@ + (if m.distinct { "DISTINCT "@ } else { Seq::empty() }) + projection_text(m) + body(m).sql
        + order_clause(m.order_by)
}

/// The SELECT statement of a builder.
pub open spec fn select_statement(m: QueryModel) -> Rendered {
    Rendered { sql: select_head(m) + paging_text(m.limit, m.offset), params: body(m).params }
}

/// The COUNT statement of a builder: only the table, joins, filters and grouping
/// take part.
pub open spec fn count_statement(m: QueryModel) -> Rendered {
    Rendered { sql: "SELECT COUNT(*)"@ + body(m).sql, params: body(m).params }
}

/// The texts of a list of string slices.
pub open spec fn strs(s: Seq<&str>) -> Seq<Seq<char>> {
    s.map_values(|c: &str| c@)
}

fn to_strings(columns: &[&str]) -> (r: Vec<String>)
    ensures
        views(r@) == strs(columns@),
{
    let mut r: Vec<String> = Vec::new();
    let n = columns.len();
    let mut i: usize = 0;
    while i < n
        invariant
            n == columns@.len(),
            i <= n,
            views(r@) == strs(columns@.subrange(0, i as int)),
        decreases n - i,
    {
        let ghost before = r@;
        r.push(columns[i].to_string());
        proof {
            assert(views(r@) =~= views(before).push(columns@[i as int]@));
            assert(strs(columns@.subrange(0, i as int + 1)) =~= strs(columns@.subrange(0, i as int)).push(
                columns@[i as int]@,
            ));
        }
        i = i + 1;
    }
    assert(columns@.subrange(0, n as int) =~= columns@);
    r
}

fn copy_strings(v: &Vec<String>) -> (r: Vec<String>)
    ensures
        views(r@) == views(v@),
{
    let mut r: Vec<String> = Vec::new();
    let n = v.len();
    let mut i: usize = 0;
    while i < n
        invariant
            n == v@.len(),
            i <= n,
            views(r@) == views(v@.subrange(0, i as int)),
        decreases n - i,
    {
        let ghost before = r@;
        r.push(v[i].clone());
        proof {
            assert(views(r@) =~= views(before).push(v@[i as int]@));
            assert(views(v@.subrange(0, i as int + 1)) =~= views(v@.subrange(0, i as int)).push(v@[i as int]@));
        }
        i = i + 1;
    }
    assert(v@.subrange(0, n as int) =~= v@);
    r
}

fn one_string(s: &str) -> (r: Vec<String>)
    ensures
        views(r@) == seq![s@],
{
    let r = vec![s.to_string()];
    assert(views(r@) =~= seq![s@]);
    r
}

impl QueryBuilder {
    /// A builder on `table` that selects every column and has no other clause.
    pub fn new(table: &str) -> (r: QueryBuilder)
        ensures
            r@ == (QueryModel {
                table: table@,
                select_columns: seq!["*"@],
                joins: Seq::empty(),
                where_clauses: Seq::empty(),
                group_by: Seq::empty(),
                having: Seq::empty(),
                order_by: Seq::empty(),
                limit: None,
                offset: None,
                distinct: false,
                aggregate: None,
            }),
    {
        let r = QueryBuilder {
            table: table.to_string(),
            select_columns: one_string("*"),
            joins: Vec::new(),
            where_clauses: Vec::new(),
            group_by: Vec::new(),
            having: Vec::new(),
            order_by: Vec::new(),
            limit: None,
            offset: None,
            distinct: false,
            aggregate: None,
        };
        proof {
            assert(r@.joins =~= Seq::<JoinModel>::empty());
            assert(r@.where_clauses =~= Seq::<Rendered>::empty());
            assert(r@.group_by =~= Seq::<Seq<char>>::empty());
            assert(r@.having =~= Seq::<Rendered>::empty());
            assert(r@.order_by =~= Seq::<SortModel>::empty());
        }
        r
    }

    /// Selects the given columns in place of the current selection.
    pub fn select(self, columns: Vec<&str>) -> (r: QueryBuilder)
        ensures
            r@ == (QueryModel { select_columns: strs(columns@), ..self@ }),
    {
        let mut b = self;
        b.select_columns = to_strings(columns.as_slice());
        b
    }

    /// Selects the given columns in place of the current selection.
    pub fn select_columns(self, columns: &[&str]) -> (r: QueryBuilder)
        ensures
            r@ == (QueryModel { select_columns: strs(columns@), ..self@ }),
    {
        let mut b = self;
        b.select_columns = to_strings(columns);
        b
    }

    /// Selects every column.
    pub fn select_all(self) -> (r: QueryBuilder)
        ensures
            r@ == (QueryModel { select_columns: seq!["*"@], ..self@ }),
    {
        let mut b = self;
        b.select_columns = one_string("*");
        b
    }

    /// Selects one column.
    pub fn select_column(self, column: &str) -> (r: QueryBuilder)
        ensures
            r@ == (QueryModel { select_columns: seq![column@], ..self@ }),
    {
        let mut b = self;
        b.select_columns = one_string(column);
        b
    }

    /// Selects `COUNT(*)` as a plain column.
    pub fn select_count(self) -> (r: QueryBuilder)
        ensures
            r@ == (QueryModel { select_columns: seq!["COUNT(*)"@], ..self@ }),
    {
        let mut b = self;
        b.select_columns = one_string("COUNT(*)");
        b
    }

    /// Selects an aggregate expression written as text.
    pub fn select_aggregate(self, aggregate: &str) -> (r: QueryBuilder)
        ensures
            r@ == (QueryModel { select_columns: seq![aggregate@], ..self@ }),
    {
        let mut b = self;
        b.select_columns = one_string(aggregate);
        b
    }

    /// Selects the distinct values of one column.
    pub fn select_distinct(self, column: &str) -> (r: QueryBuilder)
        ensures
            r@ == (QueryModel { select_columns: seq![column@], distinct: true, ..self@ }),
    {
        let mut b = self;
        b.select_columns = one_string(column);
        b.distinct = true;
        b
    }

    /// Sets whether the statement selects distinct rows.
    pub fn distinct(self, distinct: bool) -> (r: QueryBuilder)
        ensures
            r@ == (QueryModel { distinct, ..self@ }),
    {
        let mut b = self;
        b.distinct = distinct;
        b
    }

    /// Sets the row limit.
    pub fn limit(self, limit: u32) -> (r: QueryBuilder)
        ensures
            r@ == (QueryModel { limit: Some(limit), ..self@ }),
    {
        let mut b = self;
        b.limit = Some(limit);
        b
    }

    /// Sets the number of rows skipped.
    pub fn offset(self, offset: u32) -> (r: QueryBuilder)
        ensures
            r@ == (QueryModel { offset: Some(offset), ..self@ }),
    {
        let mut b = self;
        b.offset = Some(offset);
        b
    }

    /// Sets the aggregate that the statement selects; it takes the place of the
    /// selected columns when the statement is built.
    pub fn aggregate(self, function: Aggregate, column: &str, alias: Option<&str>) -> (r: QueryBuilder)
        ensures
            r@ == (QueryModel {
                aggregate: Some(
                    AggregateModel {
                        function,
                        column: column@,
                        alias: match alias {
                            Some(a) => Some(a@),
                            None => None,
                        },
                    },
                ),
                ..self@
            }),
    {
        let mut b = self;
        let alias = match alias {
            Some(a) => Some(a.to_string()),
            None => None,
        };
        b.aggregate = Some(AggregateClause { function, column: column.to_string(), alias });
        b
    }

    /// Adds a join with no alias.
    pub fn join(self, join_type: JoinType, table: &str, condition: &str) -> (r: QueryBuilder)
        ensures
            r@ == (QueryModel {
                joins: self@.joins.push(
                    JoinModel { join_type, table: table@, alias: None, condition: condition@ },
                ),
                ..self@
            }),
    {
        let mut b = self;
        let ghost before = b.joins@;
        b.joins.push(
            JoinClause {
                join_type,
                table: table.to_string(),
                alias: None,
                condition: condition.to_string(),
            },
        );
        proof {
            assert(b.joins@.map_values(|j: JoinClause| join_model(j)) =~= before.map_values(
                |j: JoinClause| join_model(j),
            ).push(JoinModel { join_type, table: table@, alias: None, condition: condition@ }));
        }
        b
    }

    /// Adds a join whose table is given an alias.
    pub fn join_as(self, join_type: JoinType, table: &str, alias: &str, condition: &str) -> (r:
        QueryBuilder)
        ensures
            r@ == (QueryModel {
                joins: self@.joins.push(
                    JoinModel {
                        join_type,
                        table: table@,
                        alias: Some(alias@),
                        condition: condition@,
                    },
                ),
                ..self@
            }),
    {
        let mut b = self;
        let ghost before = b.joins@;
        b.joins.push(
            JoinClause {
                join_type,
                table: table.to_string(),
                alias: Some(alias.to_string()),
                condition: condition.to_string(),
            },
        );
        proof {
            assert(b.joins@.map_values(|j: JoinClause| join_model(j)) =~= before.map_values(
                |j: JoinClause| join_model(j),
            ).push(
                JoinModel { join_type, table: table@, alias: Some(alias@), condition: condition@ },
            ));
        }
        b
    }

    /// Adds a filter to the WHERE clause, which joins its filters with AND.
    pub fn where_filter(self, filter: FilterOperator) -> (r: QueryBuilder)
        ensures
            r@ == (QueryModel { where_clauses: self@.where_clauses.push(render_op(filter)), ..self@ }),
    {
        let mut b = self;
        let ghost before = b.where_clauses@;
        let ghost rf = render_op(filter);
        b.where_clauses.push(filter);
        assert(renderings(b.where_clauses@) =~= renderings(before).push(rf));
        b
    }

    /// Adds a filter to the HAVING clause, which joins its filters with AND.
    pub fn having(self, filter: FilterOperator) -> (r: QueryBuilder)
        ensures
            r@ == (QueryModel { having: self@.having.push(render_op(filter)), ..self@ }),
    {
        let mut b = self;
        let ghost before = b.having@;
        let ghost rf = render_op(filter);
        b.having.push(filter);
        assert(renderings(b.having@) =~= renderings(before).push(rf));
        b
    }

    /// Groups by the given columns, in place of any earlier grouping.
    pub fn group_by(self, columns: Vec<&str>) -> (r: QueryBuilder)
        ensures
            r@ == (QueryModel { group_by: strs(columns@), ..self@ }),
    {
        let mut b = self;
        b.group_by = to_strings(columns.as_slice());
        b
    }

    /// Adds a sort after the existing ones.
    pub fn order_by(self, sort: Sort) -> (r: QueryBuilder)
        ensures
            r@ == (QueryModel { order_by: self@.order_by.push(sort_model(sort)), ..self@ }),
    {
        let mut b = self;
        let ghost before = b.order_by@;
        let ghost sm = sort_model(sort);
        b.order_by.push(sort);
        assert(sort_models(b.order_by@) =~= sort_models(before).push(sm));
        b
    }

    /// Adds sorts after the existing ones, in order.
    pub fn order_by_multiple(self, sorts: Vec<Sort>) -> (r: QueryBuilder)
        ensures
            r@ == (QueryModel { order_by: self@.order_by + sort_models(sorts@), ..self@ }),
    {
        let mut b = self;
        let mut sorts = sorts;
        let ghost before = b.order_by@;
        let ghost added = sorts@;
        b.order_by.append(&mut sorts);
        assert(sort_models(b.order_by@) =~= sort_models(before) + sort_models(added));
        b
    }

    /// Adds sorts after the existing ones, in order.
    pub fn with_sorts(self, sorts: Vec<Sort>) -> (r: QueryBuilder)
        ensures
            r@ == (QueryModel { order_by: self@.order_by + sort_models(sorts@), ..self@ }),
    {
        self.order_by_multiple(sorts)
    }

    /// Adds one predicate to the WHERE clause.
    pub fn with_filter(self, filter: Filter) -> (r: QueryBuilder)
        ensures
            r@ == (QueryModel { where_clauses: self@.where_clauses.push(render_filter(filter)), ..self@ }),
    {
        self.where_filter(FilterOperator::Single(filter))
    }

    /// Adds predicates to the WHERE clause, in order.
    pub fn with_filters(self, filters: Vec<Filter>) -> (r: QueryBuilder)
        ensures
            r@ == (QueryModel {
                where_clauses: self@.where_clauses + filters@.map_values(|f: Filter| render_filter(f)),
                ..self@
            }),
    {
        let mut b = self;
        let ghost start = b@;
        let ghost added = filters@.map_values(|f: Filter| render_filter(f));
        let mut filters = filters;
        let ghost all = filters@;
        let n = filters.len();
        let mut i: usize = 0;
        while i < n
            invariant
                n == all.len(),
                i <= n,
                filters@ == all.subrange(i as int, n as int),
                added == all.map_values(|f: Filter| render_filter(f)),
                b@ == (QueryModel { where_clauses: start.where_clauses + added.subrange(0, i as int), ..start }),
            decreases n - i,
        {
            let f = filters.remove(0);
            proof {
                assert(f == all[i as int]);
                assert(filters@ =~= all.subrange(i as int + 1, n as int));
            }
            b = b.with_filter(f);
            proof {
                assert(start.where_clauses + added.subrange(0, i as int + 1) =~= (start.where_clauses
                    + added.subrange(0, i as int)).push(added[i as int]));
            }
            i = i + 1;
        }
        assert(added.subrange(0, n as int) =~= added);
        b
    }

    /// Adds a predicate `field LIKE ?` that holds where `field` contains `query`;
    /// the pattern `%query%` is bound as a parameter, not written into the text.
    pub fn search(self, field: &str, query: &str) -> (r: QueryBuilder)
        ensures
            r@ == (QueryModel {
                where_clauses: self@.where_clauses.push(
                    Rendered {
                        sql: field@ + " LIKE ?"@,
                        params: seq![SqlValueModel::Text("%"@ + query@ + "%"@)],
                    },
                ),
                ..self@
            }),
    {
        let mut pattern = String::new();
        pattern.append("%");
        pattern.append(query);
        pattern.append("%");
        let f = Filter::new(field, Operator::Like, Value::Text(pattern));
        let r = self.with_filter(f);
        proof {
            reveal_strlit(" ");
            reveal_strlit("LIKE");
            reveal_strlit("?");
            reveal_strlit(" LIKE ?");
            assert(render_filter(f).sql =~= field@ + " LIKE ?"@);
        }
        r
    }

    /// Adds the predicate `field IN (subquery)`, with the subquery's SELECT
    /// statement written as text and its parameters bound in their order.
    pub fn where_in(self, field: &str, subquery: QueryBuilder) -> (r: QueryBuilder)
        ensures
            r@ == (QueryModel {
                where_clauses: self@.where_clauses.push(
                    Rendered {
                        sql: field@ + " IN ("@ + select_statement(subquery@).sql + ")"@,
                        params: select_statement(subquery@).params,
                    },
                ),
                ..self@
            }),
    {
        let (sub_sql, sub_params) = subquery.build();
        let mut condition = String::new();
        condition.append(field);
        condition.append(" IN (");
        condition.append(sub_sql.as_str());
        condition.append(")");
        self.where_filter(FilterOperator::Bound(condition, sub_params))
    }

    /// A copy of the builder.
    pub fn duplicate(&self) -> (r: QueryBuilder)
        ensures
            r@ == self@,
    {
        let mut joins: Vec<JoinClause> = Vec::new();
        let n = self.joins.len();
        let mut i: usize = 0;
        while i < n
            invariant
                n == self.joins@.len(),
                i <= n,
                joins@.map_values(|j: JoinClause| join_model(j)) == self.joins@.subrange(0, i as int).map_values(
                    |j: JoinClause| join_model(j),
                ),
            decreases n - i,
        {
            let j = &self.joins[i];
            let ghost before = joins@;
            joins.push(
                JoinClause {
                    join_type: j.join_type,
                    table: j.table.clone(),
                    alias: j.alias.clone(),
                    condition: j.condition.clone(),
                },
            );
            proof {
                assert(joins@.map_values(|j: JoinClause| join_model(j)) =~= before.map_values(
                    |j: JoinClause| join_model(j),
                ).push(join_model(self.joins@[i as int])));
                assert(self.joins@.subrange(0, i as int + 1).map_values(|j: JoinClause| join_model(j))
                    =~= self.joins@.subrange(0, i as int).map_values(|j: JoinClause| join_model(j)).push(
                    join_model(self.joins@[i as int]),
                ));
            }
            i = i + 1;
        }
        assert(self.joins@.subrange(0, n as int) =~= self.joins@);
        let mut order_by: Vec<Sort> = Vec::new();
        let m = self.order_by.len();
        let mut k: usize = 0;
        while k < m
            invariant
                m == self.order_by@.len(),
                k <= m,
                sort_models(order_by@) == sort_models(self.order_by@.subrange(0, k as int)),
            decreases m - k,
        {
            let s = &self.order_by[k];
            let ghost before = order_by@;
            order_by.push(Sort { column: s.column.clone(), order: s.order });
            proof {
                assert(sort_models(order_by@) =~= sort_models(before).push(sort_model(self.order_by@[k as int])));
                assert(sort_models(self.order_by@.subrange(0, k as int + 1)) =~= sort_models(
                    self.order_by@.subrange(0, k as int),
                ).push(sort_model(self.order_by@[k as int])));
            }
            k = k + 1;
        }
        assert(self.order_by@.subrange(0, m as int) =~= self.order_by@);
        let aggregate = match &self.aggregate {
            Some(a) => Some(
                AggregateClause { function: a.function, column: a.column.clone(), alias: a.alias.clone() },
            ),
            None => None,
        };
        let r = QueryBuilder {
            table: self.table.clone(),
            select_columns: copy_strings(&self.select_columns),
            joins,
            where_clauses: duplicate_list(&self.where_clauses),
            group_by: copy_strings(&self.group_by),
            having: duplicate_list(&self.having),
            order_by,
            limit: self.limit,
            offset: self.offset,
            distinct: self.distinct,
            aggregate,
        };
        r
    }

    /// The two statements of a paginated query: the COUNT statement, which keeps
    /// the builder's joins, filters and grouping so that the total counts the
    /// rows that the pages are cut from, and the SELECT statement with the given
    /// limit and offset.
    pub fn paginated_statements(&self, limit: u32, offset: u32) -> (r: (
        (String, Vec<SqlValue>),
        (String, Vec<SqlValue>),
    ))
        ensures
            r.0.0@ == count_statement(self@).sql,
            models(r.0.1@) == count_statement(self@).params,
            r.1.0@ == select_statement(QueryModel { limit: Some(limit), offset: Some(offset), ..self@ }).sql,
            models(r.1.1@) == select_statement(
                QueryModel { limit: Some(limit), offset: Some(offset), ..self@ },
            ).params,
    {
        (self.build_count(), self.build_paged(Some(limit), Some(offset)))
    }

    /// Appends a filter clause introduced by `keyword`, if there are filters.
    fn push_filter_clause(
        sql: &mut String,
        params: &mut Vec<SqlValue>,
        keyword: &str,
        filters: &Vec<FilterOperator>,
    )
        ensures
            final(sql)@ == old(sql)@ + filter_clause(keyword@, renderings(filters@)).sql,
            models(final(params)@) == models(old(params)@) + filter_clause(
                keyword@,
                renderings(filters@),
            ).params,
    {
        if filters.len() > 0 {
            sql.append(keyword);
            let (part_sql, mut part_params) = build_where_clause(filters);
            sql.append(part_sql.as_str());
            let ghost before = params@;
            let ghost part = part_params@;
            params.append(&mut part_params);
            proof {
                lemma_render_list_joins(filters@, " AND "@);
                assert(models(params@) =~= models(before) + models(part));
                assert(final(sql)@ =~= old(sql)@ + filter_clause(keyword@, renderings(filters@)).sql);
            }
        } else {
            assert(models(params@) =~= models(params@) + Seq::<SqlValueModel>::empty());
            assert(sql@ =~= sql@ + Seq::<char>::empty());
        }
    }

    /// Appends the part shared by SELECT and COUNT statements.
    fn push_body(&self, sql: &mut String, params: &mut Vec<SqlValue>)
        ensures
            final(sql)@ == old(sql)@ + body(self@).sql,
            models(final(params)@) == models(old(params)@) + body(self@).params,
    {
        let ghost start = sql@;
        let ghost start_params = params@;
        sql.append(" FROM ");
        sql.append(self.table.as_str());
        let ghost after_table = sql@;
        let ghost jm = self.joins@.map_values(|j: JoinClause| join_model(j));
        let n = self.joins.len();
        let mut i: usize = 0;
        while i < n
            invariant
                n == self.joins@.len(),
                i <= n,
                jm == self.joins@.map_values(|j: JoinClause| join_model(j)),
                sql@ == after_table + joins_text(jm.subrange(0, i as int)),
            decreases n - i,
        {
            let j = &self.joins[i];
            sql.append(" ");
            sql.append(j.join_type.sql());
            sql.append(" ");
            sql.append(j.table.as_str());
            match &j.alias {
                Some(a) => {
                    sql.append(" AS ");
                    sql.append(a.as_str());
                },
                None => {},
            }
            sql.append(" ON ");
            sql.append(j.condition.as_str());
            proof {
                let next = jm.subrange(0, i as int + 1);
                assert(next.drop_last() =~= jm.subrange(0, i as int));
                assert(next.last() == join_model(self.joins@[i as int]));
                assert(sql@ =~= after_table + joins_text(next));
            }
            i = i + 1;
        }
        assert(jm.subrange(0, n as int) =~= jm);
        let ghost after_joins = sql@;
        Self::push_filter_clause(sql, params, " WHERE ", &self.where_clauses);
        let ghost after_where = sql@;
        let ghost where_params = params@;
        if self.group_by.len() > 0 {
            sql.append(" GROUP BY ");
            push_joined(sql, &self.group_by, ", ");
        }
        assert(sql@ =~= after_where + group_text(views(self.group_by@)));
        Self::push_filter_clause(sql, params, " HAVING ", &self.having);
        proof {
            assert(sql@ =~= start + body(self@).sql);
            assert(models(params@) =~= models(start_params) + body(self@).params);
        }
    }

    /// Appends what the statement selects.
    fn push_projection(&self, sql: &mut String)
        ensures
            final(sql)@ == old(sql)@ + projection_text(self@),
    {
        match &self.aggregate {
            Some(agg) => {
                sql.append(agg.function.sql());
                sql.append("(");
                sql.append(agg.column.as_str());
                sql.append(")");
                match &agg.alias {
                    Some(a) => {
                        sql.append(" AS ");
                        sql.append(a.as_str());
                    },
                    None => {},
                }
                assert(final(sql)@ =~= old(sql)@ + projection_text(self@));
            },
            None => {
                push_joined(sql, &self.select_columns, ", ");
            },
        }
    }

    /// Appends the ORDER BY clause, if there are sorts.
    fn push_order(&self, sql: &mut String)
        ensures
            final(sql)@ == old(sql)@ + order_clause(self@.order_by),
    {
        let n = self.order_by.len();
        if n == 0 {
            assert(sql@ =~= sql@ + Seq::<char>::empty());
            return;
        }
        let ghost texts = sort_models(self.order_by@).map_values(|x: SortModel| sort_text(x));
        let mut parts: Vec<String> = Vec::new();
        let mut i: usize = 0;
        while i < n
            invariant
                n == self.order_by@.len(),
                i <= n,
                texts == sort_models(self.order_by@).map_values(|x: SortModel| sort_text(x)),
                views(parts@) == texts.subrange(0, i as int),
            decreases n - i,
        {
            let sort = &self.order_by[i];
            let mut part = sort.column.clone();
            part.append(" ");
            part.append(sort.order.sql());
            let ghost before = parts@;
            parts.push(part);
            proof {
                assert(views(parts@) =~= views(before).push(part@));
                assert(texts.subrange(0, i as int + 1) =~= texts.subrange(0, i as int).push(texts[i as int]));
            }
            i = i + 1;
        }
        assert(texts.subrange(0, n as int) =~= texts);
        sql.append(" ORDER BY ");
        push_joined(sql, &parts, ", ");
        assert(final(sql)@ =~= old(sql)@ + order_clause(self@.order_by));
    }

    /// Renders the SELECT statement with the given limit and offset in place of
    /// the builder's own.
    pub fn build_paged(&self, limit: Option<u32>, offset: Option<u32>) -> (r: (String, Vec<SqlValue>))
        ensures
            r.0@ == select_statement(QueryModel { limit, offset, ..self@ }).sql,
            models(r.1@) == select_statement(QueryModel { limit, offset, ..self@ }).params,
    {
        let mut sql = String::new();
        let mut params: Vec<SqlValue> = Vec::new();
        sql.append("SELECT ");
        if self.distinct {
            sql.append("DISTINCT ");
        }
        self.push_projection(&mut sql);
        self.push_body(&mut sql, &mut params);
        self.push_order(&mut sql);
        let ghost before_paging = sql@;
        match limit {
            Some(n) => {
                sql.append(" LIMIT ");
                push_decimal(&mut sql, n);
            },
            None => {},
        }
        match offset {
            Some(n) => {
                sql.append(" OFFSET ");
                push_decimal(&mut sql, n);
            },
            None => {},
        }
        proof {
            let m = QueryModel { limit, offset, ..self@ };
            assert(sql@ =~= before_paging + paging_text(limit, offset));
            assert(body(m) == body(self@));
            assert(sql@ =~= select_statement(m).sql);
            assert(models(params@) =~= select_statement(m).params);
        }
        (sql, params)
    }

    /// Renders the SELECT statement: the SQL text and its parameters.
    pub fn build(&self) -> (r: (String, Vec<SqlValue>))
        ensures
            r.0@ == select_statement(self@).sql,
            models(r.1@) == select_statement(self@).params,
    {
        let r = self.build_paged(self.limit, self.offset);
        assert(QueryModel { limit: self@.limit, offset: self@.offset, ..self@ } == self@);
        r
    }

    /// Renders the COUNT statement: `SELECT COUNT(*)` over the builder's table,
    /// joins, filters and grouping; selection, order, limit and offset are left out.
    pub fn build_count(&self) -> (r: (String, Vec<SqlValue>))
        ensures
            r.0@ == count_statement(self@).sql,
            models(r.1@) == count_statement(self@).params,
    {
        let mut sql = String::new();
        let mut params: Vec<SqlValue> = Vec::new();
        sql.append("SELECT COUNT(*)");
        self.push_body(&mut sql, &mut params);
        assert(models(params@) =~= count_statement(self@).params);
        (sql, params)
    }
}

} // verus!
