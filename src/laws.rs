//! Properties of the rendered statements.
use vstd::prelude::*;
use crate::filters::{
    Aggregate, Filter, FilterOperator, FilterValue, JoinType, Operator, SortOrder, aggregate_text,
    join_text, operator_text, order_text,
};
use crate::render::{Rendered, join_rendered, placeholders, render_filter, render_list, render_op};
use crate::value::{SqlValueModel, models, native_of, natives};
use crate::query::{
    JoinModel, QueryModel, SortModel, alias_text, body, count_statement, filter_clause, group_text,
    join_clause_text, joins_text, order_clause, paging_text, projection_text, select_head,
    select_statement, sort_text,
};
use crate::text::{decimal, digit_char, join};

verus! {

/// The number of `?` placeholders in a text.
pub open spec fn marks(s: Seq<char>) -> nat
    decreases s.len(),
{
    if s.len() == 0 {
        0
    } else {
        marks(s.drop_last()) + if s.last() == '?' { 1nat } else { 0nat }
    }
}

broadcast proof fn lemma_marks_concat(a: Seq<char>, b: Seq<char>)
    ensures
        #[trigger] marks(a + b) == marks(a) + marks(b),
    decreases b.len(),
{
    if b.len() > 0 {
        lemma_marks_concat(a, b.drop_last());
        assert((a + b).drop_last() =~= a + b.drop_last());
    }
}

proof fn lemma_operator_text(op: Operator)
    ensures
        marks(operator_text(op)) == 0,
{
    reveal_with_fuel(marks, 12);
    match op {
        Operator::Eq => reveal_strlit("="),
        Operator::Ne => reveal_strlit("!="),
        Operator::Lt => reveal_strlit("<"),
        Operator::Le => reveal_strlit("<="),
        Operator::Gt => reveal_strlit(">"),
        Operator::Ge => reveal_strlit(">="),
        Operator::Like => reveal_strlit("LIKE"),
        Operator::NotLike => reveal_strlit("NOT LIKE"),
        Operator::In => reveal_strlit("IN"),
        Operator::NotIn => reveal_strlit("NOT IN"),
        Operator::IsNull => reveal_strlit("IS NULL"),
        Operator::IsNotNull => reveal_strlit("IS NOT NULL"),
        Operator::Between => reveal_strlit("BETWEEN"),
        Operator::NotBetween => reveal_strlit("NOT BETWEEN"),
    }
}

proof fn lemma_fixed_text()
    ensures
        marks(" IS NULL"@) == 0,
        marks(" IS NOT NULL"@) == 0,
        marks(" "@) == 0,
        marks("("@) == 0,
        marks(")"@) == 0,
        marks(", "@) == 0,
        marks("?"@) == 1,
        marks("? AND ?"@) == 2,
        marks(" AND "@) == 0,
        marks(" OR "@) == 0,
        marks("NOT ("@) == 0,
        marks(Seq::<char>::empty()) == 0,
{
    reveal_with_fuel(marks, 13);
    reveal_strlit(" IS NULL");
    reveal_strlit(" IS NOT NULL");
    reveal_strlit(" ");
    reveal_strlit("(");
    reveal_strlit(")");
    reveal_strlit(", ");
    reveal_strlit("?");
    reveal_strlit("? AND ?");
    reveal_strlit(" AND ");
    reveal_strlit(" OR ");
    reveal_strlit("NOT (");
}

proof fn lemma_placeholders(n: nat)
    ensures
        marks(placeholders(n)) == n,
    decreases n,
{
    lemma_fixed_text();
    if n > 1 {
        lemma_placeholders((n - 1) as nat);
        lemma_marks_concat(placeholders((n - 1) as nat), ", "@);
        lemma_marks_concat(placeholders((n - 1) as nat) + ", "@, "?"@);
    }
}

/// Text that holds no `?`.
pub open spec fn mark_free(s: Seq<char>) -> bool {
    marks(s) == 0
}

/// No column name and no custom text of the tree holds a `?`, and each bound
/// text has one `?` per parameter it binds.
pub open spec fn op_mark_free(f: FilterOperator) -> bool
    decreases f, 1nat,
{
    match f {
        FilterOperator::Single(flt) => mark_free(flt.column@),
        FilterOperator::And(v) => list_mark_free(v@),
        FilterOperator::Or(v) => list_mark_free(v@),
        FilterOperator::Not(b) => op_mark_free(*b),
        FilterOperator::Custom(t) => mark_free(t@),
        FilterOperator::Bound(t, ps) => marks(t@) == ps@.len(),
    }
}

/// No member of the list holds a `?` in a column name or custom text.
pub open spec fn list_mark_free(s: Seq<FilterOperator>) -> bool
    decreases s, 0nat,
{
    s.len() == 0 || (list_mark_free(s.drop_last()) && op_mark_free(s.last()))
}

/// A rendering whose text has exactly one placeholder per parameter.
pub open spec fn balanced(r: Rendered) -> bool {
    marks(r.sql) == r.params.len()
}

proof fn lemma_filter_balanced(f: Filter)
    requires
        mark_free(f.column@),
    ensures
        balanced(render_filter(f)),
{
    lemma_fixed_text();
    lemma_operator_text(f.operator);
    let head = f.column@ + " "@ + operator_text(f.operator) + " "@;
    lemma_marks_concat(f.column@, " "@);
    lemma_marks_concat(f.column@ + " "@, operator_text(f.operator));
    lemma_marks_concat(f.column@ + " "@ + operator_text(f.operator), " "@);
    match f.operator {
        Operator::IsNull => lemma_marks_concat(f.column@, " IS NULL"@),
        Operator::IsNotNull => lemma_marks_concat(f.column@, " IS NOT NULL"@),
        _ => match f.value {
            FilterValue::Single(v) => lemma_marks_concat(head, "?"@),
            FilterValue::Multiple(vs) => {
                lemma_placeholders(vs@.len());
                lemma_marks_concat(head, "("@);
                lemma_marks_concat(head + "("@, placeholders(vs@.len()));
                lemma_marks_concat(head + "("@ + placeholders(vs@.len()), ")"@);
                assert(natives(vs@).len() == vs@.len());
            },
            FilterValue::Range(lo, hi) => lemma_marks_concat(head, "? AND ?"@),
        },
    }
}

proof fn lemma_op_balanced(f: FilterOperator)
    requires
        op_mark_free(f),
    ensures
        balanced(render_op(f)),
    decreases f, 1nat,
{
    lemma_fixed_text();
    match f {
        FilterOperator::Single(flt) => lemma_filter_balanced(flt),
        FilterOperator::And(v) => {
            lemma_list_balanced(v@, " AND "@);
            let inner = render_list(v@, " AND "@);
            lemma_marks_concat("("@, inner.sql);
            lemma_marks_concat("("@ + inner.sql, ")"@);
        },
        FilterOperator::Or(v) => {
            lemma_list_balanced(v@, " OR "@);
            let inner = render_list(v@, " OR "@);
            lemma_marks_concat("("@, inner.sql);
            lemma_marks_concat("("@ + inner.sql, ")"@);
        },
        FilterOperator::Not(b) => {
            lemma_op_balanced(*b);
            let inner = render_op(*b);
            lemma_marks_concat("NOT ("@, inner.sql);
            lemma_marks_concat("NOT ("@ + inner.sql, ")"@);
        },
        FilterOperator::Custom(t) => {},
        FilterOperator::Bound(t, ps) => {},
    }
}

proof fn lemma_list_balanced(s: Seq<FilterOperator>, sep: Seq<char>)
    requires
        list_mark_free(s),
        mark_free(sep),
    ensures
        balanced(render_list(s, sep)),
    decreases s, 0nat,
{
    lemma_fixed_text();
    if s.len() > 0 {
        lemma_list_balanced(s.drop_last(), sep);
        lemma_op_balanced(s.last());
        let prev = render_list(s.drop_last(), sep);
        let mid: Seq<char> = if s.len() > 1 { sep } else { Seq::empty() };
        lemma_marks_concat(prev.sql, mid);
        lemma_marks_concat(prev.sql + mid, render_op(s.last()).sql);
    }
}

/// Placeholders and parameters agree: where no column name and no custom text
/// of a clause's filters holds a `?`, the clause text has exactly as many `?`
/// placeholders as the clause binds parameters.
pub proof fn lemma_clause_placeholders_match(filters: Seq<FilterOperator>)
    requires
        list_mark_free(filters),
    ensures
        marks(render_list(filters, " AND "@).sql) == render_list(filters, " AND "@).params.len(),
{
    lemma_fixed_text();
    lemma_list_balanced(filters, " AND "@);
}

/// A character of a statement (held as a text of length one), or a parameter
/// standing where it is bound.
pub enum Piece {
    Char(Seq<char>),
    Param(SqlValueModel),
}

/// Text as pieces, one per character.
pub open spec fn as_pieces(s: Seq<char>) -> Seq<Piece>
    decreases s.len(),
{
    if s.len() == 0 {
        Seq::empty()
    } else {
        as_pieces(s.drop_last()).push(Piece::Char(seq![s.last()]))
    }
}

/// The text with its `?` placeholders replaced, left to right, by the
/// parameters in list order.
pub open spec fn bind(sql: Seq<char>, params: Seq<SqlValueModel>) -> Seq<Piece>
    decreases sql.len(),
{
    if sql.len() == 0 {
        Seq::empty()
    } else if sql.last() == '?' {
        bind(sql.drop_last(), params.drop_last()).push(Piece::Param(params.last()))
    } else {
        bind(sql.drop_last(), params).push(Piece::Char(seq![sql.last()]))
    }
}

/// Values separated by `", "`.
pub open spec fn inline_values(vs: Seq<SqlValueModel>) -> Seq<Piece>
    decreases vs.len(),
{
    if vs.len() == 0 {
        Seq::empty()
    } else if vs.len() == 1 {
        seq![Piece::Param(vs[0])]
    } else {
        inline_values(vs.drop_last()) + as_pieces(", "@) + seq![Piece::Param(vs.last())]
    }
}

/// A predicate with its values written where they are compared.
pub open spec fn inline_filter(f: Filter) -> Seq<Piece> {
    match f.operator {
        Operator::IsNull => as_pieces(f.column@ + " IS NULL"@),
        Operator::IsNotNull => as_pieces(f.column@ + " IS NOT NULL"@),
        _ => {
            let head = as_pieces(f.column@ + " "@ + operator_text(f.operator) + " "@);
            match f.value {
                FilterValue::Single(v) => head + seq![Piece::Param(native_of(v))],
                FilterValue::Multiple(vs) => head + as_pieces("("@) + inline_values(natives(vs@)) + as_pieces(")"@),
                FilterValue::Range(lo, hi) => head + seq![Piece::Param(native_of(lo))] + as_pieces(" AND "@)
                    + seq![Piece::Param(native_of(hi))],
            }
        },
    }
}

/// A filter tree with its values written where they are compared.
pub open spec fn inline_op(f: FilterOperator) -> Seq<Piece>
    decreases f, 1nat,
{
    match f {
        FilterOperator::Single(flt) => inline_filter(flt),
        FilterOperator::And(v) => as_pieces("("@) + inline_list(v@, " AND "@) + as_pieces(")"@),
        FilterOperator::Or(v) => as_pieces("("@) + inline_list(v@, " OR "@) + as_pieces(")"@),
        FilterOperator::Not(b) => as_pieces("NOT ("@) + inline_op(*b) + as_pieces(")"@),
        FilterOperator::Custom(t) => as_pieces(t@),
        FilterOperator::Bound(t, ps) => bind(t@, models(ps@)),
    }
}

/// Filter trees joined with `sep`, their values written in place.
pub open spec fn inline_list(s: Seq<FilterOperator>, sep: Seq<char>) -> Seq<Piece>
    decreases s, 0nat,
{
    if s.len() == 0 {
        Seq::empty()
    } else {
        inline_list(s.drop_last(), sep) + (if s.len() > 1 { as_pieces(sep) } else { Seq::empty() })
            + inline_op(s.last())
    }
}

proof fn lemma_bind_concat(a: Seq<char>, b: Seq<char>, p: Seq<SqlValueModel>, q: Seq<SqlValueModel>)
    requires
        marks(a) == p.len(),
        marks(b) == q.len(),
    ensures
        bind(a + b, p + q) == bind(a, p) + bind(b, q),
    decreases b.len(),
{
    if b.len() == 0 {
        assert(a + b =~= a);
        assert(p + q =~= p);
        assert(bind(a, p) + bind(b, q) =~= bind(a, p));
    } else {
        let b2 = b.drop_last();
        assert((a + b).drop_last() =~= a + b2);
        assert((a + b).last() == b.last());
        if b.last() == '?' {
            let q2 = q.drop_last();
            assert((p + q).drop_last() =~= p + q2);
            assert((p + q).last() == q.last());
            lemma_bind_concat(a, b2, p, q2);
            assert(bind(a + b, p + q) == bind(a + b2, p + q2).push(Piece::Param(q.last())));
            assert(bind(a + b, p + q) =~= bind(a, p) + bind(b, q));
        } else {
            lemma_bind_concat(a, b2, p, q);
            assert(bind(a + b, p + q) == bind(a + b2, p + q).push(Piece::Char(seq![b.last()])));
            assert(bind(a + b, p + q) =~= bind(a, p) + bind(b, q));
        }
    }
}

proof fn lemma_bind_free(s: Seq<char>)
    requires
        marks(s) == 0,
    ensures
        bind(s, Seq::empty()) == as_pieces(s),
    decreases s.len(),
{
    if s.len() > 0 {
        lemma_bind_free(s.drop_last());
    }
}

proof fn lemma_text_concat(a: Seq<char>, b: Seq<char>)
    ensures
        as_pieces(a + b) == as_pieces(a) + as_pieces(b),
    decreases b.len(),
{
    if b.len() == 0 {
        assert(a + b =~= a);
        assert(as_pieces(a) + as_pieces(b) =~= as_pieces(a));
    } else {
        lemma_text_concat(a, b.drop_last());
        assert((a + b).drop_last() =~= a + b.drop_last());
        assert((a + b).last() == b.last());
        assert(as_pieces(a + b) == as_pieces(a + b.drop_last()).push(Piece::Char(seq![b.last()])));
        assert(as_pieces(a + b) =~= as_pieces(a) + as_pieces(b));
    }
}

/// Binds a mark-free text followed by a rendering whose marks match its parameters.
proof fn lemma_bind_after_text(a: Seq<char>, b: Seq<char>, q: Seq<SqlValueModel>)
    requires
        marks(a) == 0,
        marks(b) == q.len(),
    ensures
        bind(a + b, q) == as_pieces(a) + bind(b, q),
{
    lemma_bind_concat(a, b, Seq::empty(), q);
    assert(Seq::<SqlValueModel>::empty() + q =~= q);
    lemma_bind_free(a);
}

proof fn lemma_bind_before_text(a: Seq<char>, p: Seq<SqlValueModel>, b: Seq<char>)
    requires
        marks(a) == p.len(),
        marks(b) == 0,
    ensures
        bind(a + b, p) == bind(a, p) + as_pieces(b),
{
    lemma_bind_concat(a, b, p, Seq::empty());
    assert(p + Seq::<SqlValueModel>::empty() =~= p);
    lemma_bind_free(b);
}

proof fn lemma_bind_mark(v: SqlValueModel)
    ensures
        bind("?"@, seq![v]) == seq![Piece::Param(v)],
{
    reveal_strlit("?");
    reveal_with_fuel(bind, 2);
    assert("?"@.drop_last() =~= Seq::<char>::empty());
    assert(seq![v].drop_last() =~= Seq::<SqlValueModel>::empty());
    assert(bind("?"@, seq![v]) =~= seq![Piece::Param(v)]);
}

proof fn lemma_bind_placeholders(vs: Seq<SqlValueModel>)
    ensures
        bind(placeholders(vs.len()), vs) == inline_values(vs),
    decreases vs.len(),
{
    lemma_fixed_text();
    if vs.len() == 0 {
    } else if vs.len() == 1 {
        assert(vs =~= seq![vs[0]]);
        lemma_bind_mark(vs[0]);
    } else {
        let n = vs.len();
        let prev = vs.drop_last();
        lemma_bind_placeholders(prev);
        lemma_placeholders((n - 1) as nat);
        lemma_bind_before_text(placeholders((n - 1) as nat), prev, ", "@);
        lemma_marks_concat(placeholders((n - 1) as nat), ", "@);
        lemma_bind_concat(placeholders((n - 1) as nat) + ", "@, "?"@, prev, seq![vs.last()]);
        lemma_bind_mark(vs.last());
        assert(prev + seq![vs.last()] =~= vs);
    }
}

proof fn lemma_bind_filter(f: Filter)
    requires
        mark_free(f.column@),
    ensures
        bind(render_filter(f).sql, render_filter(f).params) == inline_filter(f),
{
    lemma_fixed_text();
    lemma_operator_text(f.operator);
    let hs = f.column@ + " "@ + operator_text(f.operator) + " "@;
    lemma_marks_concat(f.column@, " "@);
    lemma_marks_concat(f.column@ + " "@, operator_text(f.operator));
    lemma_marks_concat(f.column@ + " "@ + operator_text(f.operator), " "@);
    match f.operator {
        Operator::IsNull => {
            lemma_marks_concat(f.column@, " IS NULL"@);
            lemma_bind_free(f.column@ + " IS NULL"@);
        },
        Operator::IsNotNull => {
            lemma_marks_concat(f.column@, " IS NOT NULL"@);
            lemma_bind_free(f.column@ + " IS NOT NULL"@);
        },
        _ => match f.value {
            FilterValue::Single(v) => {
                lemma_bind_mark(native_of(v));
                lemma_bind_after_text(hs, "?"@, seq![native_of(v)]);
            },
            FilterValue::Multiple(vs) => {
                let ps = natives(vs@);
                assert(ps.len() == vs@.len());
                lemma_placeholders(vs@.len());
                lemma_bind_placeholders(ps);
                lemma_marks_concat(hs, "("@);
                lemma_marks_concat("("@, placeholders(vs@.len()));
                lemma_bind_after_text(hs + "("@, placeholders(vs@.len()), ps);
                lemma_marks_concat(hs + "("@, placeholders(vs@.len()));
                lemma_bind_before_text(hs + "("@ + placeholders(vs@.len()), ps, ")"@);
                lemma_text_concat(hs, "("@);
            },
            FilterValue::Range(lo, hi) => {
                reveal_strlit("?");
                reveal_strlit(" AND ");
                reveal_strlit("? AND ?");
                assert("? AND ?"@ =~= "?"@ + " AND "@ + "?"@);
                let a = native_of(lo);
                let b = native_of(hi);
                lemma_bind_mark(a);
                lemma_bind_mark(b);
                lemma_bind_before_text("?"@, seq![a], " AND "@);
                lemma_marks_concat("?"@, " AND "@);
                lemma_bind_concat("?"@ + " AND "@, "?"@, seq![a], seq![b]);
                assert(seq![a] + seq![b] =~= seq![a, b]);
                lemma_bind_after_text(hs, "? AND ?"@, seq![a, b]);
            },
        },
    }
}

proof fn lemma_bind_group(open: Seq<char>, inner: Rendered, close: Seq<char>)
    requires
        marks(open) == 0,
        marks(close) == 0,
        balanced(inner),
    ensures
        bind(open + inner.sql + close, inner.params) == as_pieces(open) + bind(inner.sql, inner.params)
            + as_pieces(close),
{
    lemma_bind_after_text(open, inner.sql, inner.params);
    lemma_marks_concat(open, inner.sql);
    lemma_bind_before_text(open + inner.sql, inner.params, close);
}

proof fn lemma_bind_op(f: FilterOperator)
    requires
        op_mark_free(f),
    ensures
        bind(render_op(f).sql, render_op(f).params) == inline_op(f),
    decreases f, 1nat,
{
    lemma_fixed_text();
    match f {
        FilterOperator::Single(flt) => lemma_bind_filter(flt),
        FilterOperator::And(v) => {
            lemma_bind_list(v@, " AND "@);
            lemma_list_balanced(v@, " AND "@);
            lemma_bind_group("("@, render_list(v@, " AND "@), ")"@);
        },
        FilterOperator::Or(v) => {
            lemma_bind_list(v@, " OR "@);
            lemma_list_balanced(v@, " OR "@);
            lemma_bind_group("("@, render_list(v@, " OR "@), ")"@);
        },
        FilterOperator::Not(b) => {
            lemma_bind_op(*b);
            lemma_op_balanced(*b);
            lemma_bind_group("NOT ("@, render_op(*b), ")"@);
        },
        FilterOperator::Custom(t) => lemma_bind_free(t@),
        FilterOperator::Bound(t, ps) => {},
    }
}

proof fn lemma_bind_list(s: Seq<FilterOperator>, sep: Seq<char>)
    requires
        list_mark_free(s),
        mark_free(sep),
    ensures
        bind(render_list(s, sep).sql, render_list(s, sep).params) == inline_list(s, sep),
    decreases s, 0nat,
{
    lemma_fixed_text();
    if s.len() > 0 {
        lemma_bind_list(s.drop_last(), sep);
        lemma_list_balanced(s.drop_last(), sep);
        lemma_bind_op(s.last());
        lemma_op_balanced(s.last());
        let prev = render_list(s.drop_last(), sep);
        let last = render_op(s.last());
        let mid: Seq<char> = if s.len() > 1 { sep } else { Seq::empty() };
        lemma_bind_before_text(prev.sql, prev.params, mid);
        lemma_marks_concat(prev.sql, mid);
        lemma_bind_concat(prev.sql + mid, last.sql, prev.params, last.params);
    }
}

/// Placeholders bind their parameters by position: where no column name and
/// no custom text of a clause's filters holds a `?`, replacing the clause
/// text's placeholders, left to right, by the parameters in list order writes
/// each value exactly where its filter compares it.
pub proof fn lemma_clause_binds_in_order(filters: Seq<FilterOperator>)
    requires
        list_mark_free(filters),
    ensures
        bind(render_list(filters, " AND "@).sql, render_list(filters, " AND "@).params)
            == inline_list(filters, " AND "@),
{
    lemma_fixed_text();
    lemma_bind_list(filters, " AND "@);
}

/// A COUNT statement depends on the table, the joins, the WHERE filters, the
/// grouping and the HAVING filters alone: builders that agree on these give the
/// same statement, whatever each selects, aggregates, orders by, limits or skips.
pub proof fn lemma_count_ignores_selection(a: QueryModel, b: QueryModel)
    requires
        a.table == b.table,
        a.joins == b.joins,
        a.where_clauses == b.where_clauses,
        a.group_by == b.group_by,
        a.having == b.having,
    ensures
        count_statement(a) == count_statement(b),
{
}

/// Where an aggregate is set, a SELECT statement selects it and not the column
/// list: builders that differ only in their column lists give the same statement.
pub proof fn lemma_aggregate_overrides_columns(m: QueryModel, columns: Seq<Seq<char>>)
    requires
        m.aggregate is Some,
    ensures
        select_statement(QueryModel { select_columns: columns, ..m }) == select_statement(m),
{
    assert(projection_text(QueryModel { select_columns: columns, ..m }) == projection_text(m));
}

/// Changing a builder's limit and offset changes nothing in its SELECT statement
/// but the trailing LIMIT / OFFSET text: the parameters stay the same, and both
/// texts are the same head followed by their own paging text.
pub proof fn lemma_paging_changes_only_the_tail(m: QueryModel, limit: Option<u32>, offset: Option<u32>)
    ensures
        select_statement(QueryModel { limit, offset, ..m }).params == select_statement(m).params,
        select_statement(QueryModel { limit, offset, ..m }).sql == select_head(m) + paging_text(
            limit,
            offset,
        ),
        select_statement(m).sql == select_head(m) + paging_text(m.limit, m.offset),
{
    let paged = QueryModel { limit, offset, ..m };
    assert(projection_text(paged) == projection_text(m));
    assert(body(paged) == body(m));
}

/// A filter tree whose column names and custom texts hold no `?`, and whose
/// bound texts hold one `?` per parameter, renders with one placeholder per
/// parameter.
pub proof fn lemma_tree_balanced(f: FilterOperator)
    requires
        op_mark_free(f),
    ensures
        balanced(render_op(f)),
{
    lemma_op_balanced(f);
}

/// Texts none of which holds a `?`.
pub open spec fn all_mark_free(s: Seq<Seq<char>>) -> bool {
    forall|i: int| 0 <= i < s.len() ==> mark_free(#[trigger] s[i])
}

/// Renderings each of which has one placeholder per parameter.
pub open spec fn all_balanced(s: Seq<Rendered>) -> bool {
    forall|i: int| 0 <= i < s.len() ==> balanced(#[trigger] s[i])
}

/// An optional alias that holds no `?`.
pub open spec fn alias_mark_free(a: Option<Seq<char>>) -> bool {
    match a {
        Some(x) => mark_free(x),
        None => true,
    }
}

/// A join whose table, alias and condition hold no `?`.
pub open spec fn join_mark_free(j: JoinModel) -> bool {
    mark_free(j.table) && alias_mark_free(j.alias) && mark_free(j.condition)
}

/// No text that a builder's caller supplied holds a `?`, but for filters, each
/// of which renders with one placeholder per parameter.
pub open spec fn statement_mark_free(m: QueryModel) -> bool {
    &&& mark_free(m.table)
    &&& all_mark_free(m.select_columns)
    &&& forall|i: int| 0 <= i < m.joins.len() ==> join_mark_free(#[trigger] m.joins[i])
    &&& all_balanced(m.where_clauses)
    &&& all_mark_free(m.group_by)
    &&& all_balanced(m.having)
    &&& forall|i: int| 0 <= i < m.order_by.len() ==> mark_free(#[trigger] m.order_by[i].column)
    &&& match m.aggregate {
        Some(a) => mark_free(a.column) && alias_mark_free(a.alias),
        None => true,
    }
}

proof fn lemma_statement_text()
    ensures
        marks("SELECT "@) == 0,
        marks("DISTINCT "@) == 0,
        marks(" FROM "@) == 0,
        marks(" WHERE "@) == 0,
        marks(" HAVING "@) == 0,
        marks(" GROUP BY "@) == 0,
        marks(" ORDER BY "@) == 0,
        marks(" LIMIT "@) == 0,
        marks(" OFFSET "@) == 0,
        marks("SELECT COUNT(*)"@) == 0,
        marks(" AS "@) == 0,
        marks(" ON "@) == 0,
{
    reveal_with_fuel(marks, 16);
    reveal_strlit("SELECT ");
    reveal_strlit("DISTINCT ");
    reveal_strlit(" FROM ");
    reveal_strlit(" WHERE ");
    reveal_strlit(" HAVING ");
    reveal_strlit(" GROUP BY ");
    reveal_strlit(" ORDER BY ");
    reveal_strlit(" LIMIT ");
    reveal_strlit(" OFFSET ");
    reveal_strlit("SELECT COUNT(*)");
    reveal_strlit(" AS ");
    reveal_strlit(" ON ");
}

proof fn lemma_keywords(j: JoinType, a: Aggregate, o: SortOrder)
    ensures
        marks(join_text(j)) == 0,
        marks(aggregate_text(a)) == 0,
        marks(order_text(o)) == 0,
{
    reveal_with_fuel(marks, 12);
    match j {
        JoinType::Inner => reveal_strlit("INNER JOIN"),
        JoinType::Left => reveal_strlit("LEFT JOIN"),
        JoinType::Right => reveal_strlit("RIGHT JOIN"),
        JoinType::Full => reveal_strlit("FULL JOIN"),
    }
    match a {
        Aggregate::Count => reveal_strlit("COUNT"),
        Aggregate::Sum => reveal_strlit("SUM"),
        Aggregate::Avg => reveal_strlit("AVG"),
        Aggregate::Min => reveal_strlit("MIN"),
        Aggregate::Max => reveal_strlit("MAX"),
    }
    match o {
        SortOrder::Asc => reveal_strlit("ASC"),
        SortOrder::Desc => reveal_strlit("DESC"),
    }
}

proof fn lemma_decimal_free(n: nat)
    ensures
        marks(decimal(n)) == 0,
    decreases n,
{
    reveal_with_fuel(marks, 2);
    if n >= 10 {
        lemma_decimal_free(n / 10);
        assert(decimal(n).drop_last() =~= decimal(n / 10));
    } else {
        assert(seq![digit_char(n)].drop_last() =~= Seq::<char>::empty());
    }
}

proof fn lemma_join_free(s: Seq<Seq<char>>, sep: Seq<char>)
    requires
        all_mark_free(s),
        mark_free(sep),
    ensures
        marks(join(s, sep)) == 0,
    decreases s.len(),
{
    broadcast use lemma_marks_concat;
    if s.len() > 1 {
        assert(all_mark_free(s.drop_last())) by {
            assert forall|i: int| 0 <= i < s.len() - 1 implies mark_free(#[trigger] s.drop_last()[i]) by {
                assert(mark_free(s[i]));
            }
        }
        lemma_join_free(s.drop_last(), sep);
        assert(mark_free(s[s.len() - 1]));
    } else if s.len() == 1 {
        assert(mark_free(s[0]));
    }
}

proof fn lemma_joins_free(js: Seq<JoinModel>)
    requires
        forall|i: int| 0 <= i < js.len() ==> join_mark_free(#[trigger] js[i]),
    ensures
        marks(joins_text(js)) == 0,
    decreases js.len(),
{
    broadcast use lemma_marks_concat;
    lemma_fixed_text();
    lemma_statement_text();
    if js.len() > 0 {
        let j = js.last();
        assert(join_mark_free(js[js.len() - 1]));
        assert(forall|i: int| 0 <= i < js.len() - 1 ==> #[trigger] js.drop_last()[i] == js[i]);
        lemma_joins_free(js.drop_last());
        lemma_keywords(j.join_type, Aggregate::Count, SortOrder::Asc);
        assert(marks(alias_text(j.alias)) == 0);
        assert(marks(join_clause_text(j)) == 0);
    }
}

proof fn lemma_join_rendered_balanced(rs: Seq<Rendered>, sep: Seq<char>)
    requires
        all_balanced(rs),
        mark_free(sep),
    ensures
        balanced(join_rendered(rs, sep)),
    decreases rs.len(),
{
    broadcast use lemma_marks_concat;
    lemma_fixed_text();
    if rs.len() > 0 {
        assert(all_balanced(rs.drop_last())) by {
            assert forall|i: int| 0 <= i < rs.len() - 1 implies balanced(#[trigger] rs.drop_last()[i]) by {
                assert(balanced(rs[i]));
            }
        }
        lemma_join_rendered_balanced(rs.drop_last(), sep);
        assert(balanced(rs[rs.len() - 1]));
    }
}

proof fn lemma_body_balanced(m: QueryModel)
    requires
        statement_mark_free(m),
    ensures
        balanced(body(m)),
{
    broadcast use lemma_marks_concat;
    lemma_fixed_text();
    lemma_statement_text();
    lemma_joins_free(m.joins);
    lemma_join_rendered_balanced(m.where_clauses, " AND "@);
    lemma_join_rendered_balanced(m.having, " AND "@);
    lemma_join_free(m.group_by, ", "@);
    let w = filter_clause(" WHERE "@, m.where_clauses);
    let h = filter_clause(" HAVING "@, m.having);
    assert(balanced(w));
    assert(balanced(h));
    assert(marks(group_text(m.group_by)) == 0);
}

/// Placeholders and parameters agree over a whole statement: where no text
/// that the caller supplied holds a `?` and every filter renders with one
/// placeholder per parameter, the SELECT and the COUNT statement each have
/// exactly as many `?` placeholders as they bind parameters.
pub proof fn lemma_statement_placeholders_match(m: QueryModel)
    requires
        statement_mark_free(m),
    ensures
        marks(select_statement(m).sql) == select_statement(m).params.len(),
        marks(count_statement(m).sql) == count_statement(m).params.len(),
{
    broadcast use lemma_marks_concat;
    lemma_fixed_text();
    lemma_statement_text();
    lemma_body_balanced(m);
    lemma_join_free(m.select_columns, ", "@);
    match m.aggregate {
        Some(a) => {
            lemma_keywords(JoinType::Inner, a.function, SortOrder::Asc);
            assert(marks(alias_text(a.alias)) == 0);
        },
        None => {},
    }
    assert(marks(projection_text(m)) == 0);
    let texts = m.order_by.map_values(|x: SortModel| sort_text(x));
    assert(all_mark_free(texts)) by {
        assert forall|i: int| 0 <= i < texts.len() implies mark_free(#[trigger] texts[i]) by {
            assert(mark_free(m.order_by[i].column));
            lemma_keywords(JoinType::Inner, Aggregate::Count, m.order_by[i].order);
        }
    }
    lemma_join_free(texts, ", "@);
    assert(marks(order_clause(m.order_by)) == 0);
    match m.limit {
        Some(n) => lemma_decimal_free(n as nat),
        None => {},
    }
    match m.offset {
        Some(n) => lemma_decimal_free(n as nat),
        None => {},
    }
    assert(marks(paging_text(m.limit, m.offset)) == 0);
    assert(marks(select_head(m)) == body(m).params.len());
}

/// The values a predicate compares, lowered for binding: none for a null check,
/// otherwise its value, its list of values, or its lower and upper bound.
pub open spec fn filter_values(f: Filter) -> Seq<SqlValueModel> {
    match f.operator {
        Operator::IsNull => Seq::empty(),
        Operator::IsNotNull => Seq::empty(),
        _ => match f.value {
            FilterValue::Single(v) => seq![native_of(v)],
            FilterValue::Multiple(vs) => natives(vs@),
            FilterValue::Range(lo, hi) => seq![native_of(lo), native_of(hi)],
        },
    }
}

/// The values of a filter tree, depth first and left to right: custom text
/// has none, bound text has its own parameters.
pub open spec fn tree_values(f: FilterOperator) -> Seq<SqlValueModel>
    decreases f, 1nat,
{
    match f {
        FilterOperator::Single(flt) => filter_values(flt),
        FilterOperator::And(v) => list_values(v@),
        FilterOperator::Or(v) => list_values(v@),
        FilterOperator::Not(b) => tree_values(*b),
        FilterOperator::Custom(t) => Seq::empty(),
        FilterOperator::Bound(t, ps) => models(ps@),
    }
}

/// The values of a list of filter trees, one tree after the other.
pub open spec fn list_values(s: Seq<FilterOperator>) -> Seq<SqlValueModel>
    decreases s, 0nat,
{
    if s.len() == 0 {
        Seq::empty()
    } else {
        list_values(s.drop_last()) + tree_values(s.last())
    }
}

proof fn lemma_tree_params(f: FilterOperator)
    ensures
        render_op(f).params == tree_values(f),
    decreases f, 1nat,
{
    match f {
        FilterOperator::And(v) => lemma_list_params(v@, " AND "@),
        FilterOperator::Or(v) => lemma_list_params(v@, " OR "@),
        FilterOperator::Not(b) => lemma_tree_params(*b),
        _ => {},
    }
}

proof fn lemma_list_params(s: Seq<FilterOperator>, sep: Seq<char>)
    ensures
        render_list(s, sep).params == list_values(s),
    decreases s, 0nat,
{
    if s.len() > 0 {
        lemma_list_params(s.drop_last(), sep);
        lemma_tree_params(s.last());
    }
}

/// A clause binds the values of its filters, lowered for binding, depth first
/// and left to right; by `lemma_clause_binds_in_order`, the k-th `?` of the
/// clause text is where the k-th of these values is compared.
pub proof fn lemma_clause_parameters_in_order(filters: Seq<FilterOperator>)
    ensures
        render_list(filters, " AND "@).params == list_values(filters),
{
    lemma_list_params(filters, " AND "@);
}

} // verus!
