//! Rendering of filter trees to SQL text with `?` placeholders and the
//! parameters that the placeholders bind, in the same order.
use vstd::prelude::*;
use crate::value::{SqlValue, SqlValueModel, Value, duplicate_params, native_of, natives, models};
use crate::filters::{Filter, FilterOperator, FilterValue, Operator, operator_text};

verus! {

broadcast use vstd::std_specs::vec::group_vec_axioms;

/// SQL text together with the parameters its placeholders bind.
pub struct Rendered {
    pub sql: Seq<char>,
    pub params: Seq<SqlValueModel>,
}

/// `n` placeholders separated by `", "`.
pub open spec fn placeholders(n: nat) -> Seq<char>
    decreases n,
{
    if n == 0 {
        Seq::empty()
    } else if n == 1 {
        "?"@
    } else {
        placeholders((n - 1) as nat) + ", "@ + "?"@
    }
}

/// The rendering of one predicate. A null check binds nothing; otherwise the
/// column and operator are followed by one placeholder, a parenthesised list of
/// placeholders, or two placeholders joined by `AND`, as the value's shape asks.
pub open spec fn render_filter(f: Filter) -> Rendered {
    match f.operator {
        Operator::IsNull => Rendered { sql: f.column@ + " IS NULL"@, params: Seq::empty() },
        Operator::IsNotNull => Rendered { sql: f.column@ + " IS NOT NULL"@, params: Seq::empty() },
        _ => {
            let head = f.column@ + " "@ + operator_text(f.operator) + " "@;
            match f.value {
                FilterValue::Single(v) => Rendered { sql: head + "?"@, params: seq![native_of(v)] },
                FilterValue::Multiple(vs) => Rendered {
                    sql: head + "("@ + placeholders(vs@.len()) + ")"@,
                    params: natives(vs@),
                },
                FilterValue::Range(lo, hi) => Rendered {
                    sql: head + "? AND ?"@,
                    params: seq![native_of(lo), native_of(hi)],
                },
            }
        },
    }
}

/// Renderings joined with `sep`, their parameters concatenated.
pub open spec fn join_rendered(s: Seq<Rendered>, sep: Seq<char>) -> Rendered
    decreases s.len(),
{
    if s.len() == 0 {
        Rendered { sql: Seq::empty(), params: Seq::empty() }
    } else {
        let prev = join_rendered(s.drop_last(), sep);
        Rendered {
            sql: prev.sql + (if s.len() > 1 { sep } else { Seq::empty() }) + s.last().sql,
            params: prev.params + s.last().params,
        }
    }
}

/// The renderings of the members of `s`.
pub open spec fn renderings(s: Seq<FilterOperator>) -> Seq<Rendered> {
    s.map_values(|f: FilterOperator| render_op(f))
}

/// Rendering a list is joining the renderings of its members.
pub proof fn lemma_render_list_joins(s: Seq<FilterOperator>, sep: Seq<char>)
    ensures
        render_list(s, sep) == join_rendered(renderings(s), sep),
    decreases s.len(),
{
    if s.len() > 0 {
        lemma_render_list_joins(s.drop_last(), sep);
        assert(renderings(s).drop_last() =~= renderings(s.drop_last()));
    }
}

/// The renderings of `s` joined with `sep`, their parameters concatenated.
pub open spec fn render_list(s: Seq<FilterOperator>, sep: Seq<char>) -> Rendered
    decreases s, 0nat,
{
    if s.len() == 0 {
        Rendered { sql: Seq::empty(), params: Seq::empty() }
    } else {
        let prev = render_list(s.drop_last(), sep);
        let last = render_op(s.last());
        Rendered {
            sql: prev.sql + (if s.len() > 1 { sep } else { Seq::empty() }) + last.sql,
            params: prev.params + last.params,
        }
    }
}

/// The rendering of a filter tree: groups are parenthesised, a negation is
/// written `NOT (...)`, custom text stands as it is and binds nothing, bound
/// text stands as it is and binds its own parameters.
pub open spec fn render_op(f: FilterOperator) -> Rendered
    decreases f, 1nat,
{
    match f {
        FilterOperator::Single(flt) => render_filter(flt),
        FilterOperator::And(v) => {
            let inner = render_list(v@, " AND "@);
            Rendered { sql: "("@ + inner.sql + ")"@, params: inner.params }
        },
        FilterOperator::Or(v) => {
            let inner = render_list(v@, " OR "@);
            Rendered { sql: "("@ + inner.sql + ")"@, params: inner.params }
        },
        FilterOperator::Not(b) => {
            let inner = render_op(*b);
            Rendered { sql: "NOT ("@ + inner.sql + ")"@, params: inner.params }
        },
        FilterOperator::Custom(t) => Rendered { sql: t@, params: Seq::empty() },
        FilterOperator::Bound(t, ps) => Rendered { sql: t@, params: models(ps@) },
    }
}

/// Renders one predicate.
pub fn build_filter(f: &Filter) -> (r: (String, Vec<SqlValue>))
    ensures
        r.0@ == render_filter(*f).sql,
        models(r.1@) == render_filter(*f).params,
{
    let mut sql = String::new();
    let mut params: Vec<SqlValue> = Vec::new();
    match f.operator {
        Operator::IsNull => {
            sql.append(f.column.as_str());
            sql.append(" IS NULL");
        },
        Operator::IsNotNull => {
            sql.append(f.column.as_str());
            sql.append(" IS NOT NULL");
        },
        _ => {
            sql.append(f.column.as_str());
            sql.append(" ");
            sql.append(f.operator.sql());
            sql.append(" ");
            let ghost head = sql@;
            assert(head =~= f.column@ + " "@ + operator_text(f.operator) + " "@);
            match &f.value {
                FilterValue::Single(v) => {
                    sql.append("?");
                    params.push(v.to_native());
                    assert(models(params@) =~= seq![native_of(*v)]);
                },
                FilterValue::Multiple(vs) => {
                    sql.append("(");
                    let n = vs.len();
                    let mut i: usize = 0;
                    while i < n
                        invariant
                            n == vs@.len(),
                            i <= n,
                            sql@ == head + "("@ + placeholders(i as nat),
                            models(params@) == natives(vs@.subrange(0, i as int)),
                        decreases n - i,
                    {
                        if i > 0 {
                            sql.append(", ");
                        }
                        sql.append("?");
                        let ghost before = params@;
                        params.push(vs[i].to_native());
                        proof {
                            assert(models(params@) =~= models(before).push(native_of(vs@[i as int])));
                            assert(natives(vs@.subrange(0, i as int + 1)) =~= natives(
                                vs@.subrange(0, i as int),
                            ).push(native_of(vs@[i as int])));
                        }
                        i = i + 1;
                        assert(sql@ =~= head + "("@ + placeholders(i as nat));
                    }
                    sql.append(")");
                    assert(vs@.subrange(0, n as int) =~= vs@);
                },
                FilterValue::Range(lo, hi) => {
                    sql.append("? AND ?");
                    params.push(lo.to_native());
                    params.push(hi.to_native());
                    assert(models(params@) =~= seq![native_of(*lo), native_of(*hi)]);
                },
            }
        },
    }
    assert(sql@ =~= render_filter(*f).sql);
    (sql, params)
}

/// Renders the filters of `filters` joined with `sep`.
pub fn build_list(filters: &Vec<FilterOperator>, sep: &str) -> (r: (String, Vec<SqlValue>))
    ensures
        r.0@ == render_list(filters@, sep@).sql,
        models(r.1@) == render_list(filters@, sep@).params,
    decreases filters@, 0nat,
{
    let mut sql = String::new();
    let mut params: Vec<SqlValue> = Vec::new();
    let n = filters.len();
    let mut i: usize = 0;
    while i < n
        invariant
            n == filters@.len(),
            i <= n,
            sql@ == render_list(filters@.subrange(0, i as int), sep@).sql,
            models(params@) == render_list(filters@.subrange(0, i as int), sep@).params,
        decreases n - i,
    {
        if i > 0 {
            sql.append(sep);
        }
        let (part_sql, mut part_params) = build_filter_operator(&filters[i]);
        sql.append(part_sql.as_str());
        let ghost old_params = params@;
        let ghost part = part_params@;
        params.append(&mut part_params);
        proof {
            let next = filters@.subrange(0, i as int + 1);
            assert(next.drop_last() =~= filters@.subrange(0, i as int));
            assert(next.last() == filters@[i as int]);
            assert(models(params@) =~= models(old_params) + models(part));
            assert(sql@ =~= render_list(next, sep@).sql);
        }
        i = i + 1;
    }
    assert(filters@.subrange(0, n as int) =~= filters@);
    (sql, params)
}

/// Renders a filter tree.
pub fn build_filter_operator(f: &FilterOperator) -> (r: (String, Vec<SqlValue>))
    ensures
        r.0@ == render_op(*f).sql,
        models(r.1@) == render_op(*f).params,
    decreases *f, 1nat,
{
    match f {
        FilterOperator::Single(flt) => build_filter(flt),
        FilterOperator::And(v) => {
            let (inner, params) = build_list(v, " AND ");
            let mut sql = String::new();
            sql.append("(");
            sql.append(inner.as_str());
            sql.append(")");
            assert(sql@ =~= render_op(*f).sql);
            (sql, params)
        },
        FilterOperator::Or(v) => {
            let (inner, params) = build_list(v, " OR ");
            let mut sql = String::new();
            sql.append("(");
            sql.append(inner.as_str());
            sql.append(")");
            assert(sql@ =~= render_op(*f).sql);
            (sql, params)
        },
        FilterOperator::Not(b) => {
            let (inner, params) = build_filter_operator(b);
            let mut sql = String::new();
            sql.append("NOT (");
            sql.append(inner.as_str());
            sql.append(")");
            assert(sql@ =~= render_op(*f).sql);
            (sql, params)
        },
        FilterOperator::Custom(t) => (t.clone(), Vec::new()),
        FilterOperator::Bound(t, ps) => (t.clone(), duplicate_params(ps)),
    }
}

/// Renders a clause's filter list: an implicit AND over its members.
pub fn build_where_clause(filters: &Vec<FilterOperator>) -> (r: (String, Vec<SqlValue>))
    ensures
        r.0@ == render_list(filters@, " AND "@).sql,
        models(r.1@) == render_list(filters@, " AND "@).params,
{
    build_list(filters, " AND ")
}

/// Two values of the same kind with the same content.
pub open spec fn same_value(a: Value, b: Value) -> bool {
    match (a, b) {
        (Value::Null, Value::Null) => true,
        (Value::Integer(x), Value::Integer(y)) => x == y,
        (Value::Real(x), Value::Real(y)) => x == y,
        (Value::Text(x), Value::Text(y)) => x@ == y@,
        (Value::Blob(x), Value::Blob(y)) => x@ == y@,
        (Value::Boolean(x), Value::Boolean(y)) => x == y,
        _ => false,
    }
}

/// Two lists of values that agree member by member.
pub open spec fn same_values(a: Seq<Value>, b: Seq<Value>) -> bool {
    a.len() == b.len() && forall|i: int| 0 <= i < a.len() ==> same_value(#[trigger] a[i], b[i])
}

/// Two filter values of the same shape with the same values.
pub open spec fn same_filter_value(a: FilterValue, b: FilterValue) -> bool {
    match (a, b) {
        (FilterValue::Single(x), FilterValue::Single(y)) => same_value(x, y),
        (FilterValue::Multiple(xs), FilterValue::Multiple(ys)) => same_values(xs@, ys@),
        (FilterValue::Range(l1, h1), FilterValue::Range(l2, h2)) => same_value(l1, l2) && same_value(h1, h2),
        _ => false,
    }
}

/// Two predicates on the same column with the same operator and value.
pub open spec fn same_filter(a: Filter, b: Filter) -> bool {
    a.column@ == b.column@ && a.operator == b.operator && same_filter_value(a.value, b.value)
}

proof fn lemma_same_values_natives(a: Seq<Value>, b: Seq<Value>)
    requires
        same_values(a, b),
    ensures
        natives(a) == natives(b),
{
    assert forall|i: int| 0 <= i < a.len() implies natives(a)[i] == natives(b)[i] by {
        assert(same_value(a[i], b[i]));
    }
    assert(natives(a) =~= natives(b));
}

impl Value {
    /// A copy of the value: the same kind with the same content.
    pub fn duplicate(&self) -> (r: Value)
        ensures
            same_value(r, *self),
            native_of(r) == native_of(*self),
    {
        match self {
            Value::Null => Value::Null,
            Value::Integer(i) => Value::Integer(*i),
            Value::Real(b) => Value::Real(*b),
            Value::Text(t) => Value::Text(t.clone()),
            Value::Blob(b) => Value::Blob(b.clone()),
            Value::Boolean(b) => Value::Boolean(*b),
        }
    }
}

impl FilterValue {
    /// A copy of the filter value: the same shape with the same values.
    pub fn duplicate(&self) -> (r: FilterValue)
        ensures
            same_filter_value(r, *self),
    {
        match self {
            FilterValue::Single(v) => FilterValue::Single(v.duplicate()),
            FilterValue::Multiple(vs) => {
                let mut out: Vec<Value> = Vec::new();
                let n = vs.len();
                let mut i: usize = 0;
                while i < n
                    invariant
                        n == vs@.len(),
                        i <= n,
                        same_values(out@, vs@.subrange(0, i as int)),
                    decreases n - i,
                {
                    let v = vs[i].duplicate();
                    out.push(v);
                    assert(same_values(out@, vs@.subrange(0, i as int + 1))) by {
                        assert forall|k: int| 0 <= k < i + 1 implies same_value(
                            #[trigger] out@[k],
                            vs@.subrange(0, i as int + 1)[k],
                        ) by {
                            if k < i {
                                assert(same_value(out@[k], vs@.subrange(0, i as int)[k]));
                            }
                        }
                    }
                    i = i + 1;
                }
                assert(vs@.subrange(0, n as int) =~= vs@);
                FilterValue::Multiple(out)
            },
            FilterValue::Range(lo, hi) => FilterValue::Range(lo.duplicate(), hi.duplicate()),
        }
    }
}

impl Filter {
    /// A copy of the predicate: the same column, operator and value.
    pub fn duplicate(&self) -> (r: Filter)
        ensures
            same_filter(r, *self),
            render_filter(r) == render_filter(*self),
    {
        let r = Filter { column: self.column.clone(), operator: self.operator, value: self.value.duplicate() };
        proof {
            if r.value is Multiple {
                let xs = r.value->Multiple_0;
                let ys = self.value->Multiple_0;
                lemma_same_values_natives(xs@, ys@);
            }
        }
        assert(render_filter(r) =~~= render_filter(*self));
        r
    }
}

/// Two filter trees of the same shape with the same predicates and texts.
pub open spec fn same_op(a: FilterOperator, b: FilterOperator) -> bool
    decreases a, 1nat,
{
    match a {
        FilterOperator::Single(x) => b is Single && same_filter(x, b->Single_0),
        FilterOperator::And(v) => b is And && same_list(v@, b->And_0@),
        FilterOperator::Or(v) => b is Or && same_list(v@, b->Or_0@),
        FilterOperator::Not(x) => b is Not && same_op(*x, *b->Not_0),
        FilterOperator::Custom(t) => b is Custom && t@ == b->Custom_0@,
        FilterOperator::Bound(t, ps) => b is Bound && t@ == b->Bound_0@ && models(ps@) == models(
            b->Bound_1@,
        ),
    }
}

/// Two lists of filter trees that agree member by member.
pub open spec fn same_list(s: Seq<FilterOperator>, t: Seq<FilterOperator>) -> bool
    decreases s, 0nat,
{
    s.len() == t.len() && (s.len() == 0 || (same_list(s.drop_last(), t.drop_last()) && same_op(
        s.last(),
        t.last(),
    )))
}

/// Copies a list of filter trees.
pub fn duplicate_list(v: &Vec<FilterOperator>) -> (r: Vec<FilterOperator>)
    ensures
        same_list(r@, v@),
        renderings(r@) == renderings(v@),
    decreases v@, 0nat,
{
    let mut out: Vec<FilterOperator> = Vec::new();
    let n = v.len();
    let mut i: usize = 0;
    while i < n
        invariant
            n == v@.len(),
            i <= n,
            renderings(out@) == renderings(v@.subrange(0, i as int)),
            same_list(out@, v@.subrange(0, i as int)),
        decreases n - i,
    {
        let ghost before = out@;
        let c = v[i].duplicate();
        out.push(c);
        proof {
            assert(out@.drop_last() =~= before);
            assert(v@.subrange(0, i as int + 1).drop_last() =~= v@.subrange(0, i as int));
            assert(renderings(out@) =~= renderings(before).push(render_op(v@[i as int])));
            assert(renderings(v@.subrange(0, i as int + 1)) =~= renderings(v@.subrange(0, i as int)).push(
                render_op(v@[i as int]),
            ));
        }
        i = i + 1;
    }
    assert(v@.subrange(0, n as int) =~= v@);
    out
}

impl FilterOperator {
    /// A copy of the filter tree: the same shape with the same predicates and texts.
    pub fn duplicate(&self) -> (r: FilterOperator)
        ensures
            same_op(r, *self),
            render_op(r) == render_op(*self),
        decreases *self, 1nat,
    {
        match self {
            FilterOperator::Single(f) => FilterOperator::Single(f.duplicate()),
            FilterOperator::And(v) => {
                let c = duplicate_list(v);
                proof {
                    lemma_render_list_joins(c@, " AND "@);
                    lemma_render_list_joins(v@, " AND "@);
                }
                FilterOperator::And(c)
            },
            FilterOperator::Or(v) => {
                let c = duplicate_list(v);
                proof {
                    lemma_render_list_joins(c@, " OR "@);
                    lemma_render_list_joins(v@, " OR "@);
                }
                FilterOperator::Or(c)
            },
            FilterOperator::Not(b) => FilterOperator::Not(Box::new(b.duplicate())),
            FilterOperator::Custom(t) => FilterOperator::Custom(t.clone()),
            FilterOperator::Bound(t, ps) => FilterOperator::Bound(t.clone(), duplicate_params(ps)),
        }
    }
}

} // verus!
