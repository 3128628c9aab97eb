//! The predicate data model: comparison operators, filter values, single
//! filters, the boolean filter tree, sort specifications and clause keywords.
use vstd::prelude::*;
use crate::value::{SqlValue, Value};

verus! {

/// A comparison between a column and a filter value.
#[derive(Debug, Clone, Copy, PartialEq, Eq, Structural)]
pub enum Operator {
    Eq,
    Ne,
    Lt,
    Le,
    Gt,
    Ge,
    Like,
    NotLike,
    In,
    NotIn,
    IsNull,
    IsNotNull,
    Between,
    NotBetween,
}

/// The SQL text of an operator.
pub open spec fn operator_text(op: Operator) -> Seq<char> {
    match op {
        Operator::Eq => "="@,
        Operator::Ne => "!="@,
        Operator::Lt => "<"@,
        Operator::Le => "<="@,
        Operator::Gt => ">"@,
        Operator::Ge => ">="@,
        Operator::Like => "LIKE"@,
        Operator::NotLike => "NOT LIKE"@,
        Operator::In => "IN"@,
        Operator::NotIn => "NOT IN"@,
        Operator::IsNull => "IS NULL"@,
        Operator::IsNotNull => "IS NOT NULL"@,
        Operator::Between => "BETWEEN"@,
        Operator::NotBetween => "NOT BETWEEN"@,
    }
}

impl Operator {
    /// The SQL text of the operator.
    pub fn sql(&self) -> (r: &'static str)
        ensures
            r@ == operator_text(*self),
    {
        match self {
            Operator::Eq => "=",
            Operator::Ne => "!=",
            Operator::Lt => "<",
            Operator::Le => "<=",
            Operator::Gt => ">",
            Operator::Ge => ">=",
            Operator::Like => "LIKE",
            Operator::NotLike => "NOT LIKE",
            Operator::In => "IN",
            Operator::NotIn => "NOT IN",
            Operator::IsNull => "IS NULL",
            Operator::IsNotNull => "IS NOT NULL",
            Operator::Between => "BETWEEN",
            Operator::NotBetween => "NOT BETWEEN",
        }
    }
}

/// The value side of a filter: one value, a list (for `IN`), or a lower and an
/// upper bound (for `BETWEEN`).
#[derive(Debug, Clone)]
pub enum FilterValue {
    Single(Value),
    Multiple(Vec<Value>),
    Range(Value, Value),
}

/// One predicate: a column, an operator and a value.
#[derive(Debug, Clone)]
pub struct Filter {
    pub column: String,
    pub operator: Operator,
    pub value: FilterValue,
}

impl Filter {
    /// A predicate comparing `column` with a single value.
    pub fn new(column: &str, operator: Operator, value: Value) -> (r: Filter)
        ensures
            r.column@ == column@,
            r.operator == operator,
            r.value == FilterValue::Single(value),
    {
        Filter { column: column.to_string(), operator, value: FilterValue::Single(value) }
    }

    /// A predicate with a value of any shape.
    pub fn with_value(column: &str, operator: Operator, value: FilterValue) -> (r: Filter)
        ensures
            r.column@ == column@,
            r.operator == operator,
            r.value == value,
    {
        Filter { column: column.to_string(), operator, value }
    }

    /// `column = value`.
    pub fn eq(column: &str, value: Value) -> (r: Filter)
        ensures
            r.column@ == column@,
            r.operator == Operator::Eq,
            r.value == FilterValue::Single(value),
    {
        Filter::new(column, Operator::Eq, value)
    }

    /// `column != value`.
    pub fn ne(column: &str, value: Value) -> (r: Filter)
        ensures
            r.column@ == column@,
            r.operator == Operator::Ne,
            r.value == FilterValue::Single(value),
    {
        Filter::new(column, Operator::Ne, value)
    }

    /// `column IS NULL`.
    pub fn is_null(column: &str) -> (r: Filter)
        ensures
            r.column@ == column@,
            r.operator == Operator::IsNull,
            r.value == FilterValue::Single(Value::Null),
    {
        Filter::new(column, Operator::IsNull, Value::Null)
    }

    /// `column IS NOT NULL`.
    pub fn is_not_null(column: &str) -> (r: Filter)
        ensures
            r.column@ == column@,
            r.operator == Operator::IsNotNull,
            r.value == FilterValue::Single(Value::Null),
    {
        Filter::new(column, Operator::IsNotNull, Value::Null)
    }
}

/// A boolean expression over predicates.
///
/// `Custom` holds SQL text that is emitted as it stands, with no parameters:
/// nothing in it is escaped. `Bound` holds SQL text emitted as it stands
/// together with the parameters that its own placeholders bind, in order.
#[derive(Debug)]
pub enum FilterOperator {
    Single(Filter),
    And(Vec<FilterOperator>),
    Or(Vec<FilterOperator>),
    Not(Box<FilterOperator>),
    Custom(String),
    Bound(String, Vec<SqlValue>),
}

impl FilterOperator {
    /// Raw SQL text used as a predicate.
    pub fn custom(text: &str) -> (r: FilterOperator)
        ensures
            r is Custom,
            r->Custom_0@ == text@,
    {
        FilterOperator::Custom(text.to_string())
    }

    /// The negation of a predicate.
    pub fn negate(inner: FilterOperator) -> (r: FilterOperator)
        ensures
            r == FilterOperator::Not(Box::new(inner)),
    {
        FilterOperator::Not(Box::new(inner))
    }
}

/// The direction of a sort.
#[derive(Debug, Clone, Copy, PartialEq, Eq, Structural)]
pub enum SortOrder {
    Asc,
    Desc,
}

/// The SQL keyword of a sort direction.
pub open spec fn order_text(o: SortOrder) -> Seq<char> {
    match o {
        SortOrder::Asc => "ASC"@,
        SortOrder::Desc => "DESC"@,
    }
}

impl SortOrder {
    /// The SQL keyword of the direction.
    pub fn sql(&self) -> (r: &'static str)
        ensures
            r@ == order_text(*self),
    {
        match self {
            SortOrder::Asc => "ASC",
            SortOrder::Desc => "DESC",
        }
    }
}

/// A column to sort by and its direction.
#[derive(Debug, Clone)]
pub struct Sort {
    pub column: String,
    pub order: SortOrder,
}

impl Sort {
    /// A sort on `column` in direction `order`.
    pub fn new(column: &str, order: SortOrder) -> (r: Sort)
        ensures
            r.column@ == column@,
            r.order == order,
    {
        Sort { column: column.to_string(), order }
    }

    /// An ascending sort on `column`.
    pub fn asc(column: &str) -> (r: Sort)
        ensures
            r.column@ == column@,
            r.order == SortOrder::Asc,
    {
        Sort::new(column, SortOrder::Asc)
    }

    /// A descending sort on `column`.
    pub fn desc(column: &str) -> (r: Sort)
        ensures
            r.column@ == column@,
            r.order == SortOrder::Desc,
    {
        Sort::new(column, SortOrder::Desc)
    }
}

/// The kind of a join.
#[derive(Debug, Clone, Copy, PartialEq, Eq, Structural)]
pub enum JoinType {
    Inner,
    Left,
    Right,
    Full,
}

/// The SQL keywords of a join kind.
pub open spec fn join_text(j: JoinType) -> Seq<char> {
    match j {
        JoinType::Inner => "INNER JOIN"@,
        JoinType::Left => "LEFT JOIN"@,
        JoinType::Right => "RIGHT JOIN"@,
        JoinType::Full => "FULL JOIN"@,
    }
}

impl JoinType {
    /// The SQL keywords of the join kind.
    pub fn sql(&self) -> (r: &'static str)
        ensures
            r@ == join_text(*self),
    {
        match self {
            JoinType::Inner => "INNER JOIN",
            JoinType::Left => "LEFT JOIN",
            JoinType::Right => "RIGHT JOIN",
            JoinType::Full => "FULL JOIN",
        }
    }
}

/// An aggregate function.
#[derive(Debug, Clone, Copy, PartialEq, Eq, Structural)]
pub enum Aggregate {
    Count,
    Sum,
    Avg,
    Min,
    Max,
}

/// The SQL name of an aggregate function.
pub open spec fn aggregate_text(a: Aggregate) -> Seq<char> {
    match a {
        Aggregate::Count => "COUNT"@,
        Aggregate::Sum => "SUM"@,
        Aggregate::Avg => "AVG"@,
        Aggregate::Min => "MIN"@,
        Aggregate::Max => "MAX"@,
    }
}

impl Aggregate {
    /// The SQL name of the function.
    pub fn sql(&self) -> (r: &'static str)
        ensures
            r@ == aggregate_text(*self),
    {
        match self {
            Aggregate::Count => "COUNT",
            Aggregate::Sum => "SUM",
            Aggregate::Avg => "AVG",
            Aggregate::Min => "MIN",
            Aggregate::Max => "MAX",
        }
    }
}

} // verus!
