//! Scalar values used as statement parameters.
use vstd::prelude::*;

verus! {

/// A scalar value that a filter compares a column with.
///
/// `Real` holds the IEEE-754 bit pattern of a 64-bit float.
#[derive(Debug, Clone, PartialEq)]
pub enum Value {
    Null,
    Integer(i64),
    Real(u64),
    Text(String),
    Blob(Vec<u8>),
    Boolean(bool),
}

/// A parameter in the form the database binds it: there is no boolean kind.
#[derive(Debug, Clone, PartialEq)]
pub enum SqlValue {
    Null,
    Integer(i64),
    Real(u64),
    Text(String),
    Blob(Vec<u8>),
}

/// The mathematical content of a [`SqlValue`].
pub enum SqlValueModel {
    Null,
    Integer(i64),
    Real(u64),
    Text(Seq<char>),
    Blob(Seq<u8>),
}

impl View for SqlValue {
    type V = SqlValueModel;

    open spec fn view(&self) -> SqlValueModel {
        match self {
            SqlValue::Null => SqlValueModel::Null,
            SqlValue::Integer(i) => SqlValueModel::Integer(*i),
            SqlValue::Real(b) => SqlValueModel::Real(*b),
            SqlValue::Text(s) => SqlValueModel::Text(s@),
            SqlValue::Blob(b) => SqlValueModel::Blob(b@),
        }
    }
}

/// The parameter that a value is bound as: a boolean becomes the integer 1 or 0,
/// every other kind keeps its content.
pub open spec fn native_of(v: Value) -> SqlValueModel {
    match v {
        Value::Null => SqlValueModel::Null,
        Value::Integer(i) => SqlValueModel::Integer(i),
        Value::Real(b) => SqlValueModel::Real(b),
        Value::Text(s) => SqlValueModel::Text(s@),
        Value::Blob(b) => SqlValueModel::Blob(b@),
        Value::Boolean(b) => SqlValueModel::Integer(if b { 1 } else { 0 }),
    }
}

/// The models of a list of parameters.
pub open spec fn models(s: Seq<SqlValue>) -> Seq<SqlValueModel> {
    s.map_values(|p: SqlValue| p@)
}

/// The parameters that a list of values is bound as.
pub open spec fn natives(s: Seq<Value>) -> Seq<SqlValueModel> {
    s.map_values(|v: Value| native_of(v))
}

impl SqlValue {
    /// A copy of the parameter.
    pub fn duplicate(&self) -> (r: SqlValue)
        ensures
            r@ == self@,
    {
        match self {
            SqlValue::Null => SqlValue::Null,
            SqlValue::Integer(i) => SqlValue::Integer(*i),
            SqlValue::Real(b) => SqlValue::Real(*b),
            SqlValue::Text(s) => SqlValue::Text(s.clone()),
            SqlValue::Blob(b) => SqlValue::Blob(b.clone()),
        }
    }
}

/// Copies a list of parameters.
pub fn duplicate_params(v: &Vec<SqlValue>) -> (r: Vec<SqlValue>)
    ensures
        models(r@) == models(v@),
{
    let mut out: Vec<SqlValue> = Vec::new();
    let n = v.len();
    let mut i: usize = 0;
    while i < n
        invariant
            n == v@.len(),
            i <= n,
            models(out@) == models(v@.subrange(0, i as int)),
        decreases n - i,
    {
        let ghost before = out@;
        out.push(v[i].duplicate());
        proof {
            assert(models(out@) =~= models(before).push(v@[i as int]@));
            assert(models(v@.subrange(0, i as int + 1)) =~= models(v@.subrange(0, i as int)).push(
                v@[i as int]@,
            ));
        }
        i = i + 1;
    }
    assert(v@.subrange(0, n as int) =~= v@);
    out
}

impl Value {
    /// Lowers the value to the parameter the database binds.
    pub fn to_native(&self) -> (r: SqlValue)
        ensures
            r@ == native_of(*self),
    {
        match self {
            Value::Null => SqlValue::Null,
            Value::Integer(i) => SqlValue::Integer(*i),
            Value::Real(b) => SqlValue::Real(*b),
            Value::Text(s) => SqlValue::Text(s.clone()),
            Value::Blob(b) => SqlValue::Blob(b.clone()),
            Value::Boolean(b) => SqlValue::Integer(if *b { 1 } else { 0 }),
        }
    }
}

} // verus!
