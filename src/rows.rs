//! Decisions on the rows that the database returns.
use vstd::prelude::*;
use crate::value::{SqlValue, SqlValueModel};
use crate::error::QueryError;

verus! {

/// The count in the first column of a count statement's first row: `Ok` with
/// the integer, reinterpreted as unsigned, where the row exists and its value is
/// an integer; otherwise a query error.
///
/// `first` is `None` where there was no row, `Some(None)` where the value
/// could not be read.
pub fn count_result(first: Option<Option<SqlValue>>) -> (r: Result<u64, QueryError>)
    ensures
        match first {
            Some(Some(SqlValue::Integer(i))) => r == Ok::<u64, QueryError>(i as u64),
            _ => r is Err && r->Err_0 is Query,
        },
{
    match first {
        Some(Some(SqlValue::Integer(i))) => Ok(i as u64),
        Some(_) => Err(QueryError::Query("Failed to get count".to_string())),
        None => Err(QueryError::Query("No count result".to_string())),
    }
}

/// The total of a paginated query: the integer in the count row, reinterpreted
/// as unsigned, or 0 where there is none.
pub fn total_or_zero(first: Option<Option<SqlValue>>) -> (r: u64)
    ensures
        match first {
            Some(Some(SqlValue::Integer(i))) => r == i as u64,
            _ => r == 0,
        },
{
    match first {
        Some(Some(SqlValue::Integer(i))) => i as u64,
        _ => 0,
    }
}

/// The named columns of a row, in column order: columns without a name are left
/// out.
pub open spec fn named(names: Seq<Option<Seq<char>>>, values: Seq<SqlValueModel>) -> Seq<(Seq<char>, SqlValueModel)>
    decreases names.len(),
{
    if names.len() == 0 || values.len() == 0 {
        Seq::empty()
    } else {
        let prev = named(names.drop_last(), values.drop_last());
        match names.last() {
            Some(n) => prev.push((n, values.last())),
            None => prev,
        }
    }
}

/// The texts of a row's column names.
pub open spec fn name_views(s: Seq<Option<String>>) -> Seq<Option<Seq<char>>> {
    s.map_values(|o: Option<String>| match o { Some(x) => Some(x@), None => None })
}

/// The models of named column values.
pub open spec fn pair_views(s: Seq<(String, SqlValue)>) -> Seq<(Seq<char>, SqlValueModel)> {
    s.map_values(|p: (String, SqlValue)| (p.0@, p.1@))
}

/// Pairs each named column of a row with its value; a record is built from
/// these pairs in order, a later column replacing an earlier one of the same name.
pub fn named_columns(names: Vec<Option<String>>, values: Vec<SqlValue>) -> (r: Vec<(String, SqlValue)>)
    requires
        names@.len() == values@.len(),
    ensures
        pair_views(r@) == named(name_views(names@), values@.map_values(|v: SqlValue| v@)),
{
    let ghost nv = name_views(names@);
    let ghost vv = values@.map_values(|v: SqlValue| v@);
    let n = names.len();
    let mut names = names;
    let mut values = values;
    let ghost all_names = names@;
    let ghost all_values = values@;
    let mut out: Vec<(String, SqlValue)> = Vec::new();
    let mut i: usize = 0;
    while i < n
        invariant
            n == all_names.len(),
            n == all_values.len(),
            i <= n,
            names@ == all_names.subrange(i as int, n as int),
            values@ == all_values.subrange(i as int, n as int),
            nv == name_views(all_names),
            vv == all_values.map_values(|v: SqlValue| v@),
            pair_views(out@) == named(nv.subrange(0, i as int), vv.subrange(0, i as int)),
        decreases n - i,
    {
        let name = names.remove(0);
        let value = values.remove(0);
        proof {
            assert(names@ =~= all_names.subrange(i as int + 1, n as int));
            assert(values@ =~= all_values.subrange(i as int + 1, n as int));
        }
        let ghost before = out@;
        proof {
            assert(name == all_names[i as int]);
            assert(value == all_values[i as int]);
            let nn = nv.subrange(0, i as int + 1);
            let vs = vv.subrange(0, i as int + 1);
            assert(nn.drop_last() =~= nv.subrange(0, i as int));
            assert(vs.drop_last() =~= vv.subrange(0, i as int));
        }
        match name {
            Some(s) => {
                out.push((s, value));
                assert(pair_views(out@) =~= pair_views(before).push((s@, value@)));
            },
            None => {},
        }
        i = i + 1;
    }
    assert(nv.subrange(0, n as int) =~= nv);
    assert(vv.subrange(0, n as int) =~= vv);
    out
}

} // verus!
