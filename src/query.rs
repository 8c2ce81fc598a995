use vstd::prelude::*;
use crate::error::LibsqlError;
use crate::filter::{FilterValue, FilterValueView, LibsqlSearchFilter, SqlValue, SqlValueView, sql_value_of};
use crate::schema::Column;
use crate::text::join;

verus! {

/// The largest sample count that the engine can take as a parameter.
pub const MAX_SAMPLES: u64 = 9223372036854775807;

/// A similarity query: the text to embed, how many neighbours to return, the
/// distance that results must exceed (as IEEE-754 binary64 bits; zero when
/// absent) and a filter over the record columns.
pub struct VectorSearchRequest {
    query: String,
    samples: u64,
    threshold: Option<u64>,
    filter: Option<LibsqlSearchFilter>,
}

impl VectorSearchRequest {
    pub closed spec fn spec_query(&self) -> Seq<char> {
        self.query@
    }

    pub closed spec fn spec_samples(&self) -> u64 {
        self.samples
    }

    pub closed spec fn spec_threshold(&self) -> Option<u64> {
        self.threshold
    }

    pub closed spec fn spec_filter(&self) -> Option<LibsqlSearchFilter> {
        self.filter
    }

    pub fn new(query: String, samples: u64, threshold: Option<u64>, filter: Option<LibsqlSearchFilter>) -> (r:
        Self)
        ensures
            r.spec_query() == query@,
            r.spec_samples() == samples,
            r.spec_threshold() == threshold,
            r.spec_filter() == filter,
    {
        VectorSearchRequest { query, samples, threshold, filter }
    }

    pub fn query(&self) -> (r: &String)
        ensures
            r@ == self.spec_query(),
    {
        &self.query
    }

    pub fn samples(&self) -> (r: u64)
        ensures
            r == self.spec_samples(),
    {
        self.samples
    }

    pub fn threshold(&self) -> (r: Option<u64>)
        ensures
            r == self.spec_threshold(),
    {
        self.threshold
    }
}

/// The threshold in effect: the request's, or zero (the bits of `0.0`).
pub open spec fn threshold_bits(t: Option<u64>) -> u64 {
    match t {
        Some(b) => b,
        None => 0,
    }
}

/// The condition of a search: the distance exceeds the threshold, and the
/// request's own filter holds where it has one.
pub open spec fn search_condition(f: Option<LibsqlSearchFilter>) -> Seq<char> {
    match f {
        Some(f) => "("@ + "e.distance > ?"@ + ") AND ("@ + f.cond() + ")"@,
        None => "e.distance > ?"@,
    }
}

/// The filter parameters of a search, in placeholder order.
pub open spec fn search_filter_params(t: Option<u64>, f: Option<LibsqlSearchFilter>) -> Seq<FilterValueView> {
    match f {
        Some(f) => seq![FilterValueView::Real(threshold_bits(t))] + f.params_view(),
        None => seq![FilterValueView::Real(threshold_bits(t))],
    }
}

pub open spec fn where_text(f: Option<LibsqlSearchFilter>) -> Seq<char> {
    "WHERE e.embedding MATCH ? AND k = ? AND "@ + search_condition(f)
}

/// Every parameter of a search: the query vector, the sample count, then the
/// filter's.
pub open spec fn where_params(req: VectorSearchRequest, query_vec: Seq<u8>) -> Seq<SqlValueView> {
    seq![SqlValueView::Blob(query_vec), SqlValueView::Integer(req.spec_samples() as i64)]
        + search_filter_params(req.spec_threshold(), req.spec_filter()).map_values(
        |v: FilterValueView| sql_value_of(v),
    )
}

/// A request is answered only for a sample count from one up to what the
/// engine can bind.
pub open spec fn valid_samples(n: u64) -> bool {
    1 <= n <= MAX_SAMPLES
}

/// Refuses a sample count that no query can answer; done before any I/O.
pub fn validate_samples(n: u64) -> (r: Result<(), LibsqlError>)
    ensures
        r is Ok <==> valid_samples(n),
        r is Err ==> r->Err_0 is InvalidRequest,
{
    if n == 0 || n > MAX_SAMPLES {
        Err(LibsqlError::InvalidRequest(String::from_str("the sample count must be at least one and fit in a signed 64-bit integer")))
    } else {
        Ok(())
    }
}

/// The WHERE clause of a similarity query and its parameters, in order. The
/// request is refused before any I/O when its sample count is zero.
pub fn build_where_clause(req: VectorSearchRequest, query_vec: Vec<u8>) -> (r: Result<
    (String, Vec<SqlValue>),
    LibsqlError,
>)
    ensures
        !valid_samples(req.spec_samples()) <==> r is Err,
        r is Err ==> r->Err_0 is InvalidRequest,
        r is Ok ==> r->Ok_0.0@ == where_text(req.spec_filter()) && r->Ok_0.1@.map_values(|v: SqlValue| v@)
            == where_params(req, query_vec@),
{
    match validate_samples(req.samples) {
        Err(e) => return Err(e),
        Ok(()) => {},
    }
    let ghost r0 = req;
    let thresh = LibsqlSearchFilter::gt(
        String::from_str("e.distance"),
        FilterValue::Real(
            match req.threshold {
                Some(b) => b,
                None => 0,
            },
        ),
    );
    let filter = match req.filter {
        Some(f) => thresh.and(f),
        None => thresh,
    };
    let mut clause = String::from_str("WHERE e.embedding MATCH ? AND k = ? AND ");
    clause.append(filter.condition().as_str());
    let ghost fv = filter.params_view();
    let mut params: Vec<SqlValue> = Vec::new();
    params.push(SqlValue::Blob(query_vec));
    params.push(SqlValue::Integer(req.samples as i64));
    let mut rest = filter.compile_params();
    let ghost p0 = params@;
    let ghost p1 = rest@;
    params.append(&mut rest);
    proof {
        reveal_strlit("e.distance");
        reveal_strlit(" > ?");
        reveal_strlit("e.distance > ?");
        assert("e.distance"@ + " > ?"@ =~= "e.distance > ?"@);
        assert(clause@ =~= where_text(r0.spec_filter()));
        assert(fv =~= search_filter_params(r0.spec_threshold(), r0.spec_filter()));
        assert(params@.map_values(|v: SqlValue| v@) =~= p0.map_values(|v: SqlValue| v@) + p1.map_values(
            |v: SqlValue| v@,
        ));
        assert(params@.map_values(|v: SqlValue| v@) =~= where_params(r0, query_vec@));
    }
    Ok((clause, params))
}

/// The projected record columns, each qualified by the record table's alias.
pub open spec fn select_list(cols: Seq<Column>) -> Seq<char> {
    join(cols.map_values(|c: Column| "d."@ + c.spec_name()), ", "@)
}

pub open spec fn from_join(table: Seq<char>) -> Seq<char> {
    " FROM "@ + table + "_embeddings e JOIN "@ + table + " d ON e.rowid = d.rowid "@
}

/// The query that returns every declared column of each neighbour and its
/// distance, nearest first.
pub open spec fn top_n_sql(table: Seq<char>, cols: Seq<Column>, where_clause: Seq<char>) -> Seq<char> {
    "SELECT "@ + select_list(cols) + ", e.distance"@ + from_join(table) + where_clause + " ORDER BY e.distance"@
}

/// The query that returns the identifier of each neighbour and its distance,
/// nearest first.
pub open spec fn top_n_ids_sql(table: Seq<char>, where_clause: Seq<char>) -> Seq<char> {
    "SELECT d.id, e.distance"@ + from_join(table) + where_clause + " ORDER BY e.distance"@
}

fn push_from_join(s: &mut String, table: &str, where_clause: &str)
    ensures
        final(s)@ == old(s)@ + from_join(table@) + where_clause@ + " ORDER BY e.distance"@,
{
    s.append(" FROM ");
    s.append(table);
    s.append("_embeddings e JOIN ");
    s.append(table);
    s.append(" d ON e.rowid = d.rowid ");
    s.append(where_clause);
    s.append(" ORDER BY e.distance");
    proof {
        assert(final(s)@ =~= old(s)@ + from_join(table@) + where_clause@ + " ORDER BY e.distance"@);
    }
}

pub fn top_n_statement(table: &str, columns: &Vec<Column>, where_clause: &str) -> (r: String)
    ensures
        r@ == top_n_sql(table@, columns@, where_clause@),
{
    let ghost items = columns@.map_values(|c: Column| "d."@ + c.spec_name());
    let mut s = String::from_str("SELECT ");
    let mut i: usize = 0;
    while i < columns.len()
        invariant
            0 <= i <= columns.len(),
            items == columns@.map_values(|c: Column| "d."@ + c.spec_name()),
            s@ == "SELECT "@ + join(items.take(i as int), ", "@),
        decreases columns.len() - i,
    {
        proof {
            assert(items.take(i + 1).drop_last() =~= items.take(i as int));
        }
        if i > 0 {
            s.append(", ");
        }
        s.append("d.");
        s.append(columns[i].name());
        proof {
            if i == 0 {
                assert(s@ =~= "SELECT "@ + join(items.take(1), ", "@));
            } else {
                assert(s@ =~= "SELECT "@ + join(items.take(i + 1), ", "@));
            }
        }
        i = i + 1;
    }
    proof {
        assert(items.take(columns.len() as int) =~= items);
    }
    s.append(", e.distance");
    push_from_join(&mut s, table, where_clause);
    proof {
        assert(s@ =~= top_n_sql(table@, columns@, where_clause@));
    }
    s
}

pub fn top_n_ids_statement(table: &str, where_clause: &str) -> (r: String)
    ensures
        r@ == top_n_ids_sql(table@, where_clause@),
{
    let mut s = String::from_str("SELECT d.id, e.distance");
    push_from_join(&mut s, table, where_clause);
    proof {
        assert(s@ =~= top_n_ids_sql(table@, where_clause@));
    }
    s
}

/// The rows whose record decoded, in the order in which they came.
pub open spec fn decoded_rows<D>(rows: Seq<(u64, String, Option<D>)>) -> Seq<(u64, String, D)>
    decreases rows.len(),
{
    if rows.len() == 0 {
        Seq::empty()
    } else {
        let (d, id, doc) = rows.last();
        let rest = decoded_rows(rows.drop_last());
        match doc {
            Some(x) => rest.push((d, id, x)),
            None => rest,
        }
    }
}

/// The number of rows whose record decoded.
pub open spec fn decoded_count<D>(rows: Seq<(u64, String, Option<D>)>) -> nat
    decreases rows.len(),
{
    if rows.len() == 0 {
        0
    } else {
        decoded_count(rows.drop_last()) + if rows.last().2 is Some { 1nat } else { 0nat }
    }
}

/// Keeps the rows whose record decoded and drops the others, keeping the
/// order. A row that fails to decode is not an error.
pub fn collect_decoded<D>(rows: Vec<(u64, String, Option<D>)>) -> (r: Vec<(u64, String, D)>)
    ensures
        r@ == decoded_rows(rows@),
        r@.len() == decoded_count(rows@),
{
    let ghost all = rows@;
    let mut out: Vec<(u64, String, D)> = Vec::new();
    let mut rest = rows;
    let n = rest.len();
    let mut i: usize = 0;
    proof {
        lemma_decoded_len(all.take(0));
    }
    while i < n
        invariant
            n == all.len(),
            0 <= i <= n,
            rest@ == all.skip(i as int),
            out@ == decoded_rows(all.take(i as int)),
            out@.len() == decoded_count(all.take(i as int)),
        decreases n - i,
    {
        let (d, id, doc) = rest.remove(0);
        proof {
            assert(rest@ =~= all.skip(i + 1));
        }
        proof {
            assert(all.take(i + 1).drop_last() =~= all.take(i as int));
            assert(all.take(i + 1).last() == all[i as int]);
        }
        match doc {
            Some(x) => {
                out.push((d, id, x));
            },
            None => {},
        }
        i = i + 1;
    }
    proof {
        assert(all.take(n as int) =~= all);
    }
    out
}

proof fn lemma_decoded_len<D>(rows: Seq<(u64, String, Option<D>)>)
    ensures
        decoded_rows(rows).len() == decoded_count(rows),
    decreases rows.len(),
{
    if rows.len() > 0 {
        lemma_decoded_len(rows.drop_last());
    }
}

} // verus!
