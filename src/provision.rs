use vstd::prelude::*;
use crate::error::LibsqlError;
use crate::schema::Column;
use crate::text::{decimal, join, push_decimal};

verus! {

/// A character with ASCII upper case folded to lower case.
pub open spec fn fold_char(c: char) -> u32 {
    if 'A' <= c && c <= 'Z' {
        (c as u32 + 32) as u32
    } else {
        c as u32
    }
}

/// Equality of two names, ignoring ASCII case as the engine does.
pub open spec fn same_name(a: Seq<char>, b: Seq<char>) -> bool {
    a.len() == b.len() && forall|i: int| 0 <= i < a.len() ==> fold_char(#[trigger] a[i]) == fold_char(b[i])
}

/// A column name that the engine keeps for the physical row identifier.
pub open spec fn is_reserved_name(n: Seq<char>) -> bool {
    same_name(n, "rowid"@) || same_name(n, "oid"@) || same_name(n, "_rowid_"@)
}

pub open spec fn column_def(c: Column) -> Seq<char> {
    "\n    "@ + c.spec_name() + " "@ + c.spec_col_type()
}

/// The statement that creates the record table with its declared columns.
pub open spec fn create_table_sql(table: Seq<char>, cols: Seq<Column>) -> Seq<char> {
    "CREATE TABLE IF NOT EXISTS "@ + table + " ("@ + join(cols.map_values(|c: Column| column_def(c)), ","@)
        + "\n)"@
}

/// The statement that creates the index `idx_<table>_<column>`.
pub open spec fn create_index_sql(table: Seq<char>, column: Seq<char>) -> Seq<char> {
    "CREATE INDEX IF NOT EXISTS idx_"@ + table + "_"@ + column + " ON "@ + table + "("@ + column + ")"@
}

/// One index statement for each column marked indexed, in column order.
pub open spec fn column_index_sqls(table: Seq<char>, cols: Seq<Column>) -> Seq<Seq<char>>
    decreases cols.len(),
{
    if cols.len() == 0 {
        Seq::empty()
    } else {
        let rest = column_index_sqls(table, cols.drop_last());
        if cols.last().spec_indexed() {
            rest.push(create_index_sql(table, cols.last().spec_name()))
        } else {
            rest
        }
    }
}

/// The statement that creates the companion vector table of `dims` dimensions.
pub open spec fn create_embeddings_sql(table: Seq<char>, dims: nat) -> Seq<char> {
    "CREATE VIRTUAL TABLE IF NOT EXISTS "@ + table + "_embeddings USING vec0(embedding float["@
        + decimal(dims) + "])"@
}

/// Every statement that provisioning runs, in order, inside one transaction.
pub open spec fn provision_script(table: Seq<char>, cols: Seq<Column>, dims: nat) -> Seq<Seq<char>> {
    seq![create_table_sql(table, cols), create_index_sql(table, "id"@)] + column_index_sqls(table, cols)
        + seq![create_embeddings_sql(table, dims)]
}

/// A statement that creates something only where it is absent.
pub open spec fn creates_if_absent(s: Seq<char>) -> bool {
    exists|rest: Seq<char>|
        s == "CREATE TABLE IF NOT EXISTS "@ + rest || s == "CREATE INDEX IF NOT EXISTS "@ + rest || s
            == "CREATE VIRTUAL TABLE IF NOT EXISTS "@ + rest
}

fn same_name_exec(a: &str, b: &str) -> (r: bool)
    ensures
        r == same_name(a@, b@),
{
    let n = a.unicode_len();
    if n != b.unicode_len() {
        return false;
    }
    let mut i: usize = 0;
    while i < n
        invariant
            n == a@.len(),
            n == b@.len(),
            0 <= i <= n,
            forall|j: int| 0 <= j < i ==> fold_char(#[trigger] a@[j]) == fold_char(b@[j]),
        decreases n - i,
    {
        let x = a.get_char(i);
        let y = b.get_char(i);
        let fx: u32 = if 'A' <= x && x <= 'Z' { x as u32 + 32 } else { x as u32 };
        let fy: u32 = if 'A' <= y && y <= 'Z' { y as u32 + 32 } else { y as u32 };
        if fx != fy {
            assert(fold_char(a@[i as int]) != fold_char(b@[i as int]));
            return false;
        }
        i = i + 1;
    }
    true
}

/// Whether `name` is one of the engine's names for the physical row identifier.
pub fn is_reserved(name: &str) -> (r: bool)
    ensures
        r == is_reserved_name(name@),
{
    same_name_exec(name, "rowid") || same_name_exec(name, "oid") || same_name_exec(name, "_rowid_")
}

fn create_table_statement(table: &str, columns: &Vec<Column>) -> (r: String)
    ensures
        r@ == create_table_sql(table@, columns@),
{
    let ghost defs = columns@.map_values(|c: Column| column_def(c));
    let mut body = String::new();
    let mut i: usize = 0;
    while i < columns.len()
        invariant
            0 <= i <= columns.len(),
            defs == columns@.map_values(|c: Column| column_def(c)),
            body@ == join(defs.take(i as int), ","@),
        decreases columns.len() - i,
    {
        let c = &columns[i];
        proof {
            assert(defs.take(i + 1).drop_last() =~= defs.take(i as int));
        }
        if i > 0 {
            body.append(",");
        }
        body.append("\n    ");
        body.append(c.name());
        body.append(" ");
        body.append(c.col_type());
        proof {
            if i == 0 {
                assert(body@ =~= join(defs.take(1), ","@));
            } else {
                assert(body@ =~= join(defs.take(i + 1), ","@));
            }
        }
        i = i + 1;
    }
    proof {
        assert(defs.take(columns.len() as int) =~= defs);
    }
    let mut s = String::from_str("CREATE TABLE IF NOT EXISTS ");
    s.append(table);
    s.append(" (");
    s.append(body.as_str());
    s.append("\n)");
    s
}

fn create_index_statement(table: &str, column: &str) -> (r: String)
    ensures
        r@ == create_index_sql(table@, column@),
{
    let mut s = String::from_str("CREATE INDEX IF NOT EXISTS idx_");
    s.append(table);
    s.append("_");
    s.append(column);
    s.append(" ON ");
    s.append(table);
    s.append("(");
    s.append(column);
    s.append(")");
    s
}

/// The statements that create a record table, its indexes and its companion
/// vector table, in the order in which they run. Every one of them creates
/// only what is absent, so running them again changes nothing.
pub fn provision_statements(table: &str, columns: &Vec<Column>, dims: usize) -> (r: Result<
    Vec<String>,
    LibsqlError,
>)
    ensures
        dims == 0 ==> r is Err && r->Err_0 is ZeroDimensions,
        dims > 0 && (exists|i: int| 0 <= i < columns@.len() && is_reserved_name(#[trigger] columns@[i].spec_name()))
            ==> r is Err && r->Err_0 is ReservedColumn && (exists|i: int|
            0 <= i < columns@.len() && #[trigger] columns@[i].spec_name() == r->Err_0->ReservedColumn_0@
                && is_reserved_name(columns@[i].spec_name())),
        dims > 0 && (forall|i: int| 0 <= i < columns@.len() ==> !is_reserved_name(#[trigger] columns@[i].spec_name()))
            ==> r is Ok && r->Ok_0@.map_values(|s: String| s@) == provision_script(
            table@,
            columns@,
            dims as nat,
        ),
{
    if dims == 0 {
        return Err(LibsqlError::ZeroDimensions);
    }
    let mut k: usize = 0;
    while k < columns.len()
        invariant
            0 <= k <= columns.len(),
            dims > 0,
            forall|j: int| 0 <= j < k ==> !is_reserved_name(#[trigger] columns@[j].spec_name()),
        decreases columns.len() - k,
    {
        let name = columns[k].name();
        if is_reserved(name) {
            return Err(LibsqlError::ReservedColumn(String::from_str(name)));
        }
        k = k + 1;
    }
    let mut out: Vec<String> = Vec::new();
    out.push(create_table_statement(table, columns));
    out.push(create_index_statement(table, "id"));
    let ghost head = seq![create_table_sql(table@, columns@), create_index_sql(table@, "id"@)];
    let mut i: usize = 0;
    while i < columns.len()
        invariant
            0 <= i <= columns.len(),
            out@.map_values(|s: String| s@) == head + column_index_sqls(table@, columns@.take(i as int)),
        decreases columns.len() - i,
    {
        proof {
            assert(columns@.take(i + 1).drop_last() =~= columns@.take(i as int));
            assert(columns@.take(i + 1).last() == columns@[i as int]);
            assert(column_index_sqls(table@, columns@.take(i + 1)) == if columns@[i as int].spec_indexed() {
                column_index_sqls(table@, columns@.take(i as int)).push(
                    create_index_sql(table@, columns@[i as int].spec_name()),
                )
            } else {
                column_index_sqls(table@, columns@.take(i as int))
            });
        }
        let ghost prev = out@;
        if columns[i].is_indexed() {
            let st = create_index_statement(table, columns[i].name());
            out.push(st);
            proof {
                assert(out@.map_values(|s: String| s@) =~= prev.map_values(|s: String| s@).push(st@));
            }
        }
        proof {
            assert(out@.map_values(|s: String| s@) =~= head + column_index_sqls(table@, columns@.take(i + 1)));
        }
        i = i + 1;
    }
    let mut e = String::from_str("CREATE VIRTUAL TABLE IF NOT EXISTS ");
    e.append(table);
    e.append("_embeddings USING vec0(embedding float[");
    push_decimal(&mut e, dims as u64);
    e.append("])");
    let ghost prev = out@;
    out.push(e);
    proof {
        assert(out@.map_values(|s: String| s@) =~= prev.map_values(|s: String| s@).push(e@));
        assert(columns@.take(columns.len() as int) =~= columns@);
        assert(out@.map_values(|s: String| s@) =~= provision_script(table@, columns@, dims as nat));
    }
    Ok(out)
}

} // verus!
