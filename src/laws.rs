use vstd::prelude::*;
use crate::filter::SqlValueView;
use crate::ingest::{
    IngestActionView, IngestEvent, IngestItem, IngestStage, IngestState, action_for, clear_sql, in_transaction,
    next_state, texts, upsert_sql,
};
use crate::schema::LibsqlVectorStoreTable;
use crate::provision::{
    column_def, column_index_sqls, create_embeddings_sql, create_index_sql, create_table_sql, creates_if_absent,
    provision_script,
};
use crate::query::decoded_rows;
use crate::schema::Column;
use crate::text::{decimal, join};

verus! {

proof fn lemma_index_form(table: Seq<char>, col: Seq<char>)
    ensures
        creates_if_absent(create_index_sql(table, col)),
{
    reveal_strlit("CREATE INDEX IF NOT EXISTS idx_");
    reveal_strlit("CREATE INDEX IF NOT EXISTS ");
    reveal_strlit("idx_");
    let rest = "idx_"@ + table + "_"@ + col + " ON "@ + table + "("@ + col + ")"@;
    assert(create_index_sql(table, col) =~= "CREATE INDEX IF NOT EXISTS "@ + rest);
}

proof fn lemma_index_sqls_create_if_absent(table: Seq<char>, cols: Seq<Column>)
    ensures
        forall|i: int| 0 <= i < column_index_sqls(table, cols).len() ==> creates_if_absent(
            #[trigger] column_index_sqls(table, cols)[i],
        ),
    decreases cols.len(),
{
    if cols.len() > 0 {
        let prev = column_index_sqls(table, cols.drop_last());
        lemma_index_sqls_create_if_absent(table, cols.drop_last());
        lemma_index_form(table, cols.last().spec_name());
        let all = column_index_sqls(table, cols);
        assert forall|i: int| 0 <= i < all.len() implies creates_if_absent(#[trigger] all[i]) by {
            if i < prev.len() {
                assert(all[i] == prev[i]);
            }
        }
    }
}

/// Provisioning can run any number of times: every statement it runs creates
/// a table or an index only where it is absent, and the statements depend on
/// the table, the columns and the dimensions alone.
pub proof fn provisioning_is_idempotent(table: Seq<char>, cols: Seq<Column>, dims: nat)
    ensures
        forall|i: int| 0 <= i < provision_script(table, cols, dims).len() ==> creates_if_absent(
            #[trigger] provision_script(table, cols, dims)[i],
        ),
{
    let script = provision_script(table, cols, dims);
    lemma_index_sqls_create_if_absent(table, cols);
    lemma_index_form(table, "id"@);
    let t = create_table_sql(table, cols);
    let t_rest = table + " ("@ + join(cols.map_values(|c: Column| column_def(c)), ","@) + "\n)"@;
    assert(t =~= "CREATE TABLE IF NOT EXISTS "@ + t_rest);
    let x = create_index_sql(table, "id"@);
    let e = create_embeddings_sql(table, dims);
    let e_rest = table + "_embeddings USING vec0(embedding float["@ + decimal(dims) + "])"@;
    assert(e =~= "CREATE VIRTUAL TABLE IF NOT EXISTS "@ + e_rest);
    let mid = column_index_sqls(table, cols);
    assert forall|i: int| 0 <= i < script.len() implies creates_if_absent(#[trigger] script[i]) by {
        if i == 0 {
            assert(script[i] == t);
        } else if i == 1 {
            assert(script[i] == x);
        } else if i < 2 + mid.len() {
            assert(script[i] == mid[i - 2]);
        } else {
            assert(script[i] == e);
        }
    }
}

/// A record is written under its own identifier with its own columns: for
/// the item made from it, the batch first deletes the embeddings of the row
/// that carries the record's identifier, then inserts the record or replaces
/// the row with that identifier, binding the record's column texts in the
/// order that the record reports them.
pub proof fn upsert_writes_the_record<T: LibsqlVectorStoreTable>(
    table: Seq<char>,
    items: Seq<IngestItem>,
    doc: nat,
    record: T,
    last_id: i64,
)
    requires
        doc < items.len(),
        items[doc as int].spec_id() == record.spec_id(),
        items[doc as int].column_names() == record.spec_columns().map_values(|c: (Seq<char>, Seq<char>)| c.0),
        items[doc as int].column_texts() == record.spec_columns().map_values(|c: (Seq<char>, Seq<char>)| c.1),
    ensures
        action_for(table, items, IngestState { stage: IngestStage::Clear, doc, emb: 0, last_id })
            == IngestActionView::Execute(clear_sql(table), seq![SqlValueView::Text(record.spec_id())]),
        next_state(
            items.map_values(|it: IngestItem| it.spec_embeddings().len()),
            IngestState { stage: IngestStage::Clear, doc, emb: 0, last_id },
            IngestEvent::Done,
        ) == (IngestState { stage: IngestStage::Upsert, doc, emb: 0, last_id }),
        action_for(table, items, IngestState { stage: IngestStage::Upsert, doc, emb: 0, last_id })
            == IngestActionView::Execute(
            upsert_sql(table, record.spec_columns().map_values(|c: (Seq<char>, Seq<char>)| c.0)),
            texts(record.spec_columns().map_values(|c: (Seq<char>, Seq<char>)| c.1)),
        ),
{
}

/// The state that a batch reaches from `s` on the events `evs`, in order.
pub open spec fn run(counts: Seq<nat>, s: IngestState, evs: Seq<IngestEvent>) -> IngestState
    decreases evs.len(),
{
    if evs.len() == 0 {
        s
    } else {
        next_state(counts, run(counts, s, evs.drop_last()), evs.last())
    }
}

/// Once a statement of a batch fails inside the transaction, the batch is
/// rolled back and never committed, whatever is reported afterwards.
pub proof fn failure_rolls_back(counts: Seq<nat>, s: IngestState, cause: String, later: Seq<IngestEvent>)
    requires
        in_transaction(s.stage),
    ensures
        next_state(counts, s, IngestEvent::Failed(cause)).stage == IngestStage::Rollback,
        run(counts, next_state(counts, s, IngestEvent::Failed(cause)), later).stage == IngestStage::Rollback
            || run(counts, next_state(counts, s, IngestEvent::Failed(cause)), later).stage
            == IngestStage::RolledBack,
        later.len() > 0 ==> run(counts, next_state(counts, s, IngestEvent::Failed(cause)), later).stage
            == IngestStage::RolledBack,
    decreases later.len(),
{
    if later.len() > 0 {
        failure_rolls_back(counts, s, cause, later.drop_last());
    }
}

/// A batch commits only from its last step, on success: from the opening of
/// the transaction when it is empty, or once its last record is written.
pub proof fn commit_follows_every_write(counts: Seq<nat>, s: IngestState, ev: IngestEvent)
    requires
        s.stage != IngestStage::Commit,
        next_state(counts, s, ev).stage == IngestStage::Commit,
    ensures
        !(ev is Failed),
        s.stage == IngestStage::Begin ==> counts.len() == 0,
        s.stage != IngestStage::Begin ==> s.doc + 1 >= counts.len() && (s.stage == IngestStage::RowId
            || s.stage == IngestStage::Embed),
        s.stage == IngestStage::Embed ==> s.emb + 1 >= counts[s.doc as int],
        s.stage == IngestStage::RowId ==> counts[s.doc as int] == 0,
{
}

/// The batch is committed only from the commit step, when it succeeded.
pub proof fn committed_after_commit(counts: Seq<nat>, s: IngestState, ev: IngestEvent)
    requires
        s.stage != IngestStage::Committed,
        next_state(counts, s, ev).stage == IngestStage::Committed,
    ensures
        s.stage == IngestStage::Commit,
        !(ev is Failed),
{
}

proof fn lemma_decoded_from_rows<D>(rows: Seq<(u64, String, Option<D>)>)
    ensures
        forall|j: int|
            0 <= j < decoded_rows(rows).len() ==> exists|i: int|
                0 <= i < rows.len() && rows[i].0 == (#[trigger] decoded_rows(rows)[j]).0,
    decreases rows.len(),
{
    if rows.len() > 0 {
        let rest = rows.drop_last();
        lemma_decoded_from_rows(rest);
        let out = decoded_rows(rows);
        assert forall|j: int| 0 <= j < out.len() implies exists|i: int|
            0 <= i < rows.len() && rows[i].0 == (#[trigger] out[j]).0 by {
            if j < decoded_rows(rest).len() {
                let i = choose|i: int| 0 <= i < rest.len() && rest[i].0 == decoded_rows(rest)[j].0;
                assert(rows[i] == rest[i]);
            } else {
                assert(out[j].0 == rows[rows.len() - 1].0);
            }
        }
    }
}

/// Results keep the order of the rows they come from: where the rows come
/// with non-decreasing distances, so do the decoded results. Distances are
/// compared by their binary64 bit patterns, which order non-negative numbers
/// as their values do.
pub proof fn decoding_keeps_distance_order<D>(rows: Seq<(u64, String, Option<D>)>)
    requires
        forall|i: int, j: int| 0 <= i <= j < rows.len() ==> rows[i].0 <= rows[j].0,
    ensures
        forall|i: int, j: int|
            0 <= i <= j < decoded_rows(rows).len() ==> decoded_rows(rows)[i].0 <= decoded_rows(rows)[j].0,
    decreases rows.len(),
{
    if rows.len() > 0 {
        let rest = rows.drop_last();
        decoding_keeps_distance_order(rest);
        lemma_decoded_from_rows(rest);
        let out = decoded_rows(rows);
        let prev = decoded_rows(rest);
        assert forall|i: int, j: int| 0 <= i <= j < out.len() implies out[i].0 <= out[j].0 by {
            if j < prev.len() {
                assert(out[i] == prev[i] && out[j] == prev[j]);
            } else {
                assert(out[j].0 == rows.last().0);
                if i < prev.len() {
                    assert(out[i] == prev[i]);
                    let k = choose|k: int| 0 <= k < rest.len() && rest[k].0 == prev[i].0;
                    assert(rows[k] == rest[k]);
                }
            }
        }
    }
}

/// A row that fails to decode costs exactly that row: when all rows but one
/// decode, one result fewer than rows comes back.
pub proof fn one_bad_row_is_dropped<D>(rows: Seq<(u64, String, Option<D>)>, bad: int)
    requires
        0 <= bad < rows.len(),
        rows[bad].2 is None,
        forall|i: int| 0 <= i < rows.len() && i != bad ==> (#[trigger] rows[i]).2 is Some,
    ensures
        decoded_rows(rows).len() == rows.len() - 1,
    decreases rows.len(),
{
    let n = rows.len();
    let rest = rows.drop_last();
    if bad == n - 1 {
        lemma_all_decoded(rest);
    } else {
        assert forall|i: int| 0 <= i < rest.len() && i != bad implies (#[trigger] rest[i]).2 is Some by {
            assert(rest[i] == rows[i]);
        }
        assert(rest[bad] == rows[bad]);
        one_bad_row_is_dropped(rest, bad);
        assert(rows.last().2 is Some);
    }
}

proof fn lemma_all_decoded<D>(rows: Seq<(u64, String, Option<D>)>)
    requires
        forall|i: int| 0 <= i < rows.len() ==> (#[trigger] rows[i]).2 is Some,
    ensures
        decoded_rows(rows).len() == rows.len(),
    decreases rows.len(),
{
    if rows.len() > 0 {
        let rest = rows.drop_last();
        assert forall|i: int| 0 <= i < rest.len() implies (#[trigger] rest[i]).2 is Some by {
            assert(rest[i] == rows[i]);
        }
        lemma_all_decoded(rest);
        assert(rows.last().2 is Some);
    }
}

} // verus!
