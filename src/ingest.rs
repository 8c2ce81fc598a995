use vstd::prelude::*;
use crate::error::LibsqlError;
use crate::filter::{SqlValue, SqlValueView};
use crate::schema::{ColumnValue, LibsqlVectorStoreTable};
use crate::text::{decimal, join, push_decimal};

verus! {

/// One record of a batch: its identifier, the text bound to each of its
/// columns in order, and its embeddings, each already encoded as the vector
/// table stores it.
pub struct IngestItem {
    id: String,
    fields: Vec<(String, String)>,
    embeddings: Vec<Vec<u8>>,
}

impl IngestItem {
    pub closed spec fn spec_id(&self) -> Seq<char> {
        self.id@
    }

    pub closed spec fn column_names(&self) -> Seq<Seq<char>> {
        self.fields@.map_values(|f: (String, String)| f.0@)
    }

    pub closed spec fn column_texts(&self) -> Seq<Seq<char>> {
        self.fields@.map_values(|f: (String, String)| f.1@)
    }

    pub closed spec fn spec_embeddings(&self) -> Seq<Seq<u8>> {
        self.embeddings@.map_values(|e: Vec<u8>| e@)
    }

    pub fn new(id: String, fields: Vec<(String, String)>, embeddings: Vec<Vec<u8>>) -> (r: Self)
        ensures
            r.spec_id() == id@,
            r.column_names() == fields@.map_values(|f: (String, String)| f.0@),
            r.column_texts() == fields@.map_values(|f: (String, String)| f.1@),
            r.spec_embeddings() == embeddings@.map_values(|e: Vec<u8>| e@),
    {
        IngestItem { id, fields, embeddings }
    }

    /// The item for a record: its identifier, and the name and text of each
    /// of its columns, in the order that the record reports them.
    pub fn from_record<T: LibsqlVectorStoreTable>(doc: &T, embeddings: Vec<Vec<u8>>) -> (r: Self)
        ensures
            r.spec_id() == doc.spec_id(),
            r.column_names() == doc.spec_columns().map_values(|c: (Seq<char>, Seq<char>)| c.0),
            r.column_texts() == doc.spec_columns().map_values(|c: (Seq<char>, Seq<char>)| c.1),
            r.spec_embeddings() == embeddings@.map_values(|e: Vec<u8>| e@),
    {
        let values = doc.column_values();
        let ghost cols = doc.spec_columns();
        let mut fields: Vec<(String, String)> = Vec::new();
        let mut i: usize = 0;
        while i < values.len()
            invariant
                0 <= i <= values.len(),
                cols == doc.spec_columns(),
                values@.map_values(|p: (&'static str, Box<dyn ColumnValue>)| (p.0@, p.1.sql_text())) == cols,
                fields@.len() == i,
                forall|j: int| 0 <= j < i ==> (#[trigger] fields@[j]).0@ == cols[j].0 && fields@[j].1@ == cols[j].1,
            decreases values.len() - i,
        {
            let (name, value) = &values[i];
            proof {
                assert(cols[i as int] == (values@[i as int].0@, values@[i as int].1.sql_text()));
            }
            fields.push((String::from_str(name), value.to_sql_string()));
            i = i + 1;
        }
        proof {
            assert(fields@.map_values(|f: (String, String)| f.0@) =~= cols.map_values(
                |c: (Seq<char>, Seq<char>)| c.0,
            ));
            assert(fields@.map_values(|f: (String, String)| f.1@) =~= cols.map_values(
                |c: (Seq<char>, Seq<char>)| c.1,
            ));
        }
        IngestItem { id: doc.id(), fields, embeddings }
    }
}

/// Where a batch stands. Between `Begin` and `Commit` a transaction is open.
#[derive(Debug, PartialEq, Eq, Structural, Clone, Copy)]
pub enum IngestStage {
    /// Nothing has been issued.
    Idle,
    /// The transaction is being opened.
    Begin,
    /// The embeddings of the row that the current record replaces are deleted.
    Clear,
    /// The current record is inserted or replaced.
    Upsert,
    /// The physical row identifier of the current record is read.
    RowId,
    /// One embedding of the current record is inserted.
    Embed,
    /// The transaction is being committed.
    Commit,
    /// The transaction is being rolled back.
    Rollback,
    /// The whole batch is written.
    Committed,
    /// Nothing of the batch is written.
    RolledBack,
}

/// What the caller reports after carrying out an action.
#[derive(Debug, Clone, PartialEq)]
pub enum IngestEvent {
    /// The statement ran.
    Done,
    /// The query for the last physical row identifier returned this one.
    RowId(i64),
    /// The statement failed, for the reason given.
    Failed(String),
}

/// What the caller does next.
#[derive(Debug, Clone, PartialEq)]
pub enum IngestAction {
    /// Run a statement with its parameters.
    Execute(String, Vec<SqlValue>),
    /// Run a query for the last physical row identifier.
    QueryRowId(String),
    /// The batch is committed; the last physical row identifier read.
    Finished(i64),
    /// The batch was rolled back.
    Aborted(LibsqlError),
}

pub enum IngestActionView {
    Execute(Seq<char>, Seq<SqlValueView>),
    QueryRowId(Seq<char>),
    Finished(i64),
    Aborted,
}

impl View for IngestAction {
    type V = IngestActionView;

    open spec fn view(&self) -> IngestActionView {
        match self {
            IngestAction::Execute(s, p) => IngestActionView::Execute(s@, p@.map_values(|v: SqlValue| v@)),
            IngestAction::QueryRowId(s) => IngestActionView::QueryRowId(s@),
            IngestAction::Finished(id) => IngestActionView::Finished(*id),
            IngestAction::Aborted(_) => IngestActionView::Aborted,
        }
    }
}

/// The position of a batch: its stage, the record and embedding at hand, and
/// the last physical row identifier read.
pub struct IngestState {
    pub stage: IngestStage,
    pub doc: nat,
    pub emb: nat,
    pub last_id: i64,
}

pub open spec fn in_transaction(s: IngestStage) -> bool {
    s == IngestStage::Begin || s == IngestStage::Clear || s == IngestStage::Upsert || s == IngestStage::RowId
        || s == IngestStage::Embed || s == IngestStage::Commit
}

/// Once a record's embeddings are written: the next record, or the commit.
pub open spec fn after_record(counts: Seq<nat>, doc: nat, last_id: i64) -> IngestState {
    if doc + 1 < counts.len() {
        IngestState { stage: IngestStage::Clear, doc: doc + 1, emb: 0, last_id }
    } else {
        IngestState { stage: IngestStage::Commit, doc, emb: 0, last_id }
    }
}

/// Once a record's row is written: its first embedding, or what follows it.
pub open spec fn after_row(counts: Seq<nat>, doc: nat, last_id: i64) -> IngestState {
    if counts[doc as int] > 0 {
        IngestState { stage: IngestStage::Embed, doc, emb: 0, last_id }
    } else {
        after_record(counts, doc, last_id)
    }
}

/// How a batch with `counts[i]` embeddings for record `i` moves on an event.
/// Any failure inside the transaction leads to a rollback.
pub open spec fn next_state(counts: Seq<nat>, s: IngestState, ev: IngestEvent) -> IngestState {
    let failed = ev is Failed;
    let rollback = IngestState { stage: IngestStage::Rollback, ..s };
    match s.stage {
        IngestStage::Begin => if failed {
            rollback
        } else if counts.len() == 0 {
            IngestState { stage: IngestStage::Commit, doc: 0, emb: 0, last_id: s.last_id }
        } else {
            IngestState { stage: IngestStage::Clear, doc: 0, emb: 0, last_id: s.last_id }
        },
        IngestStage::Clear => if failed {
            rollback
        } else {
            IngestState { stage: IngestStage::Upsert, ..s }
        },
        IngestStage::Upsert => if failed {
            rollback
        } else {
            IngestState { stage: IngestStage::RowId, ..s }
        },
        IngestStage::RowId => match ev {
            IngestEvent::Failed(_) => rollback,
            IngestEvent::RowId(id) => after_row(counts, s.doc, id),
            IngestEvent::Done => after_row(counts, s.doc, s.last_id),
        },
        IngestStage::Embed => if failed {
            rollback
        } else if s.emb + 1 < counts[s.doc as int] {
            IngestState { emb: s.emb + 1, ..s }
        } else {
            after_record(counts, s.doc, s.last_id)
        },
        IngestStage::Commit => if failed {
            rollback
        } else {
            IngestState { stage: IngestStage::Committed, ..s }
        },
        IngestStage::Rollback => IngestState { stage: IngestStage::RolledBack, ..s },
        _ => s,
    }
}

pub open spec fn clear_sql(table: Seq<char>) -> Seq<char> {
    "DELETE FROM "@ + table + "_embeddings WHERE rowid IN (SELECT rowid FROM "@ + table + " WHERE id = ?1)"@
}

pub open spec fn placeholder(i: nat) -> Seq<char> {
    seq!['?'] + decimal(i)
}

/// The statement that inserts a record, or replaces the one with its
/// primary key, binding its columns to `?1`, `?2`, ... in order.
pub open spec fn upsert_sql(table: Seq<char>, names: Seq<Seq<char>>) -> Seq<char> {
    "INSERT OR REPLACE INTO "@ + table + " ("@ + join(names, ", "@) + ") VALUES ("@ + join(
        Seq::new(names.len(), |i: int| placeholder((i + 1) as nat)),
        ", "@,
    ) + ")"@
}

pub open spec fn embed_sql(table: Seq<char>) -> Seq<char> {
    "INSERT INTO "@ + table + "_embeddings (rowid, embedding) VALUES (?1, ?2)"@
}

pub open spec fn texts(vals: Seq<Seq<char>>) -> Seq<SqlValueView> {
    vals.map_values(|v: Seq<char>| SqlValueView::Text(v))
}

/// The action that a state asks for.
pub open spec fn action_for(table: Seq<char>, items: Seq<IngestItem>, s: IngestState) -> IngestActionView {
    match s.stage {
        IngestStage::Begin => IngestActionView::Execute("BEGIN"@, seq![]),
        IngestStage::Clear => IngestActionView::Execute(
            clear_sql(table),
            seq![SqlValueView::Text(items[s.doc as int].spec_id())],
        ),
        IngestStage::Upsert => IngestActionView::Execute(
            upsert_sql(table, items[s.doc as int].column_names()),
            texts(items[s.doc as int].column_texts()),
        ),
        IngestStage::RowId => IngestActionView::QueryRowId("SELECT last_insert_rowid()"@),
        IngestStage::Embed => IngestActionView::Execute(
            embed_sql(table),
            seq![
                SqlValueView::Integer(s.last_id),
                SqlValueView::Blob(items[s.doc as int].spec_embeddings()[s.emb as int]),
            ],
        ),
        IngestStage::Commit => IngestActionView::Execute("COMMIT"@, seq![]),
        IngestStage::Rollback => IngestActionView::Execute("ROLLBACK"@, seq![]),
        IngestStage::Committed => IngestActionView::Finished(s.last_id),
        _ => IngestActionView::Aborted,
    }
}

/// A batch write in progress. The caller carries out each action and reports
/// how it went; every statement of the batch runs inside one transaction, and
/// any failure rolls the whole of it back.
pub struct IngestSession {
    table: String,
    items: Vec<IngestItem>,
    stage: IngestStage,
    doc: usize,
    emb: usize,
    last_id: i64,
    cause: String,
}

impl IngestSession {
    pub closed spec fn spec_table(&self) -> Seq<char> {
        self.table@
    }

    pub closed spec fn spec_items(&self) -> Seq<IngestItem> {
        self.items@
    }

    pub open spec fn counts(&self) -> Seq<nat> {
        self.spec_items().map_values(|it: IngestItem| it.spec_embeddings().len())
    }

    /// The reason given by the failure that stopped the batch, if one did.
    pub closed spec fn spec_cause(&self) -> Seq<char> {
        self.cause@
    }

    pub closed spec fn state(&self) -> IngestState {
        IngestState { stage: self.stage, doc: self.doc as nat, emb: self.emb as nat, last_id: self.last_id }
    }

    /// The record and embedding at hand exist.
    pub open spec fn wf(&self) -> bool {
        let s = self.state();
        let c = self.counts();
        (s.stage == IngestStage::Clear || s.stage == IngestStage::Upsert || s.stage == IngestStage::RowId
            || s.stage == IngestStage::Embed ==> s.doc < c.len()) && (s.stage == IngestStage::Embed ==> s.emb
            < c[s.doc as int])
    }

    /// A session for a batch into `table`; nothing is issued yet.
    pub fn new(table: String, items: Vec<IngestItem>) -> (r: Self)
        ensures
            r.wf(),
            r.spec_table() == table@,
            r.spec_items() == items@,
            r.state() == (IngestState { stage: IngestStage::Idle, doc: 0, emb: 0, last_id: 0 }),
    {
        IngestSession { table, items, stage: IngestStage::Idle, doc: 0, emb: 0, last_id: 0, cause: String::new() }
    }

    /// Opens the transaction.
    pub fn start(&mut self) -> (r: IngestAction)
        requires
            old(self).state().stage == IngestStage::Idle,
        ensures
            final(self).wf(),
            final(self).spec_table() == old(self).spec_table(),
            final(self).spec_items() == old(self).spec_items(),
            final(self).state() == (IngestState { stage: IngestStage::Begin, ..old(self).state() }),
            r@ == action_for(final(self).spec_table(), final(self).spec_items(), final(self).state()),
    {
        self.stage = IngestStage::Begin;
        self.action()
    }

    /// Moves on after the last action, and says what to do next.
    pub fn advance(&mut self, event: IngestEvent) -> (r: IngestAction)
        requires
            old(self).wf(),
        ensures
            final(self).wf(),
            final(self).spec_table() == old(self).spec_table(),
            final(self).spec_items() == old(self).spec_items(),
            final(self).state() == next_state(old(self).counts(), old(self).state(), event),
            old(self).state().stage != IngestStage::Idle ==> r@ == action_for(
                final(self).spec_table(),
                final(self).spec_items(),
                final(self).state(),
            ),
            r is Aborted ==> r->Aborted_0 is IngestError,
            in_transaction(old(self).state().stage) && event is Failed ==> final(self).spec_cause()
                == event->Failed_0@,
            !(in_transaction(old(self).state().stage) && event is Failed) ==> final(self).spec_cause()
                == old(self).spec_cause(),
            old(self).state().stage != IngestStage::Idle && r is Aborted ==> r->Aborted_0->IngestError_0@
                == final(self).spec_cause(),
    {
        let ghost counts = self.counts();
        if self.stage == IngestStage::Idle {
            return IngestAction::Aborted(LibsqlError::IngestError(String::from_str("the batch was not started")));
        }
        let failed = match &event {
            IngestEvent::Failed(_) => true,
            _ => false,
        };
        match self.stage {
            IngestStage::Idle | IngestStage::Committed | IngestStage::RolledBack => {},
            IngestStage::Rollback => {
                self.stage = IngestStage::RolledBack;
            },
            _ => {
                if failed {
                    match event {
                        IngestEvent::Failed(c) => {
                            self.cause = c;
                        },
                        _ => {},
                    }
                    self.stage = IngestStage::Rollback;
                } else {
                    match self.stage {
                        IngestStage::Begin => {
                            self.doc = 0;
                            self.emb = 0;
                            if self.items.len() == 0 {
                                self.stage = IngestStage::Commit;
                            } else {
                                self.stage = IngestStage::Clear;
                            }
                        },
                        IngestStage::Clear => {
                            self.stage = IngestStage::Upsert;
                        },
                        IngestStage::Upsert => {
                            self.stage = IngestStage::RowId;
                        },
                        IngestStage::RowId => {
                            match event {
                                IngestEvent::RowId(id) => {
                                    self.last_id = id;
                                },
                                _ => {},
                            }
                            proof {
                                assert(counts[self.doc as int] == self.items@[self.doc as int].embeddings@.len());
                            }
                            if self.items[self.doc].embeddings.len() > 0 {
                                self.stage = IngestStage::Embed;
                                self.emb = 0;
                            } else {
                                self.next_record();
                            }
                        },
                        IngestStage::Embed => {
                            proof {
                                assert(counts[self.doc as int] == self.items@[self.doc as int].embeddings@.len());
                            }
                            if self.emb < self.items[self.doc].embeddings.len() - 1 {
                                self.emb = self.emb + 1;
                            } else {
                                self.next_record();
                            }
                        },
                        _ => {
                            self.stage = IngestStage::Committed;
                        },
                    }
                }
            },
        }
        self.action()
    }

    fn next_record(&mut self)
        requires
            old(self).state().doc < old(self).counts().len(),
        ensures
            final(self).spec_table() == old(self).spec_table(),
            final(self).spec_items() == old(self).spec_items(),
            final(self).cause == old(self).cause,
            final(self).state() == after_record(old(self).counts(), old(self).state().doc, old(self).state().last_id),
    {
        proof {
            assert(self.counts().len() == self.items@.len());
        }
        if self.doc < self.items.len() - 1 {
            self.doc = self.doc + 1;
            self.stage = IngestStage::Clear;
        } else {
            self.stage = IngestStage::Commit;
        }
        self.emb = 0;
    }

    /// The action that the current state asks for.
    fn action(&self) -> (r: IngestAction)
        requires
            self.wf(),
            self.state().stage != IngestStage::Idle,
        ensures
            r@ == action_for(self.spec_table(), self.spec_items(), self.state()),
            r is Aborted ==> r->Aborted_0 is IngestError && r->Aborted_0->IngestError_0@ == self.spec_cause(),
    {
        let none: Vec<SqlValue> = Vec::new();
        proof {
            assert(none@.map_values(|v: SqlValue| v@) =~= Seq::<SqlValueView>::empty());
        }
        match self.stage {
            IngestStage::Begin => IngestAction::Execute(String::from_str("BEGIN"), none),
            IngestStage::Clear => {
                let item = &self.items[self.doc];
                let mut s = String::from_str("DELETE FROM ");
                s.append(self.table.as_str());
                s.append("_embeddings WHERE rowid IN (SELECT rowid FROM ");
                s.append(self.table.as_str());
                s.append(" WHERE id = ?1)");
                let p = vec![SqlValue::Text(item.id.clone())];
                proof {
                    assert(s@ =~= clear_sql(self.spec_table()));
                    assert(p@.map_values(|v: SqlValue| v@) =~= seq![SqlValueView::Text(item.spec_id())]);
                }
                IngestAction::Execute(s, p)
            },
            IngestStage::Upsert => {
                let item = &self.items[self.doc];
                IngestAction::Execute(upsert_statement(self.table.as_str(), &item.fields), field_params(&item.fields))
            },
            IngestStage::RowId => IngestAction::QueryRowId(String::from_str("SELECT last_insert_rowid()")),
            IngestStage::Embed => {
                let item = &self.items[self.doc];
                let mut s = String::from_str("INSERT INTO ");
                s.append(self.table.as_str());
                s.append("_embeddings (rowid, embedding) VALUES (?1, ?2)");
                let blob = item.embeddings[self.emb].clone();
                proof {
                    assert(blob@ =~= item.embeddings@[self.emb as int]@);
                    assert(item.spec_embeddings()[self.emb as int] == item.embeddings@[self.emb as int]@);
                }
                let p = vec![SqlValue::Integer(self.last_id), SqlValue::Blob(blob)];
                proof {
                    assert(s@ =~= embed_sql(self.spec_table()));
                    assert(p@.map_values(|v: SqlValue| v@) =~= seq![
                        SqlValueView::Integer(self.last_id),
                        SqlValueView::Blob(item.spec_embeddings()[self.emb as int]),
                    ]);
                }
                IngestAction::Execute(s, p)
            },
            IngestStage::Commit => IngestAction::Execute(String::from_str("COMMIT"), none),
            IngestStage::Rollback => IngestAction::Execute(String::from_str("ROLLBACK"), none),
            IngestStage::Committed => IngestAction::Finished(self.last_id),
            _ => IngestAction::Aborted(LibsqlError::IngestError(self.cause.clone())),
        }
    }
}

fn upsert_statement(table: &str, fields: &Vec<(String, String)>) -> (r: String)
    ensures
        r@ == upsert_sql(table@, fields@.map_values(|f: (String, String)| f.0@)),
{
    let ghost names = fields@.map_values(|f: (String, String)| f.0@);
    let ghost marks = Seq::new(names.len(), |i: int| placeholder((i + 1) as nat));
    let mut cols = String::new();
    let mut vals = String::new();
    let mut i: usize = 0;
    while i < fields.len()
        invariant
            0 <= i <= fields.len(),
            names == fields@.map_values(|f: (String, String)| f.0@),
            marks == Seq::new(names.len(), |i: int| placeholder((i + 1) as nat)),
            cols@ == join(names.take(i as int), ", "@),
            vals@ == join(marks.take(i as int), ", "@),
        decreases fields.len() - i,
    {
        proof {
            assert(names.take(i + 1).drop_last() =~= names.take(i as int));
            assert(marks.take(i + 1).drop_last() =~= marks.take(i as int));
        }
        if i > 0 {
            cols.append(", ");
            vals.append(", ");
        }
        cols.append(fields[i].0.as_str());
        vals.append("?");
        push_decimal(&mut vals, (i + 1) as u64);
        proof {
            reveal_strlit("?");
            if i == 0 {
                assert(cols@ =~= join(names.take(1), ", "@));
                assert(vals@ =~= join(marks.take(1), ", "@));
            } else {
                assert(cols@ =~= join(names.take(i + 1), ", "@));
                assert(vals@ =~= join(marks.take(i + 1), ", "@));
            }
        }
        i = i + 1;
    }
    proof {
        assert(names.take(fields.len() as int) =~= names);
        assert(marks.take(fields.len() as int) =~= marks);
    }
    let mut s = String::from_str("INSERT OR REPLACE INTO ");
    s.append(table);
    s.append(" (");
    s.append(cols.as_str());
    s.append(") VALUES (");
    s.append(vals.as_str());
    s.append(")");
    s
}

fn field_params(fields: &Vec<(String, String)>) -> (r: Vec<SqlValue>)
    ensures
        r@.map_values(|v: SqlValue| v@) == texts(fields@.map_values(|f: (String, String)| f.1@)),
{
    let ghost want = texts(fields@.map_values(|f: (String, String)| f.1@));
    let mut out: Vec<SqlValue> = Vec::new();
    let mut i: usize = 0;
    while i < fields.len()
        invariant
            0 <= i <= fields.len(),
            want == texts(fields@.map_values(|f: (String, String)| f.1@)),
            out@.map_values(|v: SqlValue| v@) == want.take(i as int),
        decreases fields.len() - i,
    {
        let ghost prev = out@;
        let v = SqlValue::Text(fields[i].1.clone());
        out.push(v);
        proof {
            assert(out@.map_values(|v: SqlValue| v@) =~= prev.map_values(|v: SqlValue| v@).push(v@));
            assert(want.take(i + 1) =~= want.take(i as int).push(want[i as int]));
        }
        i = i + 1;
    }
    proof {
        assert(want.take(fields.len() as int) =~= want);
    }
    out
}

} // verus!
