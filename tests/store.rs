use rig_libsql::error::LibsqlError;
use rig_libsql::filter::{FilterValue, LibsqlSearchFilter, SqlValue};
use rig_libsql::ingest::{IngestAction, IngestEvent, IngestItem, IngestSession};
use rig_libsql::provision::{is_reserved, provision_statements};
use rig_libsql::query::{
    build_where_clause, collect_decoded, top_n_ids_statement, top_n_statement, validate_samples, VectorSearchRequest,
    MAX_SAMPLES,
};
use rig_libsql::schema::{Column, ColumnValue, LibsqlVectorStoreTable};

fn document_columns() -> Vec<Column> {
    vec![Column::new("id", "TEXT PRIMARY KEY"), Column::new("content", "TEXT")]
}

#[derive(Clone)]
struct Note {
    id: String,
    content: String,
}

impl LibsqlVectorStoreTable for Note {
    fn name() -> &'static str {
        "notes"
    }

    fn schema() -> Vec<Column> {
        vec![Column::new("id", "TEXT PRIMARY KEY"), Column::new("content", "TEXT").indexed()]
    }

    // The two views below are read by the verifier alone and never run.
    fn spec_id(&self) -> vstd::seq::Seq<char> {
        vstd::seq::Seq::empty()
    }

    fn spec_columns(&self) -> vstd::seq::Seq<(vstd::seq::Seq<char>, vstd::seq::Seq<char>)> {
        vstd::seq::Seq::empty()
    }

    fn id(&self) -> String {
        self.id.clone()
    }

    fn column_values(&self) -> Vec<(&'static str, Box<dyn ColumnValue>)> {
        vec![("id", Box::new(self.id.clone())), ("content", Box::new(self.content.clone()))]
    }
}

fn statement(a: &IngestAction) -> (String, Vec<SqlValue>) {
    match a {
        IngestAction::Execute(s, p) => (s.clone(), p.clone()),
        other => panic!("expected a statement, got {:?}", other),
    }
}

#[test]
fn column_builder() {
    let c = Column::new("content", "TEXT");
    assert_eq!(c.name(), "content");
    assert_eq!(c.col_type(), "TEXT");
    assert!(!c.is_indexed());
    assert!(c.indexed().is_indexed());
    assert_eq!("x".to_string().column_type(), "TEXT");
    assert_eq!("x y".to_string().to_sql_string(), "x y");
}

#[test]
fn provisioning_statements_for_documents() {
    let stmts = provision_statements("documents", &document_columns(), 4).unwrap();
    assert_eq!(
        stmts,
        vec![
            "CREATE TABLE IF NOT EXISTS documents (\n    id TEXT PRIMARY KEY,\n    content TEXT\n)".to_string(),
            "CREATE INDEX IF NOT EXISTS idx_documents_id ON documents(id)".to_string(),
            "CREATE VIRTUAL TABLE IF NOT EXISTS documents_embeddings USING vec0(embedding float[4])".to_string(),
        ]
    );
}

#[test]
fn provisioning_indexes_marked_columns() {
    let stmts = provision_statements(Note::name(), &Note::schema(), 1536).unwrap();
    assert_eq!(stmts.len(), 4);
    assert_eq!(stmts[2], "CREATE INDEX IF NOT EXISTS idx_notes_content ON notes(content)");
    assert_eq!(stmts[3], "CREATE VIRTUAL TABLE IF NOT EXISTS notes_embeddings USING vec0(embedding float[1536])");
}

#[test]
fn provisioning_twice_is_the_same_and_creates_only_if_absent() {
    let a = provision_statements("documents", &document_columns(), 4).unwrap();
    let b = provision_statements("documents", &document_columns(), 4).unwrap();
    assert_eq!(a, b);
    assert!(a.iter().all(|s| s.contains(" IF NOT EXISTS ")));
}

#[test]
fn provisioning_refuses_zero_dimensions() {
    assert_eq!(provision_statements("documents", &document_columns(), 0), Err(LibsqlError::ZeroDimensions));
}

#[test]
fn provisioning_refuses_reserved_column() {
    let cols = vec![Column::new("id", "TEXT PRIMARY KEY"), Column::new("RowId", "INTEGER")];
    assert_eq!(
        provision_statements("documents", &cols, 4),
        Err(LibsqlError::ReservedColumn("RowId".to_string()))
    );
    assert!(is_reserved("_ROWID_"));
    assert!(is_reserved("oid"));
    assert!(!is_reserved("rowids"));
}

#[test]
fn filter_leaves_bind_one_parameter() {
    let f = LibsqlSearchFilter::eq("kind".to_string(), FilterValue::Text("note".to_string()));
    assert_eq!(f.condition(), "kind = ?");
    assert_eq!(f.compile_params(), vec![SqlValue::Text("note".to_string())]);
    let g = LibsqlSearchFilter::lt("size".to_string(), FilterValue::Integer(-3));
    assert_eq!(g.condition(), "size < ?");
    assert_eq!(g.compile_params(), vec![SqlValue::Integer(-3)]);
}

#[test]
fn filter_composition_keeps_parameter_order() {
    let f = LibsqlSearchFilter::eq("a".to_string(), FilterValue::Integer(1))
        .and(LibsqlSearchFilter::gt("b".to_string(), FilterValue::Real(2.5f64.to_bits())))
        .or(LibsqlSearchFilter::is_null("c".to_string()))
        .not();
    assert_eq!(f.condition(), "NOT (((a = ?) AND (b > ?)) OR (c is null))");
    assert_eq!(f.compile_params(), vec![SqlValue::Integer(1), SqlValue::Real(2.5f64.to_bits())]);
}

#[test]
fn filter_value_kinds() {
    let f = LibsqlSearchFilter::eq("a".to_string(), FilterValue::Bool(true))
        .and(LibsqlSearchFilter::eq("b".to_string(), FilterValue::Bool(false)))
        .and(LibsqlSearchFilter::eq("c".to_string(), FilterValue::Null))
        .and(LibsqlSearchFilter::eq("d".to_string(), FilterValue::Structured(b"[1,2]".to_vec())));
    assert_eq!(
        f.compile_params(),
        vec![SqlValue::Integer(1), SqlValue::Integer(0), SqlValue::Null, SqlValue::Blob(b"[1,2]".to_vec())]
    );
}

#[test]
fn filter_between_inlines_bounds() {
    let f = LibsqlSearchFilter::between("n".to_string(), -5, 10);
    assert_eq!(f.condition(), "n between -5 and 10");
    assert!(f.compile_params().is_empty());
    let g = LibsqlSearchFilter::between("n".to_string(), i64::MIN, i64::MAX);
    assert_eq!(g.condition(), "n between -9223372036854775808 and 9223372036854775807");
}

#[test]
fn filter_patterns_are_parameters() {
    let f = LibsqlSearchFilter::like("title".to_string(), "%rust%");
    assert_eq!(f.condition(), "title like ?");
    assert_eq!(f.compile_params(), vec![SqlValue::Text("%rust%".to_string())]);
    let g = LibsqlSearchFilter::glob("path".to_string(), "src/*");
    assert_eq!(g.condition(), "path glob ?");
    let h = LibsqlSearchFilter::is_not_null("path".to_string());
    assert_eq!(h.condition(), "path is not null");
}

#[test]
fn zero_samples_is_an_invalid_request() {
    let req = VectorSearchRequest::new("q".to_string(), 0, None, None);
    assert!(matches!(build_where_clause(req, vec![]), Err(LibsqlError::InvalidRequest(_))));
}

#[test]
fn where_clause_with_threshold_and_filter() {
    let filter = LibsqlSearchFilter::eq("kind".to_string(), FilterValue::Text("x".to_string()));
    let req = VectorSearchRequest::new("q".to_string(), 3, Some(0.5f64.to_bits()), Some(filter));
    assert_eq!(req.samples(), 3);
    assert_eq!(req.query(), "q");
    let (clause, params) = build_where_clause(req, vec![1, 2, 3, 4]).unwrap();
    assert_eq!(clause, "WHERE e.embedding MATCH ? AND k = ? AND (e.distance > ?) AND (kind = ?)");
    assert_eq!(
        params,
        vec![
            SqlValue::Blob(vec![1, 2, 3, 4]),
            SqlValue::Integer(3),
            SqlValue::Real(0.5f64.to_bits()),
            SqlValue::Text("x".to_string()),
        ]
    );
}

#[test]
fn where_clause_default_threshold_is_zero() {
    let req = VectorSearchRequest::new("q".to_string(), 1, None, None);
    let (clause, params) = build_where_clause(req, vec![9]).unwrap();
    assert_eq!(clause, "WHERE e.embedding MATCH ? AND k = ? AND e.distance > ?");
    assert_eq!(params, vec![SqlValue::Blob(vec![9]), SqlValue::Integer(1), SqlValue::Real(0.0f64.to_bits())]);
}

#[test]
fn query_statements() {
    let w = "WHERE x";
    assert_eq!(
        top_n_statement("documents", &document_columns(), w),
        "SELECT d.id, d.content, e.distance FROM documents_embeddings e JOIN documents d ON e.rowid = d.rowid WHERE x ORDER BY e.distance"
    );
    assert_eq!(
        top_n_ids_statement("documents", w),
        "SELECT d.id, e.distance FROM documents_embeddings e JOIN documents d ON e.rowid = d.rowid WHERE x ORDER BY e.distance"
    );
}

fn item(id: &str, content: &str, embeddings: Vec<Vec<u8>>) -> IngestItem {
    IngestItem::new(
        id.to_string(),
        vec![("id".to_string(), id.to_string()), ("content".to_string(), content.to_string())],
        embeddings,
    )
}

#[test]
fn ingest_writes_every_record_then_commits() {
    let mut s = IngestSession::new(
        "documents".to_string(),
        vec![item("doc0", "hello", vec![vec![1, 2]]), item("doc1", "world", vec![vec![3], vec![4]])],
    );
    assert_eq!(statement(&s.start()), ("BEGIN".to_string(), vec![]));
    let clear = statement(&s.advance(IngestEvent::Done));
    assert_eq!(
        clear,
        (
            "DELETE FROM documents_embeddings WHERE rowid IN (SELECT rowid FROM documents WHERE id = ?1)".to_string(),
            vec![SqlValue::Text("doc0".to_string())]
        )
    );
    let upsert = statement(&s.advance(IngestEvent::Done));
    assert_eq!(
        upsert,
        (
            "INSERT OR REPLACE INTO documents (id, content) VALUES (?1, ?2)".to_string(),
            vec![SqlValue::Text("doc0".to_string()), SqlValue::Text("hello".to_string())]
        )
    );
    assert_eq!(
        s.advance(IngestEvent::Done),
        IngestAction::QueryRowId("SELECT last_insert_rowid()".to_string())
    );
    let emb = statement(&s.advance(IngestEvent::RowId(7)));
    assert_eq!(
        emb,
        (
            "INSERT INTO documents_embeddings (rowid, embedding) VALUES (?1, ?2)".to_string(),
            vec![SqlValue::Integer(7), SqlValue::Blob(vec![1, 2])]
        )
    );
    let clear1 = statement(&s.advance(IngestEvent::Done));
    assert_eq!(clear1.1, vec![SqlValue::Text("doc1".to_string())]);
    let upsert1 = statement(&s.advance(IngestEvent::Done));
    assert_eq!(upsert1.1[1], SqlValue::Text("world".to_string()));
    assert!(matches!(s.advance(IngestEvent::Done), IngestAction::QueryRowId(_)));
    assert_eq!(statement(&s.advance(IngestEvent::RowId(8))).1, vec![SqlValue::Integer(8), SqlValue::Blob(vec![3])]);
    assert_eq!(statement(&s.advance(IngestEvent::Done)).1, vec![SqlValue::Integer(8), SqlValue::Blob(vec![4])]);
    assert_eq!(statement(&s.advance(IngestEvent::Done)), ("COMMIT".to_string(), vec![]));
    assert_eq!(s.advance(IngestEvent::Done), IngestAction::Finished(8));
    assert_eq!(s.advance(IngestEvent::Done), IngestAction::Finished(8));
}

#[test]
fn ingest_failure_partway_rolls_back_the_batch() {
    let mut s = IngestSession::new(
        "documents".to_string(),
        vec![item("doc0", "a", vec![vec![1]]), item("doc1", "b", vec![vec![2]]), item("doc2", "c", vec![vec![3]])],
    );
    s.start();
    for _ in 0..5 {
        // clear, upsert, row id, embedding of doc0, clear of doc1
        s.advance(IngestEvent::Done);
    }
    let next = statement(&s.advance(IngestEvent::Done));
    assert!(next.0.starts_with("INSERT OR REPLACE INTO documents"));
    assert_eq!(statement(&s.advance(IngestEvent::Failed("disk full".to_string()))), ("ROLLBACK".to_string(), vec![]));
    assert_eq!(
        s.advance(IngestEvent::Done),
        IngestAction::Aborted(LibsqlError::IngestError("disk full".to_string()))
    );
    assert_eq!(
        s.advance(IngestEvent::Done),
        IngestAction::Aborted(LibsqlError::IngestError("disk full".to_string()))
    );
}

#[test]
fn failed_commit_rolls_back() {
    let mut s = IngestSession::new("documents".to_string(), vec![]);
    s.start();
    assert_eq!(statement(&s.advance(IngestEvent::Done)).0, "COMMIT");
    assert_eq!(statement(&s.advance(IngestEvent::Failed("busy".to_string()))).0, "ROLLBACK");
    assert!(matches!(s.advance(IngestEvent::Failed("again".to_string())), IngestAction::Aborted(_)));
}

#[test]
fn upsert_binds_the_same_id_twice_in_order() {
    let first = Note { id: "X".to_string(), content: "one".to_string() };
    let second = Note { id: "X".to_string(), content: "two".to_string() };
    let mut s = IngestSession::new(
        "notes".to_string(),
        vec![IngestItem::from_record(&first, vec![vec![1]]), IngestItem::from_record(&second, vec![vec![2]])],
    );
    s.start();
    let clear0 = statement(&s.advance(IngestEvent::Done));
    let up0 = statement(&s.advance(IngestEvent::Done));
    s.advance(IngestEvent::Done);
    s.advance(IngestEvent::RowId(1));
    let clear1 = statement(&s.advance(IngestEvent::Done));
    let up1 = statement(&s.advance(IngestEvent::Done));
    assert_eq!(clear0.1, vec![SqlValue::Text("X".to_string())]);
    assert_eq!(clear1.1, vec![SqlValue::Text("X".to_string())]);
    assert_eq!(up0.0, "INSERT OR REPLACE INTO notes (id, content) VALUES (?1, ?2)");
    assert_eq!(up1.1, vec![SqlValue::Text("X".to_string()), SqlValue::Text("two".to_string())]);
}

#[test]
fn undecodable_row_is_skipped() {
    let rows = vec![
        (1u64, "a".to_string(), Some(10)),
        (2u64, "b".to_string(), None),
        (3u64, "c".to_string(), Some(30)),
    ];
    let out = collect_decoded(rows);
    assert_eq!(out, vec![(1u64, "a".to_string(), 10), (3u64, "c".to_string(), 30)]);
}

#[test]
fn decoding_keeps_distance_order_of_rows() {
    let d = |x: f64| x.to_bits();
    let rows = vec![
        (d(0.0), "doc2".to_string(), Some("two")),
        (d(0.25), "doc1".to_string(), None),
        (d(0.5), "doc0".to_string(), Some("zero")),
        (d(1.5), "doc3".to_string(), Some("three")),
    ];
    let out = collect_decoded(rows);
    let ds: Vec<f64> = out.iter().map(|r| f64::from_bits(r.0)).collect();
    assert_eq!(ds, vec![0.0, 0.5, 1.5]);
}

#[test]
fn nearest_document_scenario() {
    let cols = document_columns();
    let stmts = provision_statements("documents", &cols, 4).unwrap();
    assert_eq!(stmts.len(), 3);
    let mut s = IngestSession::new(
        "documents".to_string(),
        vec![
            item("doc0", "zero", vec![vec![0; 16]]),
            item("doc1", "one", vec![vec![1; 16]]),
            item("doc2", "two", vec![vec![2; 16]]),
        ],
    );
    let mut action = s.start();
    let mut rowid = 0;
    let mut steps = 0;
    loop {
        action = match action {
            IngestAction::QueryRowId(_) => {
                rowid += 1;
                s.advance(IngestEvent::RowId(rowid))
            }
            IngestAction::Execute(..) => s.advance(IngestEvent::Done),
            _ => break,
        };
        steps += 1;
    }
    assert_eq!(action, IngestAction::Finished(3));
    assert_eq!(steps, 1 + 3 * 4 + 1);
    let req = VectorSearchRequest::new("closest to doc2".to_string(), 1, None, None);
    let (clause, params) = build_where_clause(req, vec![2; 16]).unwrap();
    assert_eq!(params[1], SqlValue::Integer(1));
    let sql = top_n_ids_statement("documents", &clause);
    assert!(sql.starts_with("SELECT d.id, e.distance FROM documents_embeddings e"));
    let rows = vec![(0.0f64.to_bits(), "doc2".to_string(), Some(()))];
    let out = collect_decoded(rows);
    assert_eq!(out.len(), 1);
    assert_eq!(out[0].1, "doc2");
    assert_eq!(f64::from_bits(out[0].0), 0.0);
}

#[test]
fn sample_count_bounds() {
    assert!(validate_samples(1).is_ok());
    assert!(validate_samples(MAX_SAMPLES).is_ok());
    assert!(matches!(validate_samples(0), Err(LibsqlError::InvalidRequest(_))));
    assert!(matches!(validate_samples(MAX_SAMPLES + 1), Err(LibsqlError::InvalidRequest(_))));
    let req = VectorSearchRequest::new("q".to_string(), u64::MAX, None, None);
    assert!(matches!(build_where_clause(req, vec![]), Err(LibsqlError::InvalidRequest(_))));
}

#[test]
fn record_without_embeddings_moves_on() {
    let mut s = IngestSession::new("documents".to_string(), vec![item("a", "x", vec![]), item("b", "y", vec![vec![5]])]);
    s.start();
    s.advance(IngestEvent::Done);
    s.advance(IngestEvent::Done);
    s.advance(IngestEvent::Done);
    let next = statement(&s.advance(IngestEvent::RowId(3)));
    assert_eq!(next.1, vec![SqlValue::Text("b".to_string())]);
}

#[test]
fn session_not_started_reports_abort() {
    let mut s = IngestSession::new("documents".to_string(), vec![]);
    assert!(matches!(s.advance(IngestEvent::Done), IngestAction::Aborted(LibsqlError::IngestError(_))));
}
