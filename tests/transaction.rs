use rig_libsql::error::LibsqlError;
use rig_libsql::transaction::{ScriptAction, StepOutcome, TransactionScript};

fn stmts() -> Vec<String> {
    vec!["CREATE TABLE IF NOT EXISTS t (id TEXT)".to_string(), "CREATE INDEX IF NOT EXISTS idx_t_id ON t(id)".to_string()]
}

#[test]
fn script_runs_every_statement_inside_one_transaction() {
    let mut s = TransactionScript::new(stmts());
    let mut seen = Vec::new();
    let mut action = s.current();
    while let ScriptAction::Execute(sql) = action {
        seen.push(sql);
        action = s.advance(StepOutcome::Done);
    }
    assert_eq!(action, ScriptAction::Committed);
    assert_eq!(
        seen,
        vec![
            "BEGIN".to_string(),
            "CREATE TABLE IF NOT EXISTS t (id TEXT)".to_string(),
            "CREATE INDEX IF NOT EXISTS idx_t_id ON t(id)".to_string(),
            "COMMIT".to_string(),
        ]
    );
    assert_eq!(s.advance(StepOutcome::Done), ScriptAction::Committed);
}

#[test]
fn script_failure_rolls_back_and_never_commits() {
    let mut s = TransactionScript::new(stmts());
    s.advance(StepOutcome::Done);
    assert_eq!(s.advance(StepOutcome::Failed("no such module: vec0".to_string())), ScriptAction::Execute("ROLLBACK".to_string()));
    let aborted = ScriptAction::Aborted(LibsqlError::DatabaseError("no such module: vec0".to_string()));
    assert_eq!(s.advance(StepOutcome::Done), aborted);
    assert_eq!(s.advance(StepOutcome::Done), aborted);
}

#[test]
fn failed_commit_is_rolled_back() {
    let mut s = TransactionScript::new(vec![]);
    assert_eq!(s.advance(StepOutcome::Done), ScriptAction::Execute("COMMIT".to_string()));
    assert_eq!(s.advance(StepOutcome::Failed("busy".to_string())), ScriptAction::Execute("ROLLBACK".to_string()));
    assert!(matches!(s.advance(StepOutcome::Done), ScriptAction::Aborted(_)));
}
