use vstd::prelude::*;
use crate::error::LibsqlError;

verus! {

/// What the caller reports after running a statement.
#[derive(Debug, Clone, PartialEq)]
pub enum StepOutcome {
    Done,
    Failed(String),
}

/// What the caller does next.
#[derive(Debug, Clone, PartialEq)]
pub enum ScriptAction {
    /// Run this statement.
    Execute(String),
    /// Every statement ran and the transaction is committed.
    Committed,
    /// The transaction was rolled back.
    Aborted(LibsqlError),
}

#[derive(Debug, PartialEq, Eq, Structural, Clone, Copy)]
pub enum ScriptStage {
    Running,
    RollingBack,
    Committed,
    RolledBack,
}

/// The statements run, in order, inside one transaction.
pub open spec fn wrapped(stmts: Seq<Seq<char>>) -> Seq<Seq<char>> {
    seq!["BEGIN"@] + stmts + seq!["COMMIT"@]
}

/// Statements that run together or not at all: the caller runs each action
/// and reports how it went; a failure anywhere rolls the transaction back.
pub struct TransactionScript {
    script: Vec<String>,
    pos: usize,
    stage: ScriptStage,
    cause: String,
}

impl TransactionScript {
    pub closed spec fn spec_script(&self) -> Seq<Seq<char>> {
        self.script@.map_values(|s: String| s@)
    }

    pub closed spec fn spec_pos(&self) -> nat {
        self.pos as nat
    }

    pub closed spec fn spec_stage(&self) -> ScriptStage {
        self.stage
    }

    /// The reason given by the failure that stopped the script, if one did.
    pub closed spec fn spec_cause(&self) -> Seq<char> {
        self.cause@
    }

    pub open spec fn wf(&self) -> bool {
        self.spec_pos() < self.spec_script().len()
    }

    /// The script for `statements`, positioned on its opening `BEGIN`.
    pub fn new(statements: Vec<String>) -> (r: Self)
        ensures
            r.wf(),
            r.spec_script() == wrapped(statements@.map_values(|s: String| s@)),
            r.spec_pos() == 0,
            r.spec_stage() == ScriptStage::Running,
    {
        let ghost body = statements@.map_values(|s: String| s@);
        let mut script: Vec<String> = Vec::new();
        script.push(String::from_str("BEGIN"));
        let mut rest = statements;
        let ghost rest0 = rest@;
        script.append(&mut rest);
        script.push(String::from_str("COMMIT"));
        proof {
            assert(script@.map_values(|s: String| s@) =~= wrapped(body));
        }
        TransactionScript { script, pos: 0, stage: ScriptStage::Running, cause: String::new() }
    }

    /// The action that the script stands on.
    pub fn current(&self) -> (r: ScriptAction)
        requires
            self.wf(),
        ensures
            self.spec_stage() == ScriptStage::Running ==> r is Execute && r->Execute_0@
                == self.spec_script()[self.spec_pos() as int],
            self.spec_stage() == ScriptStage::RollingBack ==> r is Execute && r->Execute_0@ == "ROLLBACK"@,
            self.spec_stage() == ScriptStage::Committed ==> r is Committed,
            self.spec_stage() == ScriptStage::RolledBack ==> r is Aborted && r->Aborted_0 is DatabaseError
                && r->Aborted_0->DatabaseError_0@ == self.spec_cause(),
    {
        match self.stage {
            ScriptStage::Running => ScriptAction::Execute(self.script[self.pos].clone()),
            ScriptStage::RollingBack => ScriptAction::Execute(String::from_str("ROLLBACK")),
            ScriptStage::Committed => ScriptAction::Committed,
            ScriptStage::RolledBack => ScriptAction::Aborted(LibsqlError::DatabaseError(self.cause.clone())),
        }
    }

    /// Moves on after the current statement and says what to do next. The
    /// transaction commits only once every statement has run.
    pub fn advance(&mut self, outcome: StepOutcome) -> (r: ScriptAction)
        requires
            old(self).wf(),
        ensures
            final(self).wf(),
            final(self).spec_script() == old(self).spec_script(),
            old(self).spec_stage() == ScriptStage::Running && outcome is Failed ==> final(self).spec_stage()
                == ScriptStage::RollingBack,
            old(self).spec_stage() == ScriptStage::Running && outcome is Done ==> if old(self).spec_pos() + 1
                < old(self).spec_script().len() {
                final(self).spec_stage() == ScriptStage::Running && final(self).spec_pos() == old(self).spec_pos()
                    + 1
            } else {
                final(self).spec_stage() == ScriptStage::Committed
            },
            old(self).spec_stage() == ScriptStage::RollingBack ==> final(self).spec_stage()
                == ScriptStage::RolledBack,
            old(self).spec_stage() == ScriptStage::Committed || old(self).spec_stage() == ScriptStage::RolledBack
                ==> final(self).spec_stage() == old(self).spec_stage(),
            final(self).spec_stage() == ScriptStage::Running ==> r is Execute && r->Execute_0@
                == final(self).spec_script()[final(self).spec_pos() as int],
            final(self).spec_stage() == ScriptStage::RollingBack ==> r is Execute && r->Execute_0@
                == "ROLLBACK"@,
            final(self).spec_stage() == ScriptStage::Committed ==> r is Committed,
            final(self).spec_stage() == ScriptStage::RolledBack ==> r is Aborted && r->Aborted_0 is DatabaseError
                && r->Aborted_0->DatabaseError_0@ == final(self).spec_cause(),
            old(self).spec_stage() == ScriptStage::Running && outcome is Failed ==> final(self).spec_cause()
                == outcome->Failed_0@,
            !(old(self).spec_stage() == ScriptStage::Running && outcome is Failed) ==> final(self).spec_cause()
                == old(self).spec_cause(),
    {
        match self.stage {
            ScriptStage::Running => {
                match outcome {
                    StepOutcome::Done => {
                        if self.pos < self.script.len() - 1 {
                            self.pos = self.pos + 1;
                        } else {
                            self.stage = ScriptStage::Committed;
                        }
                    },
                    StepOutcome::Failed(c) => {
                        self.cause = c;
                        self.stage = ScriptStage::RollingBack;
                    },
                }
            },
            ScriptStage::RollingBack => {
                self.stage = ScriptStage::RolledBack;
            },
            _ => {},
        }
        proof {
            assert(self.spec_script().len() == self.script@.len());
        }
        self.current()
    }
}

} // verus!
