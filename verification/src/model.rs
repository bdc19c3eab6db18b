//! The store that the contract keeps the commitments in, as a map of roots,
//! a map of markers and a sequence of runs, and the ledger that results
//! where the operations are handed what this store holds and the store takes
//! what they return.

use crate::error::LedgerError;
use crate::rules::{
    commit_plan, entry_text, is_marked, page_len, resolve_plan, run_record, start_of, CommitPlan,
    RecordText,
};
use near_sdk::AccountId;
use vstd::prelude::*;

verus! {

/// What the ledger holds: who may write, who verifies, and the commitments.
pub struct LedgerState {
    /// The one identity that may change the ledger.
    pub orchestrator: AccountId,
    /// The contract that checks proofs, where one is configured.
    pub verifier: Option<AccountId>,
    /// The committed root of each run.
    pub roots: Map<Seq<char>, Seq<char>>,
    /// The marker of each run that has been committed.
    pub processed: Map<Seq<char>, bool>,
    /// The committed runs, in the order in which they were committed.
    pub history: Seq<Seq<char>>,
}

/// One request to the ledger, with the identity that made it where that
/// matters.
pub enum Request {
    /// A call to hand the orchestrator's role on.
    SetOrchestrator { caller: AccountId, new_orchestrator: AccountId },
    /// A call to configure a verifier.
    SetVerifier { caller: AccountId, verifier: AccountId },
    /// A call to remove the verifier.
    RemoveVerifier { caller: AccountId },
    /// A call to commit a run, with or without a proof and public signals.
    Commit {
        caller: AccountId,
        run_id: Seq<char>,
        payroll_root: Seq<char>,
        with_proof: bool,
        with_signals: bool,
    },
    /// The verifier's verdict on a pending commit coming in.
    Resolve { run_id: Seq<char>, payroll_root: Seq<char>, verdict: Option<bool> },
}

impl LedgerState {
    /// The ledger of a contract that has just been made: nothing is stored.
    pub open spec fn initial(orchestrator: AccountId) -> LedgerState {
        LedgerState {
            orchestrator,
            verifier: None,
            roots: Map::empty(),
            processed: Map::empty(),
            history: Seq::empty(),
        }
    }

    /// What a lookup of the run's marker finds.
    pub open spec fn marker(self, run_id: Seq<char>) -> Option<bool> {
        if self.processed.contains_key(run_id) {
            Some(self.processed[run_id])
        } else {
            None
        }
    }

    /// Whether the run has been committed.
    pub open spec fn is_processed(self, run_id: Seq<char>) -> bool {
        is_marked(self.marker(run_id))
    }

    /// The committed root of the run, if it has one.
    pub open spec fn run_root(self, run_id: Seq<char>) -> Option<Seq<char>> {
        if self.roots.contains_key(run_id) {
            Some(self.roots[run_id])
        } else {
            None
        }
    }

    /// The three collections agree: a run has a root exactly when it has a
    /// marker, every marker is set, and the history lists the marked runs,
    /// each once.
    pub open spec fn wf(self) -> bool {
        &&& self.roots.dom() == self.processed.dom()
        &&& forall|id: Seq<char>| self.processed.contains_key(id) ==> self.processed[id]
        &&& self.history.no_duplicates()
        &&& self.history.to_set() == self.processed.dom()
    }

    /// The ledger after the store took a record: the root and the marker
    /// under the run's id, and the item at the end of the history.
    pub open spec fn written(self, record: RecordText) -> LedgerState {
        LedgerState {
            roots: self.roots.insert(record.run_id, record.payroll_root),
            processed: self.processed.insert(record.run_id, record.marker),
            history: self.history.push(record.history_item),
            ..self
        }
    }

    /// The ledger with the run recorded.
    pub open spec fn record(self, run_id: Seq<char>, payroll_root: Seq<char>) -> LedgerState {
        self.written(run_record(run_id, payroll_root))
    }

    /// Why a call by `caller` to change the configuration is refused, if it is.
    pub open spec fn admin_error(self, caller: AccountId) -> Option<LedgerError> {
        if caller != self.orchestrator {
            Some(LedgerError::Unauthorized)
        } else {
            None
        }
    }

    /// The ledger after `caller` asked to hand the orchestrator's role on.
    pub open spec fn after_set_orchestrator(
        self,
        caller: AccountId,
        new_orchestrator: AccountId,
    ) -> LedgerState {
        if caller == self.orchestrator {
            LedgerState { orchestrator: new_orchestrator, ..self }
        } else {
            self
        }
    }

    /// The ledger after `caller` asked to configure a verifier.
    pub open spec fn after_set_verifier(self, caller: AccountId, verifier: AccountId) -> LedgerState {
        if caller == self.orchestrator {
            LedgerState { verifier: Some(verifier), ..self }
        } else {
            self
        }
    }

    /// The ledger after `caller` asked to remove the verifier.
    pub open spec fn after_remove_verifier(self, caller: AccountId) -> LedgerState {
        if caller == self.orchestrator {
            LedgerState { verifier: None, ..self }
        } else {
            self
        }
    }

    /// What the rules make of a commit of `run_id` by `caller`, handed the
    /// marker that this ledger has for the run.
    pub open spec fn commit_reply(
        self,
        caller: AccountId,
        run_id: Seq<char>,
        with_proof: bool,
        with_signals: bool,
    ) -> Result<CommitPlan, LedgerError> {
        commit_plan(
            caller == self.orchestrator,
            self.marker(run_id),
            self.verifier.is_some(),
            with_proof,
            with_signals,
        )
    }

    /// The ledger after `caller` asked to commit a run. It is recorded at
    /// once where the call is accepted and need not wait for the verifier.
    pub open spec fn after_commit(
        self,
        caller: AccountId,
        run_id: Seq<char>,
        payroll_root: Seq<char>,
        with_proof: bool,
        with_signals: bool,
    ) -> LedgerState {
        if self.commit_reply(caller, run_id, with_proof, with_signals) == Ok::<
            CommitPlan,
            LedgerError,
        >(CommitPlan::Record) {
            self.record(run_id, payroll_root)
        } else {
            self
        }
    }

    /// What the rules make of the verifier's verdict on a pending commit of
    /// `run_id`, handed the marker that this ledger has for the run.
    pub open spec fn resolve_reply(self, run_id: Seq<char>, verdict: Option<bool>) -> Result<
        (),
        LedgerError,
    > {
        resolve_plan(self.marker(run_id), verdict)
    }

    /// The ledger after the verifier's verdict on a pending commit came in.
    pub open spec fn after_resolve(
        self,
        run_id: Seq<char>,
        payroll_root: Seq<char>,
        verdict: Option<bool>,
    ) -> LedgerState {
        if self.resolve_reply(run_id, verdict).is_ok() {
            self.record(run_id, payroll_root)
        } else {
            self
        }
    }

    /// What is read for a listing: the runs at its places of the history,
    /// each with the root found for it.
    pub open spec fn page(self, from: Option<u64>, limit: Option<u64>) -> Seq<
        (Seq<char>, Option<Seq<char>>),
    > {
        Seq::new(
            page_len(self.history.len(), from, limit),
            |i: int|
                (
                    self.history[start_of(from) + i],
                    self.run_root(self.history[start_of(from) + i]),
                ),
        )
    }

    /// The entries of a listing: the entry of each run read for it.
    pub open spec fn listed(self, from: Option<u64>, limit: Option<u64>) -> Seq<
        (Seq<char>, Seq<char>),
    > {
        Seq::new(
            self.page(from, limit).len(),
            |i: int| entry_text(self.page(from, limit)[i].0, self.page(from, limit)[i].1),
        )
    }

    /// The ledger after one request.
    pub open spec fn after(self, request: Request) -> LedgerState {
        match request {
            Request::SetOrchestrator { caller, new_orchestrator } => self.after_set_orchestrator(
                caller,
                new_orchestrator,
            ),
            Request::SetVerifier { caller, verifier } => self.after_set_verifier(caller, verifier),
            Request::RemoveVerifier { caller } => self.after_remove_verifier(caller),
            Request::Commit {
                caller,
                run_id,
                payroll_root,
                with_proof,
                with_signals,
            } => self.after_commit(caller, run_id, payroll_root, with_proof, with_signals),
            Request::Resolve { run_id, payroll_root, verdict } => self.after_resolve(
                run_id,
                payroll_root,
                verdict,
            ),
        }
    }

    /// The ledger after a sequence of requests, taken in their order.
    pub open spec fn after_all(self, requests: Seq<Request>) -> LedgerState
        decreases requests.len(),
    {
        if requests.len() == 0 {
            self
        } else {
            self.after_all(requests.drop_last()).after(requests.last())
        }
    }
}

/// Recording a run that has no marker keeps the collections in agreement.
pub proof fn lemma_record_keeps_wf(s: LedgerState, run_id: Seq<char>, payroll_root: Seq<char>)
    requires
        s.wf(),
        s.marker(run_id).is_none(),
    ensures
        s.record(run_id, payroll_root).wf(),
{
    let t = s.record(run_id, payroll_root);
    assert(!s.processed.contains_key(run_id));
    assert(!s.history.to_set().contains(run_id));
    assert(!s.history.contains(run_id));
    assert(t.roots.dom() =~= t.processed.dom());
    assert(t.history.no_duplicates()) by {
        assert forall|i: int, j: int|
            0 <= i < t.history.len() && 0 <= j < t.history.len() && i != j implies t.history[i]
            != t.history[j] by {
            if i < s.history.len() && j < s.history.len() {
            } else if i < s.history.len() {
                assert(s.history.contains(s.history[i]));
            } else {
                assert(s.history.contains(s.history[j]));
            }
        }
    }
    assert(t.history.to_set() =~= t.processed.dom()) by {
        assert forall|id: Seq<char>| t.history.to_set().contains(id) <==> t.processed.dom().contains(
            id,
        ) by {
            if t.history.contains(id) {
                let i = choose|i: int| 0 <= i < t.history.len() && t.history[i] == id;
                if i < s.history.len() {
                    assert(s.history.contains(id));
                    assert(s.history.to_set().contains(id));
                }
            }
            if t.processed.dom().contains(id) {
                if id == run_id {
                    assert(t.history[s.history.len() as int] == id);
                } else {
                    assert(s.history.to_set().contains(id));
                    let i = choose|i: int| 0 <= i < s.history.len() && s.history[i] == id;
                    assert(t.history[i] == id);
                }
            }
        }
    }
}

} // verus!
