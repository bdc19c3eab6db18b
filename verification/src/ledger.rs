//! The ledger contract: who may write, who verifies, and the operations. An
//! operation is handed what was read from the store for it, and returns
//! what is to be written there.

use crate::error::LedgerError;
use crate::event::{event_line, payroll_committed_line};
use crate::host::{block_time, calling_account, copy_account, same_account};
use crate::rules::{
    commit_plan, entry_text, is_marked, list_entry, marker_is_set, plan_commit, plan_resolve,
    resolve_plan, run_record, verdict_of, CommitPlan, RecordText,
};
use near_sdk::{AccountId, PromiseError};
use vstd::prelude::*;
use vstd::string::*;

verus! {

/// The configuration of the ledger: the one identity that may write, and
/// the contract that checks proofs, where one is configured.
pub struct Contract {
    orchestrator: AccountId,
    verifier_contract: Option<AccountId>,
}

/// What is to be written to the store for a run that is recorded.
pub struct RunRecord {
    /// The run, which is the key of its root and of its marker.
    pub run_id: String,
    /// The root to keep for the run.
    pub payroll_root: String,
    /// The marker to keep for the run.
    pub marker: bool,
    /// The item to put at the end of the history.
    pub history_item: String,
}

impl View for RunRecord {
    type V = RecordText;

    open spec fn view(&self) -> RecordText {
        RecordText {
            run_id: self.run_id@,
            payroll_root: self.payroll_root@,
            marker: self.marker,
            history_item: self.history_item@,
        }
    }
}

/// What the verifier is to be asked, and the commitment that waits for its
/// answer.
pub struct VerificationRequest {
    /// The contract to ask.
    pub verifier: AccountId,
    /// The proof to check.
    pub proof: String,
    /// The public signals to check it against.
    pub public_signals: Vec<String>,
    /// The run to commit once the proof is found to hold.
    pub run_id: String,
    /// The root to commit for that run.
    pub payroll_root: String,
    /// The total to report for that run.
    pub total_amount: String,
}

/// A commitment that is accepted: what to write, what to log, and what to
/// answer.
pub struct Confirmation {
    /// The confirmation for the caller.
    pub message: String,
    /// The log line that carries the event of this commitment, to be
    /// written to the log once.
    pub event: String,
    /// What is to be written to the store.
    pub record: RunRecord,
}

/// What became of a call to commit a run.
pub enum CommitOutcome {
    /// The run is to be recorded at once.
    Committed(Confirmation),
    /// Nothing is recorded yet: the verifier is to be asked first.
    VerificationRequested(VerificationRequest),
}

/// The confirmation of a commitment that no verifier was asked about.
pub open spec fn trusted_message() -> Seq<char> {
    "Committed (Trusted Mode)"@
}

/// The confirmation of a commitment whose proof the verifier accepted.
pub open spec fn verified_message() -> Seq<char> {
    "Committed (Verified)"@
}

/// What a call to commit returns where the rules made `plan` of it: the
/// refusal; the request to the verifier, which carries the call's arguments
/// on; or the confirmation, with the record of the run and the event of
/// `timestamp`.
pub open spec fn commit_outcome_is(
    plan: Result<CommitPlan, LedgerError>,
    outcome: Result<CommitOutcome, LedgerError>,
    verifier: Option<AccountId>,
    timestamp: u64,
    run_id: String,
    payroll_root: String,
    total_amount: String,
    proof: Option<String>,
    public_signals: Option<Vec<String>>,
) -> bool {
    match outcome {
        Err(e) => plan == Err::<CommitPlan, LedgerError>(e),
        Ok(CommitOutcome::VerificationRequested(request)) => {
            &&& plan == Ok::<CommitPlan, LedgerError>(CommitPlan::AskVerifier)
            &&& Some(request.verifier) == verifier
            &&& Some(request.proof) == proof
            &&& Some(request.public_signals) == public_signals
            &&& request.run_id == run_id
            &&& request.payroll_root == payroll_root
            &&& request.total_amount == total_amount
        },
        Ok(CommitOutcome::Committed(done)) => {
            &&& plan == Ok::<CommitPlan, LedgerError>(CommitPlan::Record)
            &&& done.message@ == trusted_message()
            &&& done.event@ == event_line(run_id@, payroll_root@, total_amount@, timestamp)
            &&& done.record@ == run_record(run_id@, payroll_root@)
        },
    }
}

/// What the continuation of a commit returns where the rules made `plan` of
/// it: the refusal, or the confirmation, with the record of the run and the
/// event of `timestamp`.
pub open spec fn resolve_outcome_is(
    plan: Result<(), LedgerError>,
    outcome: Result<Confirmation, LedgerError>,
    timestamp: u64,
    run_id: Seq<char>,
    payroll_root: Seq<char>,
    total_amount: Seq<char>,
) -> bool {
    match outcome {
        Err(e) => plan == Err::<(), LedgerError>(e),
        Ok(done) => {
            &&& plan.is_ok()
            &&& done.message@ == verified_message()
            &&& done.event@ == event_line(run_id, payroll_root, total_amount, timestamp)
            &&& done.record@ == run_record(run_id, payroll_root)
        },
    }
}

/// What recording a run returns where the marker `marker` was read for it:
/// the record of the run with the event of `timestamp`, or the refusal of a
/// run that has a marker.
pub open spec fn recording_is(
    marker: Option<bool>,
    written: Result<(RunRecord, String), LedgerError>,
    timestamp: u64,
    run_id: Seq<char>,
    payroll_root: Seq<char>,
    total_amount: Seq<char>,
) -> bool {
    match written {
        Ok(pair) => {
            &&& marker.is_none()
            &&& pair.0@ == run_record(run_id, payroll_root)
            &&& pair.1@ == event_line(run_id, payroll_root, total_amount, timestamp)
        },
        Err(e) => e == LedgerError::DuplicateRun && marker.is_some(),
    }
}

/// Whether a call that only the orchestrator `orchestrator` may make was
/// answered as it must be where `caller` made it.
pub open spec fn admin_outcome_is(
    orchestrator: AccountId,
    done: Result<(), LedgerError>,
    caller: AccountId,
) -> bool {
    match done {
        Ok(_) => caller == orchestrator,
        Err(e) => caller != orchestrator && e == LedgerError::Unauthorized,
    }
}

/// The text of a root that was read, if one was found.
pub open spec fn root_text(root: Option<String>) -> Option<Seq<char>> {
    match root {
        Some(text) => Some(text@),
        None => None,
    }
}

impl Contract {
    /// The identity that may change the ledger.
    pub closed spec fn current_orchestrator(&self) -> AccountId {
        self.orchestrator
    }

    /// The contract that checks proofs, where one is configured.
    pub closed spec fn current_verifier(&self) -> Option<AccountId> {
        self.verifier_contract
    }

    /// What the rules make of a commit by `caller` of a run for which the
    /// marker `marker` was read.
    pub open spec fn plan_for(
        &self,
        caller: AccountId,
        marker: Option<bool>,
        with_proof: bool,
        with_signals: bool,
    ) -> Result<CommitPlan, LedgerError> {
        commit_plan(
            caller == self.current_orchestrator(),
            marker,
            self.current_verifier().is_some(),
            with_proof,
            with_signals,
        )
    }

    /// The configuration of a new ledger: `orchestrator_id` may write, and no
    /// verifier is configured.
    pub fn new(orchestrator_id: AccountId) -> (contract: Contract)
        ensures
            contract.current_orchestrator() == orchestrator_id,
            contract.current_verifier().is_none(),
    {
        Contract { orchestrator: orchestrator_id, verifier_contract: None }
    }

    /// The configuration with this orchestrator and this verifier.
    pub fn from_parts(orchestrator: AccountId, verifier_contract: Option<AccountId>) -> (contract:
        Contract)
        ensures
            contract.current_orchestrator() == orchestrator,
            contract.current_verifier() == verifier_contract,
    {
        Contract { orchestrator, verifier_contract }
    }

    /// The identity that may change the ledger.
    pub fn get_orchestrator(&self) -> (orchestrator: AccountId)
        ensures
            orchestrator == self.current_orchestrator(),
    {
        copy_account(&self.orchestrator)
    }

    /// The contract that checks proofs, where one is configured.
    pub fn get_verifier(&self) -> (verifier: Option<AccountId>)
        ensures
            verifier == self.current_verifier(),
    {
        match &self.verifier_contract {
            Some(v) => Some(copy_account(v)),
            None => None,
        }
    }

    /// The guard of every change, for a call that `caller` made: only the
    /// orchestrator passes.
    pub fn assert_orchestrator_as(&self, caller: &AccountId) -> (checked: Result<(), LedgerError>)
        ensures
            admin_outcome_is(self.current_orchestrator(), checked, *caller),
    {
        if same_account(caller, &self.orchestrator) {
            Ok(())
        } else {
            Err(LedgerError::Unauthorized)
        }
    }

    /// Hands the orchestrator's role to `new_orchestrator`, if `caller` holds
    /// it. Nothing else changes.
    pub fn set_orchestrator_as(&mut self, caller: &AccountId, new_orchestrator: AccountId) -> (done:
        Result<(), LedgerError>)
        ensures
            admin_outcome_is(old(self).current_orchestrator(), done, *caller),
            done.is_err() ==> *final(self) == *old(self),
            done.is_ok() ==> final(self).current_orchestrator() == new_orchestrator,
            final(self).current_verifier() == old(self).current_verifier(),
    {
        match self.assert_orchestrator_as(caller) {
            Ok(_) => {
                self.orchestrator = new_orchestrator;
                Ok(())
            },
            Err(e) => Err(e),
        }
    }

    /// Configures `verifier` as the contract that checks proofs, if `caller`
    /// is the orchestrator. Nothing else changes.
    pub fn set_verifier_as(&mut self, caller: &AccountId, verifier: AccountId) -> (done: Result<
        (),
        LedgerError,
    >)
        ensures
            admin_outcome_is(old(self).current_orchestrator(), done, *caller),
            done.is_err() ==> *final(self) == *old(self),
            done.is_ok() ==> final(self).current_verifier() == Some(verifier),
            final(self).current_orchestrator() == old(self).current_orchestrator(),
    {
        match self.assert_orchestrator_as(caller) {
            Ok(_) => {
                self.verifier_contract = Some(verifier);
                Ok(())
            },
            Err(e) => Err(e),
        }
    }

    /// Removes the verifier, if `caller` is the orchestrator. Nothing else
    /// changes.
    pub fn remove_verifier_as(&mut self, caller: &AccountId) -> (done: Result<(), LedgerError>)
        ensures
            admin_outcome_is(old(self).current_orchestrator(), done, *caller),
            done.is_err() ==> *final(self) == *old(self),
            done.is_ok() ==> final(self).current_verifier().is_none(),
            final(self).current_orchestrator() == old(self).current_orchestrator(),
    {
        match self.assert_orchestrator_as(caller) {
            Ok(_) => {
                self.verifier_contract = None;
                Ok(())
            },
            Err(e) => Err(e),
        }
    }

    /// Whether a run is processed, by the marker that was read for it: a run
    /// without a marker is not.
    pub fn is_run_processed(&self, marker: Option<bool>) -> (processed: bool)
        ensures
            processed == is_marked(marker),
    {
        marker_is_set(marker)
    }

    /// The record and the log line of a run for which the marker `marker`
    /// was read. A run that has a marker is refused, whatever the marker
    /// says: it is recorded once.
    pub fn internal_commit(
        &self,
        marker: Option<bool>,
        run_id: String,
        root: String,
        total: String,
        timestamp: u64,
    ) -> (written: Result<(RunRecord, String), LedgerError>)
        ensures
            recording_is(marker, written, timestamp, run_id@, root@, total@),
    {
        if marker.is_some() {
            return Err(LedgerError::DuplicateRun);
        }
        let event = payroll_committed_line(run_id.as_str(), root.as_str(), total.as_str(), timestamp);
        let history_item = run_id.clone();
        Ok((RunRecord { run_id, payroll_root: root, marker: true, history_item }, event))
    }

    /// A call by `caller`, at the time `timestamp`, to commit a run for which
    /// the marker `marker` was read. What becomes of it is what the rules
    /// say: a refusal, a request to the verifier, or the confirmation with
    /// the record to write.
    pub fn commit_payroll_with(
        &self,
        caller: &AccountId,
        timestamp: u64,
        marker: Option<bool>,
        run_id: String,
        payroll_root: String,
        total_amount: String,
        proof: Option<String>,
        public_signals: Option<Vec<String>>,
        _attestation: Option<String>,
    ) -> (outcome: Result<CommitOutcome, LedgerError>)
        ensures
            commit_outcome_is(
                self.plan_for(*caller, marker, proof.is_some(), public_signals.is_some()),
                outcome,
                self.current_verifier(),
                timestamp,
                run_id,
                payroll_root,
                total_amount,
                proof,
                public_signals,
            ),
    {
        let verifier = self.get_verifier();
        let plan = plan_commit(
            same_account(caller, &self.orchestrator),
            marker,
            verifier.is_some(),
            proof.is_some(),
            public_signals.is_some(),
        );
        match plan {
            Err(e) => Err(e),
            Ok(CommitPlan::AskVerifier) => {
                Ok(
                    CommitOutcome::VerificationRequested(
                        VerificationRequest {
                            verifier: verifier.unwrap(),
                            proof: proof.unwrap(),
                            public_signals: public_signals.unwrap(),
                            run_id,
                            payroll_root,
                            total_amount,
                        },
                    ),
                )
            },
            Ok(CommitPlan::Record) => {
                match self.internal_commit(marker, run_id, payroll_root, total_amount, timestamp) {
                    Ok(pair) => Ok(
                        CommitOutcome::Committed(
                            Confirmation {
                                message: String::from_str("Committed (Trusted Mode)"),
                                event: pair.1,
                                record: pair.0,
                            },
                        ),
                    ),
                    Err(e) => Err(e),
                }
            },
        }
    }

    /// The continuation of a commit that waited for the verifier, at the time
    /// `timestamp`, for a run for which the marker `marker` was read. The run
    /// is recorded only where the call to the verifier completed, its answer
    /// was `true`, and the run has no marker.
    pub fn resolve_payroll_with(
        &self,
        timestamp: u64,
        marker: Option<bool>,
        run_id: String,
        payroll_root: String,
        total_amount: String,
        call_result: Result<bool, PromiseError>,
    ) -> (outcome: Result<Confirmation, LedgerError>)
        ensures
            resolve_outcome_is(
                resolve_plan(marker, verdict_of(call_result)),
                outcome,
                timestamp,
                run_id@,
                payroll_root@,
                total_amount@,
            ),
    {
        match plan_resolve(marker, &call_result) {
            Err(e) => Err(e),
            Ok(_) => {
                match self.internal_commit(marker, run_id, payroll_root, total_amount, timestamp) {
                    Ok(pair) => Ok(
                        Confirmation {
                            message: String::from_str("Committed (Verified)"),
                            event: pair.1,
                            record: pair.0,
                        },
                    ),
                    Err(e) => Err(e),
                }
            },
        }
    }

    /// The entries of a listing, from the runs read at its places of the
    /// history, each with the root read for it: the run, its root (the empty
    /// text where none was found) and zero for its time, which the ledger
    /// does not keep.
    pub fn list_runs(&self, items: Vec<(String, Option<String>)>) -> (entries: Vec<
        (String, String, u64),
    >)
        ensures
            entries@.len() == items@.len(),
            forall|i: int|
                0 <= i < entries@.len() ==> {
                    &&& ((#[trigger] entries@[i]).0@, entries@[i].1@) == entry_text(
                        items@[i].0@,
                        root_text(items@[i].1),
                    )
                    &&& entries@[i].2 == 0
                },
    {
        let mut entries: Vec<(String, String, u64)> = Vec::new();
        let mut i: usize = 0;
        while i < items.len()
            invariant
                i <= items@.len(),
                entries@.len() == i,
                forall|k: int|
                    0 <= k < i ==> {
                        &&& ((#[trigger] entries@[k]).0@, entries@[k].1@) == entry_text(
                            items@[k].0@,
                            root_text(items@[k].1),
                        )
                        &&& entries@[k].2 == 0
                    },
            decreases items@.len() - i,
        {
            let run_id = items[i].0.clone();
            let root = match &items[i].1 {
                Some(text) => Some(text.clone()),
                None => None,
            };
            entries.push(list_entry(run_id, root));
            i += 1;
        }
        entries
    }
}

impl Contract {
    /// The guard of every change: passes only where the running call was
    /// made by the orchestrator.
    pub fn assert_orchestrator(&self) -> (checked: Result<(), LedgerError>)
        ensures
            exists|caller: AccountId| #[trigger]
                admin_outcome_is(self.current_orchestrator(), checked, caller),
    {
        let caller = calling_account();
        let checked = self.assert_orchestrator_as(&caller);
        assert(admin_outcome_is(self.current_orchestrator(), checked, caller));
        checked
    }

    /// Hands the orchestrator's role to `new_orchestrator`, if the running
    /// call was made by the orchestrator.
    pub fn set_orchestrator(&mut self, new_orchestrator: AccountId) -> (done: Result<(), LedgerError>)
        ensures
            exists|caller: AccountId| #[trigger]
                admin_outcome_is(old(self).current_orchestrator(), done, caller),
            done.is_err() ==> *final(self) == *old(self),
            done.is_ok() ==> final(self).current_orchestrator() == new_orchestrator,
            final(self).current_verifier() == old(self).current_verifier(),
    {
        let caller = calling_account();
        let done = self.set_orchestrator_as(&caller, new_orchestrator);
        assert(admin_outcome_is(old(self).current_orchestrator(), done, caller));
        done
    }

    /// Configures `verifier` as the contract that checks proofs, if the
    /// running call was made by the orchestrator.
    pub fn set_verifier(&mut self, verifier: AccountId) -> (done: Result<(), LedgerError>)
        ensures
            exists|caller: AccountId| #[trigger]
                admin_outcome_is(old(self).current_orchestrator(), done, caller),
            done.is_err() ==> *final(self) == *old(self),
            done.is_ok() ==> final(self).current_verifier() == Some(verifier),
            final(self).current_orchestrator() == old(self).current_orchestrator(),
    {
        let caller = calling_account();
        let done = self.set_verifier_as(&caller, verifier);
        assert(admin_outcome_is(old(self).current_orchestrator(), done, caller));
        done
    }

    /// Removes the verifier, if the running call was made by the
    /// orchestrator.
    pub fn remove_verifier(&mut self) -> (done: Result<(), LedgerError>)
        ensures
            exists|caller: AccountId| #[trigger]
                admin_outcome_is(old(self).current_orchestrator(), done, caller),
            done.is_err() ==> *final(self) == *old(self),
            done.is_ok() ==> final(self).current_verifier().is_none(),
            final(self).current_orchestrator() == old(self).current_orchestrator(),
    {
        let caller = calling_account();
        let done = self.remove_verifier_as(&caller);
        assert(admin_outcome_is(old(self).current_orchestrator(), done, caller));
        done
    }

    /// Commits a run for which the marker `marker` was read, on behalf of
    /// whoever made the running call, at the current block's time.
    pub fn commit_payroll(
        &self,
        marker: Option<bool>,
        run_id: String,
        payroll_root: String,
        total_amount: String,
        proof: Option<String>,
        public_signals: Option<Vec<String>>,
        _attestation: Option<String>,
    ) -> (outcome: Result<CommitOutcome, LedgerError>)
        ensures
            exists|caller: AccountId, timestamp: u64| #[trigger]
                commit_outcome_is(
                    self.plan_for(caller, marker, proof.is_some(), public_signals.is_some()),
                    outcome,
                    self.current_verifier(),
                    timestamp,
                    run_id,
                    payroll_root,
                    total_amount,
                    proof,
                    public_signals,
                ),
    {
        let caller = calling_account();
        let timestamp = block_time();
        let outcome = self.commit_payroll_with(
            &caller,
            timestamp,
            marker,
            run_id,
            payroll_root,
            total_amount,
            proof,
            public_signals,
            _attestation,
        );
        assert(commit_outcome_is(
            self.plan_for(caller, marker, proof.is_some(), public_signals.is_some()),
            outcome,
            self.current_verifier(),
            timestamp,
            run_id,
            payroll_root,
            total_amount,
            proof,
            public_signals,
        ));
        outcome
    }

    /// Resolves a commit that waited for the verifier, for a run for which
    /// the marker `marker` was read, at the current block's time.
    pub fn resolve_payroll(
        &self,
        marker: Option<bool>,
        run_id: String,
        payroll_root: String,
        total_amount: String,
        call_result: Result<bool, PromiseError>,
    ) -> (outcome: Result<Confirmation, LedgerError>)
        ensures
            exists|timestamp: u64| #[trigger]
                resolve_outcome_is(
                    resolve_plan(marker, verdict_of(call_result)),
                    outcome,
                    timestamp,
                    run_id@,
                    payroll_root@,
                    total_amount@,
                ),
    {
        let timestamp = block_time();
        let outcome = self.resolve_payroll_with(
            timestamp,
            marker,
            run_id,
            payroll_root,
            total_amount,
            call_result,
        );
        assert(resolve_outcome_is(
            resolve_plan(marker, verdict_of(call_result)),
            outcome,
            timestamp,
            run_id@,
            payroll_root@,
            total_amount@,
        ));
        outcome
    }
}

} // verus!
