//! What the operations make of the store's ledger: that one call steps it as
//! the model says, and what then holds over every sequence of requests.

use crate::error::LedgerError;
use crate::ledger::{
    commit_outcome_is, recording_is, resolve_outcome_is, root_text, CommitOutcome, Confirmation,
    Contract, RunRecord,
};
use crate::model::{lemma_record_keeps_wf, LedgerState, Request};
use crate::rules::{entry_text, limit_of, resolve_plan, start_of, CommitPlan};
use near_sdk::AccountId;
use vstd::prelude::*;

verus! {

/// One request keeps the collections in agreement.
pub proof fn law_agreement_is_kept(s: LedgerState, request: Request)
    requires
        s.wf(),
    ensures
        s.after(request).wf(),
{
    match request {
        Request::Commit { caller, run_id, payroll_root, with_proof, with_signals } => {
            if s.after(request) != s {
                lemma_record_keeps_wf(s, run_id, payroll_root);
            }
        },
        Request::Resolve { run_id, payroll_root, verdict } => {
            if s.after(request) != s {
                lemma_record_keeps_wf(s, run_id, payroll_root);
            }
        },
        _ => {},
    }
}

/// Every sequence of requests keeps the collections in agreement: at all
/// times a run has a root exactly when it has a marker, and the history lists
/// exactly the marked runs.
pub proof fn law_agreement_is_invariant(s: LedgerState, requests: Seq<Request>)
    requires
        s.wf(),
    ensures
        s.after_all(requests).wf(),
    decreases requests.len(),
{
    if requests.len() > 0 {
        law_agreement_is_invariant(s, requests.drop_last());
        law_agreement_is_kept(s.after_all(requests.drop_last()), requests.last());
    }
}

/// A request marks a run only by recording it: the run was unmarked and
/// without a root before, the request was an accepted commit or an accepted
/// verdict for that run, and afterwards the run stands once, at the end of
/// the history, with the root of that request.
pub proof fn law_run_is_marked_by_recording(s: LedgerState, request: Request, run_id: Seq<char>)
    requires
        s.wf(),
        !s.is_processed(run_id),
        s.after(request).is_processed(run_id),
    ensures
        s.run_root(run_id).is_none(),
        match request {
            Request::Commit { caller, run_id: id, payroll_root, with_proof, with_signals } => {
                &&& id == run_id
                &&& s.commit_reply(caller, id, with_proof, with_signals) == Ok::<
                    CommitPlan,
                    LedgerError,
                >(CommitPlan::Record)
                &&& s.after(request) == s.record(run_id, payroll_root)
            },
            Request::Resolve { run_id: id, payroll_root, verdict } => {
                &&& id == run_id
                &&& verdict == Some(true)
                &&& s.after(request) == s.record(run_id, payroll_root)
            },
            _ => false,
        },
        s.after(request).history == s.history.push(run_id),
{
    assert(s.roots.dom().contains(run_id) == s.processed.dom().contains(run_id));
}

/// A run that is marked stays marked, and keeps its root, whatever requests
/// follow.
pub proof fn law_commitment_is_permanent(s: LedgerState, requests: Seq<Request>, run_id: Seq<char>)
    requires
        s.wf(),
        s.is_processed(run_id),
    ensures
        s.after_all(requests).is_processed(run_id),
        s.run_root(run_id).is_some(),
        s.after_all(requests).run_root(run_id) == s.run_root(run_id),
    decreases requests.len(),
{
    assert(s.roots.dom().contains(run_id) == s.processed.dom().contains(run_id));
    if requests.len() > 0 {
        let before = s.after_all(requests.drop_last());
        law_commitment_is_permanent(s, requests.drop_last(), run_id);
        law_agreement_is_invariant(s, requests.drop_last());
        assert(before.after(requests.last()).is_processed(run_id));
        assert(before.after(requests.last()).run_root(run_id) == before.run_root(run_id));
    }
}

/// Whatever requests were made, no run stands twice in the history: at most
/// one commit of a run is ever recorded. And a run stands in the history
/// exactly when it is marked.
pub proof fn law_run_is_recorded_once(s: LedgerState, requests: Seq<Request>, run_id: Seq<char>)
    requires
        s.wf(),
    ensures
        forall|i: int, j: int|
            #![trigger s.after_all(requests).history[i], s.after_all(requests).history[j]]
            0 <= i < s.after_all(requests).history.len() && 0 <= j < s.after_all(
                requests,
            ).history.len() && s.after_all(requests).history[i] == run_id && s.after_all(
                requests,
            ).history[j] == run_id ==> i == j,
        s.after_all(requests).history.contains(run_id) == s.after_all(requests).is_processed(
            run_id,
        ),
{
    law_agreement_is_invariant(s, requests);
    let t = s.after_all(requests);
    assert(t.history.to_set().contains(run_id) == t.processed.dom().contains(run_id));
}

/// A run that is not marked has no root.
pub proof fn law_no_root_before_commit(s: LedgerState, run_id: Seq<char>)
    requires
        s.wf(),
        !s.is_processed(run_id),
    ensures
        s.run_root(run_id).is_none(),
{
    assert(s.roots.dom().contains(run_id) == s.processed.dom().contains(run_id));
}

/// A commit by anyone but the orchestrator is refused as unauthorized and
/// leaves the ledger as it was.
pub proof fn law_stranger_cannot_commit(
    s: LedgerState,
    caller: AccountId,
    run_id: Seq<char>,
    payroll_root: Seq<char>,
    with_proof: bool,
    with_signals: bool,
)
    requires
        caller != s.orchestrator,
    ensures
        s.commit_reply(caller, run_id, with_proof, with_signals) == Err::<CommitPlan, LedgerError>(
            LedgerError::Unauthorized,
        ),
        s.after_commit(caller, run_id, payroll_root, with_proof, with_signals) == s,
{
}

/// An accepted commit that need not wait for the verifier, and an accepted
/// verdict, both leave the run marked, with the root that was committed.
pub proof fn law_accepted_commit_marks_run(s: LedgerState, request: Request)
    requires
        s.wf(),
    ensures
        match request {
            Request::Commit { caller, run_id, payroll_root, with_proof, with_signals } => {
                s.commit_reply(caller, run_id, with_proof, with_signals) == Ok::<
                    CommitPlan,
                    LedgerError,
                >(CommitPlan::Record) ==> s.after(request).is_processed(run_id) && s.after(
                    request,
                ).run_root(run_id) == Some(payroll_root)
            },
            Request::Resolve { run_id, payroll_root, verdict } => {
                s.resolve_reply(run_id, verdict).is_ok() ==> s.after(request).is_processed(run_id)
                    && s.after(request).run_root(run_id) == Some(payroll_root)
            },
            _ => true,
        },
{
}

/// Once a run is marked, by whichever path, a further commit of it by the
/// orchestrator is refused as a duplicate, a further verdict for it likewise
/// where it is `true`, and neither changes the ledger.
pub proof fn law_second_commit_is_refused(
    s: LedgerState,
    run_id: Seq<char>,
    payroll_root: Seq<char>,
    with_proof: bool,
    with_signals: bool,
)
    requires
        s.is_processed(run_id),
    ensures
        forall|with_proof: bool, with_signals: bool| #[trigger]
            s.commit_reply(s.orchestrator, run_id, with_proof, with_signals) == Err::<
                CommitPlan,
                LedgerError,
            >(LedgerError::DuplicateRun),
        forall|caller: AccountId| #[trigger]
            s.after_commit(caller, run_id, payroll_root, with_proof, with_signals) == s,
        s.resolve_reply(run_id, Some(true)) == Err::<(), LedgerError>(LedgerError::DuplicateRun),
        forall|verdict: Option<bool>| #[trigger] s.after_resolve(run_id, payroll_root, verdict) == s,
{
}

/// Where the call to the verifier did not complete, or its answer was
/// `false`, the pending commit is refused with the error of that case and
/// the ledger stays as it was: no root, no marker, no place in the history.
pub proof fn law_failed_verification_changes_nothing(
    s: LedgerState,
    run_id: Seq<char>,
    payroll_root: Seq<char>,
    verdict: Option<bool>,
)
    requires
        verdict != Some(true),
    ensures
        s.after_resolve(run_id, payroll_root, verdict) == s,
        verdict.is_none() ==> s.resolve_reply(run_id, verdict) == Err::<(), LedgerError>(
            LedgerError::VerifierCallFailed,
        ),
        verdict == Some(false) ==> s.resolve_reply(run_id, verdict) == Err::<(), LedgerError>(
            LedgerError::ProofRejected,
        ),
{
}

/// A listing follows the history: its entries are the runs from the place
/// `from` on, in the order in which they were committed, each with its root.
pub proof fn law_listing_follows_history(
    s: LedgerState,
    from: Option<u64>,
    limit: Option<u64>,
    i: int,
)
    requires
        s.wf(),
        0 <= i < s.listed(from, limit).len(),
    ensures
        s.listed(from, limit).len() <= limit_of(limit),
        start_of(from) + i < s.history.len(),
        s.listed(from, limit)[i].0 == s.history[start_of(from) + i],
        s.run_root(s.history[start_of(from) + i]) == Some(s.listed(from, limit)[i].1),
{
    let id = s.history[start_of(from) + i];
    assert(s.history.to_set().contains(id));
    assert(s.roots.dom().contains(id) == s.processed.dom().contains(id));
}

/// Requests never reorder or shorten the history: what it held before stays
/// at the same places.
pub proof fn law_history_only_grows(s: LedgerState, requests: Seq<Request>)
    ensures
        s.history.len() <= s.after_all(requests).history.len(),
        s.after_all(requests).history.subrange(0, s.history.len() as int) == s.history,
    decreases requests.len(),
{
    if requests.len() > 0 {
        law_history_only_grows(s, requests.drop_last());
        let before = s.after_all(requests.drop_last());
        let t = before.after(requests.last());
        assert(t.history == before.history || exists|id: Seq<char>|
            t.history == before.history.push(id));
        assert(t.history.subrange(0, s.history.len() as int) =~= before.history.subrange(
            0,
            s.history.len() as int,
        ));
    } else {
        assert(s.history.subrange(0, s.history.len() as int) =~= s.history);
    }
}

/// The ledger after the store took what a call to commit returned: the
/// record of a confirmation, and nothing else.
pub open spec fn after_commit_outcome(
    s: LedgerState,
    outcome: Result<CommitOutcome, LedgerError>,
) -> LedgerState {
    match outcome {
        Ok(CommitOutcome::Committed(done)) => s.written(done.record@),
        _ => s,
    }
}

/// The ledger after the store took what the continuation of a commit
/// returned: the record of a confirmation, and nothing else.
pub open spec fn after_resolve_outcome(
    s: LedgerState,
    outcome: Result<Confirmation, LedgerError>,
) -> LedgerState {
    match outcome {
        Ok(done) => s.written(done.record@),
        Err(_) => s,
    }
}

/// A commit steps the ledger as the model says. Where the contract has the
/// ledger's orchestrator and verifier and is handed the marker that the
/// ledger has for the run, whatever `commit_payroll_with` may return is the
/// ledger's reply, and the store that takes the returned record holds the
/// ledger after the commit.
pub proof fn law_commit_steps_the_ledger(
    s: LedgerState,
    contract: Contract,
    caller: AccountId,
    timestamp: u64,
    run_id: String,
    payroll_root: String,
    total_amount: String,
    proof: Option<String>,
    public_signals: Option<Vec<String>>,
    outcome: Result<CommitOutcome, LedgerError>,
)
    requires
        contract.current_orchestrator() == s.orchestrator,
        contract.current_verifier() == s.verifier,
        commit_outcome_is(
            contract.plan_for(caller, s.marker(run_id@), proof.is_some(), public_signals.is_some()),
            outcome,
            contract.current_verifier(),
            timestamp,
            run_id,
            payroll_root,
            total_amount,
            proof,
            public_signals,
        ),
    ensures
        after_commit_outcome(s, outcome) == s.after_commit(
            caller,
            run_id@,
            payroll_root@,
            proof.is_some(),
            public_signals.is_some(),
        ),
        match outcome {
            Err(e) => s.commit_reply(caller, run_id@, proof.is_some(), public_signals.is_some())
                == Err::<CommitPlan, LedgerError>(e),
            Ok(CommitOutcome::VerificationRequested(_)) => s.commit_reply(
                caller,
                run_id@,
                proof.is_some(),
                public_signals.is_some(),
            ) == Ok::<CommitPlan, LedgerError>(CommitPlan::AskVerifier),
            Ok(CommitOutcome::Committed(_)) => s.commit_reply(
                caller,
                run_id@,
                proof.is_some(),
                public_signals.is_some(),
            ) == Ok::<CommitPlan, LedgerError>(CommitPlan::Record),
        },
{
}

/// The continuation of a commit steps the ledger as the model says. Where
/// it is handed the marker that the ledger has for the run, whatever
/// `resolve_payroll_with` may return is the ledger's reply, and the store
/// that takes the returned record holds the ledger after the verdict.
pub proof fn law_verdict_steps_the_ledger(
    s: LedgerState,
    timestamp: u64,
    run_id: Seq<char>,
    payroll_root: Seq<char>,
    total_amount: Seq<char>,
    verdict: Option<bool>,
    outcome: Result<Confirmation, LedgerError>,
)
    requires
        resolve_outcome_is(
            resolve_plan(s.marker(run_id), verdict),
            outcome,
            timestamp,
            run_id,
            payroll_root,
            total_amount,
        ),
    ensures
        after_resolve_outcome(s, outcome) == s.after_resolve(run_id, payroll_root, verdict),
        match outcome {
            Err(e) => s.resolve_reply(run_id, verdict) == Err::<(), LedgerError>(e),
            Ok(_) => s.resolve_reply(run_id, verdict).is_ok(),
        },
{
}

/// A listing shows the ledger's runs. Where `list_runs` is handed what the
/// ledger holds at the places of a listing, the entries that it returns are
/// the ledger's listing.
pub proof fn law_list_runs_shows_the_ledger(
    s: LedgerState,
    from: Option<u64>,
    limit: Option<u64>,
    items: Seq<(String, Option<String>)>,
    entries: Seq<(String, String, u64)>,
)
    requires
        items.len() == s.page(from, limit).len(),
        forall|i: int|
            0 <= i < items.len() ==> (#[trigger] items[i]).0@ == s.page(from, limit)[i].0
                && root_text(items[i].1) == s.page(from, limit)[i].1,
        entries.len() == items.len(),
        forall|i: int|
            0 <= i < entries.len() ==> ((#[trigger] entries[i]).0@, entries[i].1@) == entry_text(
                items[i].0@,
                root_text(items[i].1),
            ),
    ensures
        entries.len() == s.listed(from, limit).len(),
        forall|i: int|
            0 <= i < entries.len() ==> ((#[trigger] entries[i]).0@, entries[i].1@) == s.listed(
                from,
                limit,
            )[i],
{
    assert forall|i: int| 0 <= i < entries.len() implies ((#[trigger] entries[i]).0@, entries[i].1@)
        == s.listed(from, limit)[i] by {
        assert(items[i].0@ == s.page(from, limit)[i].0);
    }
}

/// The ledger of a contract that has just been made holds nothing: its
/// collections agree, no run is processed or has a root, and every listing
/// is empty.
pub proof fn law_new_ledger_holds_nothing(
    orchestrator: AccountId,
    run_id: Seq<char>,
    from: Option<u64>,
    limit: Option<u64>,
)
    ensures
        LedgerState::initial(orchestrator).orchestrator == orchestrator,
        LedgerState::initial(orchestrator).verifier.is_none(),
        LedgerState::initial(orchestrator).wf(),
        !LedgerState::initial(orchestrator).is_processed(run_id),
        LedgerState::initial(orchestrator).marker(run_id).is_none(),
        LedgerState::initial(orchestrator).run_root(run_id).is_none(),
        LedgerState::initial(orchestrator).listed(from, limit).len() == 0,
{
    let s = LedgerState::initial(orchestrator);
    assert(s.roots.dom() =~= s.processed.dom());
    assert(s.history.to_set() =~= s.processed.dom());
}

/// Recording keeps each run once. Where the collections agree and
/// `internal_commit` is handed the marker that the ledger has for the run,
/// it refuses exactly a run that is processed; else the store that takes the
/// returned record has the run processed, with its root, at the end of a
/// history that is one longer, every other run as before, and its
/// collections still in agreement.
pub proof fn law_recording_keeps_each_run_once(
    s: LedgerState,
    written: Result<(RunRecord, String), LedgerError>,
    timestamp: u64,
    run_id: Seq<char>,
    payroll_root: Seq<char>,
    total_amount: Seq<char>,
)
    requires
        s.wf(),
        recording_is(s.marker(run_id), written, timestamp, run_id, payroll_root, total_amount),
    ensures
        match written {
            Err(_) => s.is_processed(run_id),
            Ok(pair) => {
                &&& !s.is_processed(run_id)
                &&& s.run_root(run_id).is_none()
                &&& s.written(pair.0@).wf()
                &&& s.written(pair.0@).is_processed(run_id)
                &&& s.written(pair.0@).run_root(run_id) == Some(payroll_root)
                &&& s.written(pair.0@).history == s.history.push(run_id)
                &&& forall|other: Seq<char>|
                    other != run_id ==> s.written(pair.0@).is_processed(other) == s.is_processed(
                        other,
                    ) && s.written(pair.0@).run_root(other) == s.run_root(other)
            },
        },
{
    assert(s.roots.dom().contains(run_id) == s.processed.dom().contains(run_id));
    if written.is_ok() {
        lemma_record_keeps_wf(s, run_id, payroll_root);
    }
}

/// A run that is recorded is listed last, and the runs before it are listed
/// as before.
pub proof fn law_recorded_run_is_listed_last(
    s: LedgerState,
    run_id: Seq<char>,
    payroll_root: Seq<char>,
    from: Option<u64>,
    limit: Option<u64>,
    i: int,
)
    requires
        s.wf(),
        s.marker(run_id).is_none(),
        s.history.len() < u64::MAX,
    ensures
        s.record(run_id, payroll_root).listed(Some(s.history.len() as u64), Some(1u64)) == seq![
            (run_id, payroll_root),
        ],
        0 <= i < s.listed(from, limit).len() ==> i < s.record(run_id, payroll_root).listed(
            from,
            limit,
        ).len() && s.record(run_id, payroll_root).listed(from, limit)[i] == s.listed(from, limit)[i],
{
    let t = s.record(run_id, payroll_root);
    let n = s.history.len() as u64;
    assert(t.listed(Some(n), Some(1u64)) =~= seq![(run_id, payroll_root)]);
    if 0 <= i < s.listed(from, limit).len() {
        let id = s.history[start_of(from) + i];
        assert(s.history.to_set().contains(id));
        assert(s.processed.dom().contains(id));
        assert(id != run_id);
        assert(t.history[start_of(from) + i] == id);
    }
}

} // verus!
