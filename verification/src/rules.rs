//! The decisions of the ledger, on what a call brings and on what was read
//! from the store.

use crate::error::LedgerError;
use near_sdk::PromiseError;
use vstd::prelude::*;

verus! {

/// What is to be done with a commit that is not refused.
#[derive(Clone, Copy, Debug, PartialEq, Eq, Structural)]
pub enum CommitPlan {
    /// Record the run at once.
    Record,
    /// Record nothing yet and ask the verifier.
    AskVerifier,
}

/// What came back from the verifier: `None` where the call did not complete,
/// else its answer.
pub open spec fn verdict_of(call_result: Result<bool, PromiseError>) -> Option<bool> {
    match call_result {
        Ok(answer) => Some(answer),
        Err(_) => None,
    }
}

/// Whether a run counts as processed, by the marker that the store has for
/// it: a run without a marker does not.
pub open spec fn is_marked(marker: Option<bool>) -> bool {
    marker == Some(true)
}

/// Tells from the marker read for a run whether the run is processed.
pub fn marker_is_set(marker: Option<bool>) -> (processed: bool)
    ensures
        processed == is_marked(marker),
{
    match marker {
        Some(flag) => flag,
        None => false,
    }
}

/// What becomes of a commit. A caller who is not the orchestrator is
/// refused before anything else; then a run that has a marker is refused;
/// then the commit waits for the verifier where one is configured and the
/// call brings both a proof and public signals; else the run is recorded.
pub open spec fn commit_plan(
    authorized: bool,
    marker: Option<bool>,
    has_verifier: bool,
    with_proof: bool,
    with_signals: bool,
) -> Result<CommitPlan, LedgerError> {
    if !authorized {
        Err(LedgerError::Unauthorized)
    } else if marker.is_some() {
        Err(LedgerError::DuplicateRun)
    } else if has_verifier && with_proof && with_signals {
        Ok(CommitPlan::AskVerifier)
    } else {
        Ok(CommitPlan::Record)
    }
}

/// Decides what becomes of a commit.
pub fn plan_commit(
    authorized: bool,
    marker: Option<bool>,
    has_verifier: bool,
    with_proof: bool,
    with_signals: bool,
) -> (plan: Result<CommitPlan, LedgerError>)
    ensures
        plan == commit_plan(authorized, marker, has_verifier, with_proof, with_signals),
{
    if !authorized {
        Err(LedgerError::Unauthorized)
    } else if marker.is_some() {
        Err(LedgerError::DuplicateRun)
    } else if has_verifier && with_proof && with_signals {
        Ok(CommitPlan::AskVerifier)
    } else {
        Ok(CommitPlan::Record)
    }
}

/// What becomes of a commit that waited, once the verifier's verdict is in:
/// it is recorded only where the call completed, the answer was `true`, and
/// the run has no marker yet.
pub open spec fn resolve_plan(marker: Option<bool>, verdict: Option<bool>) -> Result<
    (),
    LedgerError,
> {
    match verdict {
        None => Err(LedgerError::VerifierCallFailed),
        Some(false) => Err(LedgerError::ProofRejected),
        Some(true) => if marker.is_some() {
            Err(LedgerError::DuplicateRun)
        } else {
            Ok(())
        },
    }
}

/// Decides what becomes of a commit that waited for the verifier.
pub fn plan_resolve(marker: Option<bool>, call_result: &Result<bool, PromiseError>) -> (plan: Result<
    (),
    LedgerError,
>)
    ensures
        plan == resolve_plan(marker, verdict_of(*call_result)),
{
    match call_result {
        Ok(true) => if marker.is_some() {
            Err(LedgerError::DuplicateRun)
        } else {
            Ok(())
        },
        Ok(false) => Err(LedgerError::ProofRejected),
        Err(_) => Err(LedgerError::VerifierCallFailed),
    }
}

/// Whether the continuation of a commit has to know the run's marker: only
/// where the verifier answered `true` is anything recorded.
pub fn wants_marker(call_result: &Result<bool, PromiseError>) -> (wanted: bool)
    ensures
        wanted == (verdict_of(*call_result) == Some(true)),
{
    match call_result {
        Ok(answer) => *answer,
        Err(_) => false,
    }
}

/// What is written to the store for one run, as texts.
pub struct RecordText {
    /// The run, which is the key of its root and of its marker.
    pub run_id: Seq<char>,
    /// The root to keep for the run.
    pub payroll_root: Seq<char>,
    /// The marker to keep for the run.
    pub marker: bool,
    /// The item to put at the end of the history.
    pub history_item: Seq<char>,
}

/// What is written for a run that is recorded with this root: the root and
/// a set marker under the run's id, and the id at the end of the history.
pub open spec fn run_record(run_id: Seq<char>, payroll_root: Seq<char>) -> RecordText {
    RecordText { run_id, payroll_root, marker: true, history_item: run_id }
}

/// The text of the entry that a listing shows for a run with the root read
/// for it: the empty text where none was found.
pub open spec fn entry_text(run_id: Seq<char>, root: Option<Seq<char>>) -> (Seq<char>, Seq<char>) {
    (
        run_id,
        match root {
            Some(text) => text,
            None => Seq::empty(),
        },
    )
}

/// The place at which a listing starts.
pub open spec fn start_of(from: Option<u64>) -> nat {
    match from {
        Some(v) => v as nat,
        None => 0,
    }
}

/// The most entries that a listing holds.
pub open spec fn limit_of(limit: Option<u64>) -> nat {
    match limit {
        Some(v) => v as nat,
        None => 10,
    }
}

/// The place behind the last entry of a listing from a history of `len`
/// runs.
pub open spec fn page_end(len: nat, from: Option<u64>, limit: Option<u64>) -> nat {
    if start_of(from) + limit_of(limit) < len {
        start_of(from) + limit_of(limit)
    } else {
        len
    }
}

/// The number of entries of a listing from a history of `len` runs.
pub open spec fn page_len(len: nat, from: Option<u64>, limit: Option<u64>) -> nat {
    if start_of(from) < page_end(len, from, limit) {
        (page_end(len, from, limit) - start_of(from)) as nat
    } else {
        0
    }
}

/// Computes where a listing starts and how many entries it holds.
pub fn page_of(len: u64, from: Option<u64>, limit: Option<u64>) -> (page: (u64, u64))
    ensures
        page.0 == start_of(from),
        page.1 == page_len(len as nat, from, limit),
        page.1 > 0 ==> page.0 + page.1 <= len,
{
    let start: u64 = match from {
        Some(v) => v,
        None => 0,
    };
    let most: u64 = match limit {
        Some(v) => v,
        None => 10,
    };
    if start >= len {
        (start, 0)
    } else {
        let room: u64 = len - start;
        if most < room {
            (start, most)
        } else {
            (start, room)
        }
    }
}

/// The entry that a listing shows for a run: its id, the root read for it
/// (the empty text where none was found) and zero for its time, which the
/// ledger does not keep.
pub fn list_entry(run_id: String, root: Option<String>) -> (entry: (String, String, u64))
    ensures
        entry.0 == run_id,
        match root {
            Some(text) => entry.1 == text,
            None => entry.1@ == Seq::<char>::empty(),
        },
        entry.2 == 0,
{
    let text = match root {
        Some(text) => text,
        None => String::new(),
    };
    (run_id, text, 0u64)
}

} // verus!
