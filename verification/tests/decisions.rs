use near_sdk::{AccountId, PromiseError};
use payroll_ledger::error::LedgerError;
use payroll_ledger::event::payroll_committed_line;
use payroll_ledger::ledger::{CommitOutcome, Contract};

fn owner() -> AccountId {
    "orchestrator.testnet".parse().unwrap()
}

fn stranger() -> AccountId {
    "hacker.testnet".parse().unwrap()
}

fn verifier_account() -> AccountId {
    "verifier.testnet".parse().unwrap()
}

fn text(s: &str) -> String {
    s.to_string()
}

fn commit_as(
    ledger: &Contract,
    caller: &AccountId,
    marker: Option<bool>,
    proof: Option<String>,
    public_signals: Option<Vec<String>>,
) -> Result<CommitOutcome, LedgerError> {
    ledger.commit_payroll_with(caller, 7, marker, text("run"), text("root"), text("100"), proof, public_signals, None)
}

#[test]
fn accepted_commit_returns_the_record_to_write() {
    let ledger = Contract::new(owner());
    match commit_as(&ledger, &owner(), None, None, None) {
        Ok(CommitOutcome::Committed(done)) => {
            assert_eq!(done.message, "Committed (Trusted Mode)");
            assert_eq!(done.event, payroll_committed_line("run", "root", "100", 7));
            assert!(done.event.ends_with("\"timestamp\":7}]}"));
            assert_eq!(done.record.run_id, "run");
            assert_eq!(done.record.payroll_root, "root");
            assert!(done.record.marker);
            assert_eq!(done.record.history_item, "run");
        }
        _ => panic!("the run was not committed"),
    }
}

#[test]
fn stranger_is_refused_whatever_was_read() {
    let mut ledger = Contract::new(owner());
    for marker in [None, Some(true), Some(false)] {
        assert!(matches!(commit_as(&ledger, &stranger(), marker, None, None), Err(LedgerError::Unauthorized)));
        assert!(matches!(
            commit_as(&ledger, &stranger(), marker, Some(text("p")), Some(vec![])),
            Err(LedgerError::Unauthorized)
        ));
    }
    assert!(ledger.set_verifier_as(&owner(), stranger()).is_ok());
    assert!(matches!(
        commit_as(&ledger, &stranger(), None, Some(text("p")), Some(vec![])),
        Err(LedgerError::Unauthorized)
    ));
}

#[test]
fn run_with_a_marker_is_a_duplicate() {
    let mut ledger = Contract::new(owner());
    for marker in [Some(true), Some(false)] {
        assert!(matches!(commit_as(&ledger, &owner(), marker, None, None), Err(LedgerError::DuplicateRun)));
    }
    assert!(ledger.set_verifier_as(&owner(), verifier_account()).is_ok());
    assert!(matches!(
        commit_as(&ledger, &owner(), Some(true), Some(text("p")), Some(vec![])),
        Err(LedgerError::DuplicateRun)
    ));
}

#[test]
fn commit_with_proof_asks_the_verifier() {
    let mut ledger = Contract::new(owner());
    assert!(ledger.set_verifier_as(&owner(), verifier_account()).is_ok());
    match commit_as(&ledger, &owner(), None, Some(text("proof")), Some(vec![text("s1"), text("s2")])) {
        Ok(CommitOutcome::VerificationRequested(request)) => {
            assert_eq!(request.verifier, verifier_account());
            assert_eq!(request.proof, "proof");
            assert_eq!(request.public_signals, vec![text("s1"), text("s2")]);
            assert_eq!(request.run_id, "run");
            assert_eq!(request.payroll_root, "root");
            assert_eq!(request.total_amount, "100");
        }
        _ => panic!("the verifier was not asked"),
    }
    assert!(matches!(commit_as(&ledger, &owner(), None, Some(text("proof")), None), Ok(CommitOutcome::Committed(_))));
    assert!(matches!(commit_as(&ledger, &owner(), None, None, Some(vec![])), Ok(CommitOutcome::Committed(_))));
    assert!(ledger.remove_verifier_as(&owner()).is_ok());
    assert!(matches!(
        commit_as(&ledger, &owner(), None, Some(text("proof")), Some(vec![])),
        Ok(CommitOutcome::Committed(_))
    ));
}

#[test]
fn verdict_decides_the_pending_commit() {
    let ledger = Contract::new(owner());
    match ledger.resolve_payroll_with(99, None, text("v"), text("root-v"), text("2"), Ok(true)) {
        Ok(done) => {
            assert_eq!(done.message, "Committed (Verified)");
            assert_eq!(done.event, payroll_committed_line("v", "root-v", "2", 99));
            assert_eq!(done.record.run_id, "v");
            assert_eq!(done.record.payroll_root, "root-v");
            assert!(done.record.marker);
            assert_eq!(done.record.history_item, "v");
        }
        Err(_) => panic!("the verified run was not committed"),
    }
    for marker in [Some(true), Some(false)] {
        assert!(matches!(
            ledger.resolve_payroll_with(99, marker, text("v"), text("root-v"), text("2"), Ok(true)),
            Err(LedgerError::DuplicateRun)
        ));
    }
    for marker in [None, Some(true)] {
        assert!(matches!(
            ledger.resolve_payroll_with(99, marker, text("v"), text("root-v"), text("2"), Ok(false)),
            Err(LedgerError::ProofRejected)
        ));
        assert!(matches!(
            ledger.resolve_payroll_with(99, marker, text("v"), text("root-v"), text("2"), Err(PromiseError::Failed)),
            Err(LedgerError::VerifierCallFailed)
        ));
    }
}

#[test]
fn internal_commit_records_a_run_once() {
    let ledger = Contract::new(owner());
    match ledger.internal_commit(None, text("w"), text("x"), text("3"), 101) {
        Ok((record, event)) => {
            assert_eq!(record.run_id, "w");
            assert_eq!(record.payroll_root, "x");
            assert!(record.marker);
            assert_eq!(record.history_item, "w");
            assert_eq!(event, payroll_committed_line("w", "x", "3", 101));
        }
        Err(_) => panic!("the run was not recorded"),
    }
    assert!(matches!(
        ledger.internal_commit(Some(true), text("w"), text("x"), text("3"), 101),
        Err(LedgerError::DuplicateRun)
    ));
    assert!(matches!(
        ledger.internal_commit(Some(false), text("w"), text("x"), text("3"), 101),
        Err(LedgerError::DuplicateRun)
    ));
}

#[test]
fn only_the_orchestrator_configures() {
    let mut ledger = Contract::from_parts(owner(), Some(verifier_account()));
    assert_eq!(ledger.get_orchestrator(), owner());
    assert_eq!(ledger.get_verifier(), Some(verifier_account()));
    assert!(matches!(ledger.assert_orchestrator_as(&owner()), Ok(())));
    assert!(matches!(ledger.assert_orchestrator_as(&stranger()), Err(LedgerError::Unauthorized)));

    assert!(matches!(ledger.remove_verifier_as(&stranger()), Err(LedgerError::Unauthorized)));
    assert_eq!(ledger.get_verifier(), Some(verifier_account()));
    assert!(ledger.remove_verifier_as(&owner()).is_ok());
    assert_eq!(ledger.get_verifier(), None);
    assert!(matches!(ledger.set_verifier_as(&stranger(), verifier_account()), Err(LedgerError::Unauthorized)));
    assert_eq!(ledger.get_verifier(), None);
    assert!(ledger.set_verifier_as(&owner(), verifier_account()).is_ok());
    assert_eq!(ledger.get_verifier(), Some(verifier_account()));

    assert!(matches!(ledger.set_orchestrator_as(&stranger(), stranger()), Err(LedgerError::Unauthorized)));
    assert_eq!(ledger.get_orchestrator(), owner());
    assert!(ledger.set_orchestrator_as(&owner(), stranger()).is_ok());
    assert_eq!(ledger.get_orchestrator(), stranger());
    assert_eq!(ledger.get_verifier(), Some(verifier_account()));
    assert!(matches!(ledger.assert_orchestrator_as(&owner()), Err(LedgerError::Unauthorized)));
}

#[test]
fn run_is_processed_by_its_marker() {
    let ledger = Contract::new(owner());
    assert!(ledger.is_run_processed(Some(true)));
    assert!(!ledger.is_run_processed(Some(false)));
    assert!(!ledger.is_run_processed(None));
}

#[test]
fn list_runs_shows_what_was_read() {
    let ledger = Contract::new(owner());
    let items = vec![
        (text("b"), Some(text("root_b"))),
        (text("gone"), None),
        (text(""), Some(text(""))),
    ];
    assert_eq!(
        ledger.list_runs(items),
        vec![(text("b"), text("root_b"), 0), (text("gone"), text(""), 0), (text(""), text(""), 0)]
    );
    assert!(ledger.list_runs(Vec::new()).is_empty());
}
