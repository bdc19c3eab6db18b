use near_sdk::serde_json;
use near_sdk::serde_json::{Number, Value};
use payroll_ledger::error::LedgerError;
use payroll_ledger::event::{assemble_line, decimal_text, payroll_committed_line};
use payroll_ledger::rules::{
    list_entry, marker_is_set, page_of, plan_commit, plan_resolve, wants_marker, CommitPlan,
};
use near_sdk::PromiseError;

fn expected_line(run_id: &str, root: &str, total: &str, timestamp: u64) -> String {
    let mut entry = serde_json::Map::new();
    entry.insert("run_id".to_string(), Value::String(run_id.to_string()));
    entry.insert("payroll_root".to_string(), Value::String(root.to_string()));
    entry.insert("total_amount".to_string(), Value::String(total.to_string()));
    entry.insert("timestamp".to_string(), Value::Number(Number::from(timestamp)));
    let mut event = serde_json::Map::new();
    event.insert("standard".to_string(), Value::String("nep297".to_string()));
    event.insert("version".to_string(), Value::String("1.0.0".to_string()));
    event.insert("event".to_string(), Value::String("payroll_committed".to_string()));
    event.insert("data".to_string(), Value::Array(vec![Value::Object(entry)]));
    format!("EVENT_JSON:{}", Value::Object(event))
}

#[test]
fn event_line_of_a_plain_commitment() {
    assert_eq!(
        payroll_committed_line("run1", "0xRoot", "1000", 42),
        "EVENT_JSON:{\"standard\":\"nep297\",\"version\":\"1.0.0\",\"event\":\"payroll_committed\",\"data\":[{\"run_id\":\"run1\",\"payroll_root\":\"0xRoot\",\"total_amount\":\"1000\",\"timestamp\":42}]}"
    );
}

#[test]
fn event_line_is_the_json_of_its_fields() {
    let cases = [
        ("run1", "0xRoot", "1000", 0u64),
        ("", "", "", 1),
        ("run \"quoted\"", "back\\slash", "line\nbreak", 1_700_000_000_000_000_000),
        ("tab\there", "\u{1}control", "unicode \u{e9}\u{4e16}", u64::MAX),
    ];
    for (run_id, root, total, timestamp) in cases {
        let line = payroll_committed_line(run_id, root, total, timestamp);
        assert_eq!(line, expected_line(run_id, root, total, timestamp));
        let parsed: Value = near_sdk::serde_json::from_str(&line["EVENT_JSON:".len()..]).unwrap();
        assert_eq!(parsed["data"][0]["run_id"], Value::String(run_id.to_string()));
        assert_eq!(parsed["data"][0]["payroll_root"], Value::String(root.to_string()));
        assert_eq!(parsed["data"][0]["total_amount"], Value::String(total.to_string()));
        assert_eq!(parsed["data"][0]["timestamp"], Value::Number(Number::from(timestamp)));
        assert_eq!(parsed["data"].as_array().unwrap().len(), 1);
    }
}

#[test]
fn event_line_escapes_what_json_reserves() {
    let line = payroll_committed_line("a\"b", "c\\d", "e\nf", 5);
    assert!(line.contains("\"run_id\":\"a\\\"b\""));
    assert!(line.contains("\"payroll_root\":\"c\\\\d\""));
    assert!(line.contains("\"total_amount\":\"e\\nf\""));
}

#[test]
fn decimal_text_of_numbers() {
    assert_eq!(decimal_text(0), "0");
    assert_eq!(decimal_text(7), "7");
    assert_eq!(decimal_text(9), "9");
    assert_eq!(decimal_text(10), "10");
    assert_eq!(decimal_text(99), "99");
    assert_eq!(decimal_text(100), "100");
    assert_eq!(decimal_text(1234567890), "1234567890");
    assert_eq!(decimal_text(u64::MAX), "18446744073709551615");
    for n in [1u64, 12, 305, 4096, 65_535, 1_000_000_007, u64::MAX - 1] {
        assert_eq!(decimal_text(n), n.to_string());
    }
}

#[test]
fn error_messages() {
    assert_eq!(LedgerError::Unauthorized.message(), "Unauthorized: Only orchestrator");
    assert_eq!(LedgerError::DuplicateRun.message(), "Run ID already processed");
    assert_eq!(LedgerError::ProofRejected.message(), "Proof verification returned false");
    assert_eq!(LedgerError::VerifierCallFailed.message(), "Verifier contract call failed");
    assert_ne!(LedgerError::Unauthorized, LedgerError::DuplicateRun);
}

#[test]
fn commit_is_planned_by_caller_marker_and_proof() {
    for marker in [None, Some(true), Some(false)] {
        for flags in 0..8 {
            let (verifier, proof, signals) = (flags & 1 != 0, flags & 2 != 0, flags & 4 != 0);
            assert_eq!(plan_commit(false, marker, verifier, proof, signals), Err(LedgerError::Unauthorized));
            let planned = plan_commit(true, marker, verifier, proof, signals);
            if marker.is_some() {
                assert_eq!(planned, Err(LedgerError::DuplicateRun));
            } else if verifier && proof && signals {
                assert_eq!(planned, Ok(CommitPlan::AskVerifier));
            } else {
                assert_eq!(planned, Ok(CommitPlan::Record));
            }
        }
    }
}

#[test]
fn verdict_is_planned_by_answer_and_marker() {
    for marker in [None, Some(true), Some(false)] {
        assert_eq!(plan_resolve(marker, &Err(PromiseError::Failed)), Err(LedgerError::VerifierCallFailed));
        assert_eq!(plan_resolve(marker, &Err(PromiseError::TooLong(9))), Err(LedgerError::VerifierCallFailed));
        assert_eq!(plan_resolve(marker, &Ok(false)), Err(LedgerError::ProofRejected));
    }
    assert_eq!(plan_resolve(None, &Ok(true)), Ok(()));
    assert_eq!(plan_resolve(Some(true), &Ok(true)), Err(LedgerError::DuplicateRun));
    assert_eq!(plan_resolve(Some(false), &Ok(true)), Err(LedgerError::DuplicateRun));
}

#[test]
fn marker_counts_only_where_it_is_set() {
    assert!(marker_is_set(Some(true)));
    assert!(!marker_is_set(Some(false)));
    assert!(!marker_is_set(None));
}

#[test]
fn page_of_a_history() {
    assert_eq!(page_of(3, Some(1), Some(1)), (1, 1));
    assert_eq!(page_of(3, None, None), (0, 3));
    assert_eq!(page_of(12, None, None), (0, 10));
    assert_eq!(page_of(12, Some(10), None), (10, 2));
    assert_eq!(page_of(12, Some(12), None), (12, 0));
    assert_eq!(page_of(12, Some(13), Some(5)), (13, 0));
    assert_eq!(page_of(12, Some(4), Some(0)), (4, 0));
    assert_eq!(page_of(0, None, None), (0, 0));
    assert_eq!(page_of(u64::MAX, Some(u64::MAX - 1), Some(u64::MAX)), (u64::MAX - 1, 1));
    assert_eq!(page_of(u64::MAX, Some(5), Some(u64::MAX)), (5, u64::MAX - 5));
    assert_eq!(page_of(7, Some(u64::MAX), Some(u64::MAX)), (u64::MAX, 0));
}

#[test]
fn list_entry_of_a_run() {
    assert_eq!(
        list_entry("run".to_string(), Some("root".to_string())),
        ("run".to_string(), "root".to_string(), 0)
    );
    assert_eq!(list_entry("run".to_string(), None), ("run".to_string(), String::new(), 0));
}

#[test]
fn line_is_assembled_from_quoted_texts() {
    assert_eq!(
        assemble_line("A", "B", "C", 0),
        "EVENT_JSON:{\"standard\":\"nep297\",\"version\":\"1.0.0\",\"event\":\"payroll_committed\",\"data\":[{\"run_id\":A,\"payroll_root\":B,\"total_amount\":C,\"timestamp\":0}]}"
    );
    assert_eq!(
        assemble_line("\"r\"", "\"\"", "\"9\"", 18446744073709551615),
        "EVENT_JSON:{\"standard\":\"nep297\",\"version\":\"1.0.0\",\"event\":\"payroll_committed\",\"data\":[{\"run_id\":\"r\",\"payroll_root\":\"\",\"total_amount\":\"9\",\"timestamp\":18446744073709551615}]}"
    );
}

#[test]
fn marker_is_wanted_only_for_a_true_answer() {
    assert!(wants_marker(&Ok(true)));
    assert!(!wants_marker(&Ok(false)));
    assert!(!wants_marker(&Err(PromiseError::Failed)));
}
