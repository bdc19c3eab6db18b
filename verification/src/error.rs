//! The ways in which a ledger operation is refused.

use vstd::prelude::*;
use vstd::string::*;

verus! {

/// Why the ledger refused an operation. A refused operation changes nothing.
#[derive(Clone, Copy, Debug, PartialEq, Eq, Structural)]
pub enum LedgerError {
    /// The caller is not the orchestrator.
    Unauthorized,
    /// The run has been committed before.
    DuplicateRun,
    /// The verifier answered that the proof does not hold.
    ProofRejected,
    /// The call to the verifier did not complete.
    VerifierCallFailed,
}

impl LedgerError {
    /// The text of the message for each error.
    pub open spec fn message_text(self) -> Seq<char> {
        match self {
            LedgerError::Unauthorized => "Unauthorized: Only orchestrator"@,
            LedgerError::DuplicateRun => "Run ID already processed"@,
            LedgerError::ProofRejected => "Proof verification returned false"@,
            LedgerError::VerifierCallFailed => "Verifier contract call failed"@,
        }
    }

    /// The message with which the operation is aborted.
    pub fn message(&self) -> (text: String)
        ensures
            text@ == self.message_text(),
    {
        match self {
            LedgerError::Unauthorized => String::from_str("Unauthorized: Only orchestrator"),
            LedgerError::DuplicateRun => String::from_str("Run ID already processed"),
            LedgerError::ProofRejected => String::from_str("Proof verification returned false"),
            LedgerError::VerifierCallFailed => String::from_str("Verifier contract call failed"),
        }
    }
}

} // verus!
