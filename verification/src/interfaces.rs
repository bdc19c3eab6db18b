//! The two remote interfaces of the commit protocol.

use vstd::prelude::*;

verus! {

/// What the ledger asks of the contract that checks proofs.
pub trait Verifier {
    /// Whether `proof` holds of `public_signals`.
    fn verify_proof(&mut self, proof: String, public_signals: Vec<String>) -> bool;
}

/// The continuation that the ledger schedules on itself behind a call to the
/// verifier. The verifier's answer reaches it from the host, beside these
/// arguments.
pub trait SelfContract {
    /// Resolves the pending commit of `run_id`.
    fn resolve_payroll(&mut self, run_id: String, payroll_root: String, total_amount: String) -> bool;
}

} // verus!
