//! What the ledger takes from the host that runs the contract: account
//! identities, the caller of the running call, and the block's time.

use near_sdk::{AccountId, PromiseError};
use vstd::prelude::*;

verus! {

#[verifier::external_type_specification]
#[verifier::external_body]
pub struct ExAccountId(AccountId);

#[verifier::external_type_specification]
#[verifier::external_body]
pub struct ExPromiseError(PromiseError);

/// `AccountId`'s `==`: two identities compare equal exactly when they are the
/// same identity.
#[verifier::external_body]
pub(crate) fn same_account(a: &AccountId, b: &AccountId) -> (r: bool)
    ensures
        r == (*a == *b),
{
    a == b
}

/// `AccountId`'s `clone`: the copy is the same identity.
#[verifier::external_body]
pub(crate) fn copy_account(a: &AccountId) -> (r: AccountId)
    ensures
        r == *a,
{
    a.clone()
}

/// `near_sdk::env::predecessor_account_id`: the account that made the running
/// call. Nothing is known of it beforehand.
#[verifier::external_body]
pub(crate) fn calling_account() -> AccountId {
    near_sdk::env::predecessor_account_id()
}

/// `near_sdk::env::block_timestamp`: the time of the current block, in
/// nanoseconds. Nothing is known of it beforehand.
#[verifier::external_body]
pub(crate) fn block_time() -> u64 {
    near_sdk::env::block_timestamp()
}

} // verus!
