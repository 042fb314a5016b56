use crate::approve_txn::approve_txn_error;
use crate::create_multisig_account::create_multisig_error;
use crate::errors::ErrorCode;
use crate::execute_txn::execute_txn_error;
use crate::remove_approval::remove_approval_error;
use crate::state::{Multisig, Transaction, MAX_OWNERS};
use vstd::prelude::*;

verus! {

/// Law: registry creation rejects every owner list with a repeated
/// identity — whatever the threshold — with `DuplicateOwners`, provided the
/// list's size is within bounds (an out-of-bounds size is reported as
/// `InvalidNumberOfOwners` first).
pub proof fn lemma_duplicate_owners_rejected(owners: Seq<u64>, threshold: u8)
    requires
        1 <= owners.len() <= MAX_OWNERS,
        !owners.no_duplicates(),
    ensures
        create_multisig_error(owners, threshold) == Some(ErrorCode::DuplicateOwners),
{
}

/// Law: registry creation rejects every threshold outside `1..=owners.len()`
/// with `InvalidThreshold`, for every owner list that passes the size and
/// distinctness checks made before the threshold check.
pub proof fn lemma_invalid_threshold_rejected(owners: Seq<u64>, threshold: u8)
    requires
        1 <= owners.len() <= MAX_OWNERS,
        owners.no_duplicates(),
        threshold == 0 || threshold as int > owners.len(),
    ensures
        create_multisig_error(owners, threshold) == Some(ErrorCode::InvalidThreshold),
{
}

/// Law: approval is rejected, not absorbed, on repetition. If an approval
/// by `approver` succeeds, turning the proposal `tx0` into `tx1`, then a
/// second approval by the same owner on `tx1` is rejected with
/// `AlreadySigned` (and the rejected call leaves the proposal unchanged, by
/// the approval handler's contract).
pub proof fn lemma_second_approval_rejected(
    ms: Multisig,
    tx0: Transaction,
    tx1: Transaction,
    approver: u64,
)
    requires
        approve_txn_error(ms, tx0, approver) is None,
        tx1.signers@ == tx0.signers@.push(approver),
        tx1.executed == tx0.executed,
    ensures
        approve_txn_error(ms, tx1, approver) == Some(ErrorCode::AlreadySigned),
{
    assert(tx1.signers@[tx0.signers@.len() as int] == approver);
    assert(tx1.signers@.contains(approver));
}

/// Law: an executed proposal is terminal. Once `tx.executed` holds, every
/// further approval or withdrawal by an owner, and every further execution
/// attempt under any context, is rejected with `TransactionExecuted`.
pub proof fn lemma_executed_is_terminal(
    ms: Multisig,
    tx: Transaction,
    caller: u64,
    ctx: Seq<u64>,
)
    requires
        tx.executed,
        ms.owners@.contains(caller),
    ensures
        approve_txn_error(ms, tx, caller) == Some(ErrorCode::TransactionExecuted),
        remove_approval_error(ms, tx, caller) == Some(ErrorCode::TransactionExecuted),
        execute_txn_error(ms, tx, ctx) == Some(ErrorCode::TransactionExecuted),
{
}

} // verus!
