use crate::errors::ErrorCode;
use crate::state::{contains_identity, lemma_distinct_members_bounded, Multisig, Transaction};
use vstd::prelude::*;

verus! {

/// The observable signal of quorum progress, produced on each successful
/// approval: the registry's identity, the new approver count and the
/// proposal's sequence number. The host logs it; authorization itself is
/// always re-derived from stored state.
#[derive(Clone, Copy, Debug, PartialEq, Eq, Structural)]
pub struct TransactionApproved {
    /// The registry the approved proposal belongs to.
    pub multisig: u64,
    /// How many identities approve the proposal after this call.
    pub signers: u8,
    /// The approved proposal's sequence number.
    pub nonce: u16,
}

/// The validation outcome of an approval: the error it is rejected with, or
/// `None` when it succeeds. Checked in this order: caller membership,
/// executed state, duplicate approval.
pub open spec fn approve_txn_error(ms: Multisig, tx: Transaction, approver: u64) -> Option<
    ErrorCode,
> {
    if !ms.owners@.contains(approver) {
        Some(ErrorCode::Unauthorized)
    } else if tx.executed {
        Some(ErrorCode::TransactionExecuted)
    } else if tx.signers@.contains(approver) {
        Some(ErrorCode::AlreadySigned)
    } else {
        None
    }
}

/// Records `approver`'s approval of `transaction`, a proposal of the
/// registry `multisig` (whose record identity is `multisig_key`).
///
/// Succeeds exactly when the approver is an owner, the proposal is not yet
/// executed and the approver has not already approved; the approver is then
/// appended to the approver set and the returned event reports the new
/// count. On failure the proposal is unchanged. The approver-set invariant
/// (distinct approvers, all of them owners) is preserved either way.
pub fn approve_txn_handler(
    multisig: &Multisig,
    multisig_key: u64,
    transaction: &mut Transaction,
    approver: u64,
) -> (r: Result<TransactionApproved, ErrorCode>)
    requires
        multisig.well_formed(),
        old(transaction).approvers_ok(*multisig),
        old(transaction).multisig == multisig_key,
    ensures
        r is Ok <==> approve_txn_error(*multisig, *old(transaction), approver) is None,
        r is Err ==> Some(r->Err_0) == approve_txn_error(
            *multisig,
            *old(transaction),
            approver,
        ),
        r is Err ==> *final(transaction) == *old(transaction),
        final(transaction).approvers_ok(*multisig),
        final(transaction).multisig == old(transaction).multisig,
        final(transaction).proposer == old(transaction).proposer,
        final(transaction).instructions@ == old(transaction).instructions@,
        final(transaction).executed == old(transaction).executed,
        final(transaction).nonce == old(transaction).nonce,
        final(transaction).bump == old(transaction).bump,
        r is Ok ==> final(transaction).signers@ == old(transaction).signers@.push(approver),
        r is Ok ==> r->Ok_0 == (TransactionApproved {
            multisig: multisig_key,
            signers: final(transaction).signers@.len() as u8,
            nonce: old(transaction).nonce,
        }),
{
    if !contains_identity(&multisig.owners, approver) {
        return Err(ErrorCode::Unauthorized);
    }
    if transaction.executed {
        return Err(ErrorCode::TransactionExecuted);
    }
    if contains_identity(&transaction.signers, approver) {
        return Err(ErrorCode::AlreadySigned);
    }
    transaction.signers.push(approver);
    proof {
        assert forall|i: int|
            0 <= i < transaction.signers@.len() implies multisig.owners@.contains(
            transaction.signers@[i],
        ) by {
            if i < transaction.signers@.len() - 1 {
                assert(transaction.signers@[i] == old(transaction).signers@[i]);
            }
        }
        lemma_distinct_members_bounded(transaction.signers@, multisig.owners@);
    }
    let count = transaction.signers.len() as u8;
    Ok(
        TransactionApproved {
            multisig: multisig_key,
            signers: count,
            nonce: transaction.nonce,
        },
    )
}

} // verus!
