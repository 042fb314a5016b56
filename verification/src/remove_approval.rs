use crate::errors::ErrorCode;
use crate::state::{contains_identity, lemma_distinct_members_bounded, Multisig, Transaction};
use vstd::prelude::*;

verus! {

/// The observable signal of a withdrawn approval: the registry's identity,
/// the identity that withdrew, the remaining approver count and the
/// proposal's sequence number.
#[derive(Clone, Copy, Debug, PartialEq, Eq, Structural)]
pub struct ApprovalRemoved {
    /// The registry the proposal belongs to.
    pub multisig: u64,
    /// The identity whose approval was withdrawn.
    pub signer_removed: u64,
    /// How many identities approve the proposal after this call.
    pub signers: u8,
    /// The proposal's sequence number.
    pub nonce: u16,
}

/// The validation outcome of an approval withdrawal: the error it is
/// rejected with, or `None` when it succeeds. Checked in this order: caller
/// membership, executed state, absent approval.
pub open spec fn remove_approval_error(ms: Multisig, tx: Transaction, remover: u64) -> Option<
    ErrorCode,
> {
    if !ms.owners@.contains(remover) {
        Some(ErrorCode::Unauthorized)
    } else if tx.executed {
        Some(ErrorCode::TransactionExecuted)
    } else if !tx.signers@.contains(remover) {
        Some(ErrorCode::NotSigned)
    } else {
        None
    }
}

/// Withdraws `remover`'s approval from `transaction`, a proposal of the
/// registry `multisig` (whose record identity is `multisig_key`). An owner
/// may retract consent at any time before execution.
///
/// Succeeds exactly when the remover is an owner, the proposal is not yet
/// executed and the remover currently approves; the remover's entry is then
/// deleted from the approver set (order of the others preserved) and the
/// returned event reports the new count. On failure the proposal is
/// unchanged. The approver-set invariant is preserved either way.
pub fn remove_approval_handler(
    multisig: &Multisig,
    multisig_key: u64,
    transaction: &mut Transaction,
    remover: u64,
) -> (r: Result<ApprovalRemoved, ErrorCode>)
    requires
        multisig.well_formed(),
        old(transaction).approvers_ok(*multisig),
        old(transaction).multisig == multisig_key,
    ensures
        r is Ok <==> remove_approval_error(*multisig, *old(transaction), remover) is None,
        r is Err ==> Some(r->Err_0) == remove_approval_error(
            *multisig,
            *old(transaction),
            remover,
        ),
        r is Err ==> *final(transaction) == *old(transaction),
        final(transaction).approvers_ok(*multisig),
        final(transaction).multisig == old(transaction).multisig,
        final(transaction).proposer == old(transaction).proposer,
        final(transaction).instructions@ == old(transaction).instructions@,
        final(transaction).executed == old(transaction).executed,
        final(transaction).nonce == old(transaction).nonce,
        final(transaction).bump == old(transaction).bump,
        r is Ok ==> exists|i: int|
            0 <= i < old(transaction).signers@.len() && old(transaction).signers@[i] == remover
                && final(transaction).signers@ == old(transaction).signers@.remove(i),
        r is Ok ==> !final(transaction).signers@.contains(remover),
        r is Ok ==> final(transaction).signers@.len() == old(transaction).signers@.len() - 1,
        r is Ok ==> r->Ok_0 == (ApprovalRemoved {
            multisig: multisig_key,
            signer_removed: remover,
            signers: final(transaction).signers@.len() as u8,
            nonce: old(transaction).nonce,
        }),
{
    if !contains_identity(&multisig.owners, remover) {
        return Err(ErrorCode::Unauthorized);
    }
    if transaction.executed {
        return Err(ErrorCode::TransactionExecuted);
    }
    if !contains_identity(&transaction.signers, remover) {
        return Err(ErrorCode::NotSigned);
    }
    let n: usize = transaction.signers.len();
    let ghost signers0 = transaction.signers@;
    let mut i: usize = 0;
    loop
        invariant
            signers0.len() == n,
            transaction.signers@ == signers0,
            signers0.contains(remover),
            i <= signers0.len(),
            forall|j: int| 0 <= j < i ==> signers0[j] != remover,
        ensures
            i < signers0.len() && signers0[i as int] == remover,
        decreases signers0.len() - i,
    {
        proof {
            assert(i < signers0.len()) by {
                if i == signers0.len() {
                    let w = choose|w: int| 0 <= w < signers0.len() && signers0[w] == remover;
                    assert(signers0[w] == remover);
                }
            }
        }
        if transaction.signers[i] == remover {
            break;
        }
        i += 1;
    }
    proof {
        lemma_distinct_members_bounded(signers0, multisig.owners@);
    }
    transaction.signers.remove(i);
    proof {
        let iw = i as int;
        assert(transaction.signers@ == signers0.remove(iw));
        assert forall|j: int|
            0 <= j < transaction.signers@.len() implies transaction.signers@[j] != remover by {
            if j < iw {
                assert(transaction.signers@[j] == signers0[j]);
                assert(signers0[j] != signers0[iw]);
            } else {
                assert(transaction.signers@[j] == signers0[j + 1]);
                assert(signers0[j + 1] != signers0[iw]);
            }
        }
        assert(!transaction.signers@.contains(remover));
        assert forall|p: int, q: int|
            0 <= p < transaction.signers@.len() && 0 <= q < transaction.signers@.len() && p
                != q implies transaction.signers@[p] != transaction.signers@[q] by {
            let p0: int = if p < iw {
                p
            } else {
                p + 1
            };
            let q0: int = if q < iw {
                q
            } else {
                q + 1
            };
            assert(transaction.signers@[p] == signers0[p0]);
            assert(transaction.signers@[q] == signers0[q0]);
        }
        assert forall|j: int|
            0 <= j < transaction.signers@.len() implies multisig.owners@.contains(
            transaction.signers@[j],
        ) by {
            if j < iw {
                assert(transaction.signers@[j] == signers0[j]);
            } else {
                assert(transaction.signers@[j] == signers0[j + 1]);
            }
        }
    }
    let count = transaction.signers.len() as u8;
    Ok(
        ApprovalRemoved {
            multisig: multisig_key,
            signer_removed: remover,
            signers: count,
            nonce: transaction.nonce,
        },
    )
}

} // verus!
