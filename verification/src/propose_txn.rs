use crate::errors::ErrorCode;
use crate::state::{
    contains_identity, instruction_well_formed, InstructionData, Multisig, Transaction,
    MAX_INSTRUCTIONS, MAX_INSTRUCTION_ACCOUNTS, MAX_INSTRUCTION_DATA,
};
use vstd::prelude::*;

verus! {

/// The validation outcome of proposal creation: the error it is rejected
/// with, or `None` when it succeeds. Checked in this order: caller
/// membership, empty batch, batch length, per-sub-operation size bounds
/// (the external call-size limits, surfaced here as a batch-shape failure).
pub open spec fn propose_txn_error(
    ms: Multisig,
    proposer: u64,
    instructions: Seq<InstructionData>,
) -> Option<ErrorCode> {
    if !ms.owners@.contains(proposer) {
        Some(ErrorCode::Unauthorized)
    } else if instructions.len() == 0 {
        Some(ErrorCode::EmptyInstructions)
    } else if instructions.len() > MAX_INSTRUCTIONS {
        Some(ErrorCode::InvalidNumberOfInstructions)
    } else if exists|i: int|
        0 <= i < instructions.len() && !#[trigger] instruction_well_formed(
            instructions[i],
        ) {
        Some(ErrorCode::InvalidNumberOfInstructions)
    } else {
        None
    }
}

/// Proposes the batch `instructions` against the registry `multisig` (whose
/// record identity is `multisig_key`), on behalf of `proposer`; `bump` is
/// the address-derivation witness the host produced for the new proposal
/// record.
///
/// Succeeds exactly when the proposer is an owner and the batch holds
/// between 1 and `MAX_INSTRUCTIONS` sub-operations, each within the
/// call-size limits. The new proposal is keyed by the registry's current
/// proposal counter, starts unexecuted with the proposer as its sole
/// approver, and the counter then grows by exactly one; on failure the
/// registry is unchanged. The counter never decreases.
pub fn propose_txn_handler(
    multisig: &mut Multisig,
    multisig_key: u64,
    proposer: u64,
    instructions: Vec<InstructionData>,
    bump: u8,
) -> (r: Result<Transaction, ErrorCode>)
    requires
        old(multisig).nonce < u16::MAX,
    ensures
        r is Ok <==> propose_txn_error(*old(multisig), proposer, instructions@) is None,
        r is Err ==> Some(r->Err_0) == propose_txn_error(
            *old(multisig),
            proposer,
            instructions@,
        ),
        r is Err ==> *final(multisig) == *old(multisig),
        final(multisig).owners@ == old(multisig).owners@,
        final(multisig).creator == old(multisig).creator,
        final(multisig).threshold == old(multisig).threshold,
        final(multisig).bump == old(multisig).bump,
        final(multisig).nonce >= old(multisig).nonce,
        r is Ok ==> final(multisig).nonce == old(multisig).nonce + 1,
        r is Ok ==> {
            let tx = r->Ok_0;
            &&& tx.multisig == multisig_key
            &&& tx.proposer == proposer
            &&& tx.instructions@ == instructions@
            &&& tx.signers@ == seq![proposer]
            &&& !tx.executed
            &&& tx.nonce == old(multisig).nonce
            &&& tx.bump == bump
            &&& tx.well_formed(*old(multisig))
            &&& tx.well_formed(*final(multisig))
        },
{
    if !contains_identity(&multisig.owners, proposer) {
        return Err(ErrorCode::Unauthorized);
    }
    if instructions.len() == 0 {
        return Err(ErrorCode::EmptyInstructions);
    }
    if instructions.len() > MAX_INSTRUCTIONS {
        return Err(ErrorCode::InvalidNumberOfInstructions);
    }
    let mut i: usize = 0;
    while i < instructions.len()
        invariant
            *multisig == *old(multisig),
            old(multisig).owners@.contains(proposer),
            0 < instructions@.len() <= MAX_INSTRUCTIONS,
            i <= instructions@.len(),
            forall|j: int| 0 <= j < i ==> instruction_well_formed(instructions@[j]),
        decreases instructions@.len() - i,
    {
        if instructions[i].accounts.len() > MAX_INSTRUCTION_ACCOUNTS
            || instructions[i].data.len() > MAX_INSTRUCTION_DATA {
            assert(!instruction_well_formed(instructions@[i as int]));
            return Err(ErrorCode::InvalidNumberOfInstructions);
        }
        i += 1;
    }
    let sequence = multisig.nonce;
    multisig.nonce = multisig.nonce + 1;
    let transaction = Transaction {
        multisig: multisig_key,
        proposer,
        instructions,
        signers: vec![proposer],
        executed: false,
        nonce: sequence,
        bump,
    };
    Ok(transaction)
}

} // verus!
