use crate::errors::ErrorCode;
use crate::state::{InstructionData, Multisig, Transaction};
use vstd::prelude::*;

verus! {

/// The observable signal of a completed execution: the registry's identity
/// and the executed proposal's sequence number.
#[derive(Clone, Copy, Debug, PartialEq, Eq, Structural)]
pub struct TransactionExecuted {
    /// The registry the executed proposal belongs to.
    pub multisig: u64,
    /// The executed proposal's sequence number.
    pub nonce: u16,
}

/// Index `k` is where resolution places `key` in the execution context
/// `ctx`: it holds `key`, and no earlier index does.
pub open spec fn is_first_match(ctx: Seq<u64>, key: u64, k: int) -> bool {
    &&& 0 <= k < ctx.len()
    &&& ctx[k] == key
    &&& forall|m: int| 0 <= m < k ==> ctx[m] != key
}

/// Every account reference of the sub-operation `ix` occurs in the
/// execution context `ctx`.
pub open spec fn instruction_resolvable(ix: InstructionData, ctx: Seq<u64>) -> bool {
    forall|j: int| 0 <= j < ix.accounts@.len() ==> ctx.contains(#[trigger] ix.accounts@[j].pubkey)
}

/// The validation outcome of an execution attempt: the error it is
/// rejected with, or `None` when it succeeds. Checked in this order:
/// executed state, quorum, account resolution.
pub open spec fn execute_txn_error(ms: Multisig, tx: Transaction, ctx: Seq<u64>) -> Option<
    ErrorCode,
> {
    if tx.executed {
        Some(ErrorCode::TransactionExecuted)
    } else if tx.signers@.len() < ms.threshold as int {
        Some(ErrorCode::NotEnoughSigners)
    } else if exists|i: int|
        0 <= i < tx.instructions@.len() && !#[trigger] instruction_resolvable(
            tx.instructions@[i],
            ctx,
        ) {
        Some(ErrorCode::MissingAccount)
    } else {
        None
    }
}

/// Finds the position of `key` in the execution context, scanning from the
/// front as resolution does; `None` when the context does not hold it.
pub fn find_account(remaining_accounts: &Vec<u64>, key: u64) -> (r: Option<usize>)
    ensures
        r is Some <==> remaining_accounts@.contains(key),
        r matches Some(k) ==> is_first_match(remaining_accounts@, key, k as int),
{
    let mut i: usize = 0;
    while i < remaining_accounts.len()
        invariant
            i <= remaining_accounts@.len(),
            forall|m: int| 0 <= m < i ==> remaining_accounts@[m] != key,
        decreases remaining_accounts@.len() - i,
    {
        if remaining_accounts[i] == key {
            return Some(i);
        }
        i += 1;
    }
    None
}

/// Resolves one sub-operation's declared account references against the
/// supplied execution context, in declaration order.
///
/// Returns the context position of every reference — each the first index
/// holding the referenced identity — or `MissingAccount` as soon as one
/// reference is absent from the context.
pub fn get_instruction_accounts(
    instruction: &InstructionData,
    remaining_accounts: &Vec<u64>,
) -> (r: Result<Vec<usize>, ErrorCode>)
    ensures
        r is Ok <==> instruction_resolvable(*instruction, remaining_accounts@),
        r is Err ==> r->Err_0 == ErrorCode::MissingAccount,
        r matches Ok(v) ==> {
            &&& v@.len() == instruction.accounts@.len()
            &&& forall|j: int|
                0 <= j < v@.len() ==> is_first_match(
                    remaining_accounts@,
                    instruction.accounts@[j].pubkey,
                    #[trigger] v@[j] as int,
                )
        },
{
    let mut resolved: Vec<usize> = Vec::new();
    let mut j: usize = 0;
    while j < instruction.accounts.len()
        invariant
            j <= instruction.accounts@.len(),
            resolved@.len() == j,
            forall|m: int|
                0 <= m < j ==> remaining_accounts@.contains(
                    #[trigger] instruction.accounts@[m].pubkey,
                ),
            forall|m: int|
                0 <= m < j ==> is_first_match(
                    remaining_accounts@,
                    instruction.accounts@[m].pubkey,
                    #[trigger] resolved@[m] as int,
                ),
        decreases instruction.accounts@.len() - j,
    {
        match find_account(remaining_accounts, instruction.accounts[j].pubkey) {
            Some(k) => {
                resolved.push(k);
            },
            None => {
                assert(!instruction_resolvable(*instruction, remaining_accounts@));
                return Err(ErrorCode::MissingAccount);
            },
        }
        j += 1;
    }
    Ok(resolved)
}

/// Clears a proposal for execution and marks it executed: checks that it
/// has not already run and that its approver count reaches the registry's
/// threshold, resolves every sub-operation's account references against
/// `remaining_accounts`, and only then sets the executed flag.
///
/// On success, the returned plan gives, for each sub-operation in batch
/// order, the context positions of its declared account references; the
/// host dispatches the batch in exactly that order under the registry's
/// derived authority, inside the same atomic unit as this record update, so
/// that a failed dispatch retains nothing — this function itself leaves the
/// proposal untouched on every failure it decides. The triggering caller
/// needs no membership check: authorization derives entirely from the
/// stored approver count.
pub fn execute_txn_handler(
    multisig: &Multisig,
    multisig_key: u64,
    transaction: &mut Transaction,
    remaining_accounts: &Vec<u64>,
) -> (r: Result<(Vec<Vec<usize>>, TransactionExecuted), ErrorCode>)
    requires
        old(transaction).multisig == multisig_key,
    ensures
        r is Ok <==> execute_txn_error(*multisig, *old(transaction), remaining_accounts@)
            is None,
        r is Err ==> Some(r->Err_0) == execute_txn_error(
            *multisig,
            *old(transaction),
            remaining_accounts@,
        ),
        r is Err ==> *final(transaction) == *old(transaction),
        final(transaction).multisig == old(transaction).multisig,
        final(transaction).proposer == old(transaction).proposer,
        final(transaction).instructions@ == old(transaction).instructions@,
        final(transaction).signers@ == old(transaction).signers@,
        final(transaction).nonce == old(transaction).nonce,
        final(transaction).bump == old(transaction).bump,
        r is Ok ==> final(transaction).executed,
        r is Ok ==> {
            let plan = r->Ok_0.0;
            &&& plan@.len() == old(transaction).instructions@.len()
            &&& forall|i: int|
                0 <= i < plan@.len() ==> plan@[i]@.len() == old(
                    transaction,
                ).instructions@[i].accounts@.len()
            &&& forall|i: int, j: int|
                0 <= i < plan@.len() && 0 <= j < plan@[i]@.len() ==> is_first_match(
                    remaining_accounts@,
                    old(transaction).instructions@[i].accounts@[j].pubkey,
                    #[trigger] plan@[i]@[j] as int,
                )
        },
        r is Ok ==> r->Ok_0.1 == (TransactionExecuted {
            multisig: multisig_key,
            nonce: old(transaction).nonce,
        }),
{
    if transaction.executed {
        return Err(ErrorCode::TransactionExecuted);
    }
    if transaction.signers.len() < multisig.threshold as usize {
        return Err(ErrorCode::NotEnoughSigners);
    }
    let n: usize = transaction.instructions.len();
    let mut plan: Vec<Vec<usize>> = Vec::new();
    let mut i: usize = 0;
    while i < n
        invariant
            *transaction == *old(transaction),
            n == transaction.instructions@.len(),
            !transaction.executed,
            transaction.signers@.len() >= multisig.threshold as int,
            i <= n,
            plan@.len() == i,
            forall|k: int|
                0 <= k < i ==> instruction_resolvable(
                    #[trigger] transaction.instructions@[k],
                    remaining_accounts@,
                ),
            forall|k: int|
                0 <= k < i ==> #[trigger] plan@[k]@.len()
                    == transaction.instructions@[k].accounts@.len(),
            forall|k: int, j: int|
                0 <= k < i && 0 <= j < plan@[k]@.len() ==> is_first_match(
                    remaining_accounts@,
                    transaction.instructions@[k].accounts@[j].pubkey,
                    #[trigger] plan@[k]@[j] as int,
                ),
        decreases n - i,
    {
        match get_instruction_accounts(&transaction.instructions[i], remaining_accounts) {
            Ok(resolved) => {
                plan.push(resolved);
            },
            Err(e) => {
                assert(!instruction_resolvable(
                    transaction.instructions@[i as int],
                    remaining_accounts@,
                ));
                return Err(e);
            },
        }
        i += 1;
    }
    transaction.executed = true;
    let event = TransactionExecuted {
        multisig: multisig_key,
        nonce: transaction.nonce,
    };
    Ok((plan, event))
}

} // verus!
