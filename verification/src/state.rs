use vstd::prelude::*;

verus! {

/// Most identities a registry may hold as owners.
pub const MAX_OWNERS: usize = 5;

/// Most sub-operations a proposal's batch may hold.
pub const MAX_INSTRUCTIONS: usize = 5;

/// Most account references one sub-operation may declare.
pub const MAX_INSTRUCTION_ACCOUNTS: usize = 15;

/// Largest payload, in bytes, one sub-operation may carry.
pub const MAX_INSTRUCTION_DATA: usize = 1232;

/// The registry record: the root of authority for a group of owners.
///
/// Identities (owners, creator, account and module addresses) are opaque
/// 64-bit keys; the host runtime maps its own address space onto them and
/// only ever needs them compared for equality.
#[derive(Clone, Debug, PartialEq, Eq)]
pub struct Multisig {
    /// The owner identities, in insertion order, pairwise distinct.
    pub owners: Vec<u64>,
    /// The identity that created the registry.
    pub creator: u64,
    /// How many distinct owner approvals a proposal needs before it may
    /// execute; between 1 and `owners.len()`.
    pub threshold: u8,
    /// The proposal counter: starts at 0 and grows by exactly one per
    /// successful proposal, uniquely tagging every proposal ever created
    /// under this registry.
    pub nonce: u16,
    /// The registry's address-derivation witness, fixed at creation and
    /// opaque to the core; the host re-asserts the registry's derived
    /// authority with it during execution.
    pub bump: u8,
}

impl Multisig {
    /// The registry invariant: established at creation and preserved by
    /// every operation (only the proposal counter ever changes).
    pub open spec fn well_formed(self) -> bool {
        &&& 1 <= self.owners@.len() <= MAX_OWNERS
        &&& self.owners@.no_duplicates()
        &&& 1 <= self.threshold as int <= self.owners@.len()
    }
}

/// One sub-operation of a proposal's batch: an externally targeted call.
#[derive(Clone, Debug, PartialEq, Eq)]
pub struct InstructionData {
    /// The target module's identity.
    pub program_id: u64,
    /// The account references the call declares, in order.
    pub accounts: Vec<SerializedAccountMeta>,
    /// The call's payload.
    pub data: Vec<u8>,
}

/// One declared account reference of a sub-operation.
#[derive(Clone, Copy, Debug, PartialEq, Eq, Structural)]
pub struct SerializedAccountMeta {
    /// The referenced account's identity.
    pub pubkey: u64,
    /// Whether the call requires this account's signature.
    pub is_signer: bool,
    /// Whether the call may write to this account.
    pub is_writable: bool,
}

/// A sub-operation respects the external call-size limits: at most
/// `MAX_INSTRUCTION_ACCOUNTS` account references and at most
/// `MAX_INSTRUCTION_DATA` payload bytes.
pub open spec fn instruction_well_formed(ix: InstructionData) -> bool {
    &&& ix.accounts@.len() <= MAX_INSTRUCTION_ACCOUNTS
    &&& ix.data@.len() <= MAX_INSTRUCTION_DATA
}

/// The proposal record: one pending or executed batch of sub-operations.
#[derive(Clone, Debug, PartialEq, Eq)]
pub struct Transaction {
    /// The identity of the owning registry record.
    pub multisig: u64,
    /// The owner that proposed the batch.
    pub proposer: u64,
    /// The batch, in execution order; between 1 and `MAX_INSTRUCTIONS`
    /// sub-operations.
    pub instructions: Vec<InstructionData>,
    /// The identities that currently approve the proposal; pairwise
    /// distinct, every one an owner of the registry.
    pub signers: Vec<u64>,
    /// Whether the batch has been executed; set true exactly once, never
    /// reset.
    pub executed: bool,
    /// The registry's proposal counter at creation time: the proposal's
    /// uniqueness key alongside `multisig`.
    pub nonce: u16,
    /// The proposal's own address-derivation witness, fixed at creation.
    pub bump: u8,
}

impl Transaction {
    /// The approver-set invariant: approvers are pairwise distinct and
    /// every approver is an owner of the registry.
    pub open spec fn approvers_ok(self, ms: Multisig) -> bool {
        &&& self.signers@.no_duplicates()
        &&& forall|i: int|
            0 <= i < self.signers@.len() ==> ms.owners@.contains(self.signers@[i])
    }

    /// The full proposal invariant against its registry: the approver-set
    /// invariant plus the batch-shape bounds checked at proposal time.
    pub open spec fn well_formed(self, ms: Multisig) -> bool {
        &&& self.approvers_ok(ms)
        &&& 1 <= self.instructions@.len() <= MAX_INSTRUCTIONS
        &&& forall|i: int|
            0 <= i < self.instructions@.len() ==> instruction_well_formed(
                self.instructions@[i],
            )
    }
}

/// Whether `keys` holds `key`, by linear scan.
pub fn contains_identity(keys: &Vec<u64>, key: u64) -> (found: bool)
    ensures
        found == keys@.contains(key),
{
    let mut i: usize = 0;
    while i < keys.len()
        invariant
            i <= keys@.len(),
            forall|j: int| 0 <= j < i ==> keys@[j] != key,
        decreases keys@.len() - i,
    {
        if keys[i] == key {
            return true;
        }
        i += 1;
    }
    false
}

/// Whether some identity repeats in `keys`, by pairwise scan.
pub fn has_duplicate_identities(keys: &Vec<u64>) -> (dup: bool)
    ensures
        dup == !keys@.no_duplicates(),
{
    let mut i: usize = 0;
    while i < keys.len()
        invariant
            i <= keys@.len(),
            forall|p: int, q: int|
                0 <= p < i && p < q < keys@.len() ==> keys@[p] != keys@[q],
        decreases keys@.len() - i,
    {
        let mut j: usize = i + 1;
        while j < keys.len()
            invariant
                i < j <= keys@.len(),
                i < keys@.len(),
                forall|p: int, q: int|
                    0 <= p < i && p < q < keys@.len() ==> keys@[p] != keys@[q],
                forall|q: int| i < q < j ==> keys@[i as int] != keys@[q],
            decreases keys@.len() - j,
        {
            if keys[i] == keys[j] {
                return true;
            }
            j += 1;
        }
        i += 1;
    }
    assert(keys@.no_duplicates()) by {
        assert forall|p: int, q: int|
            0 <= p < keys@.len() && 0 <= q < keys@.len() && p != q implies keys@[p]
            != keys@[q] by {
            if p < q {
                assert(keys@[p] != keys@[q]);
            } else {
                assert(keys@[q] != keys@[p]);
            }
        }
    }
    false
}

/// A law of bounded approver sets: a duplicate-free sequence whose members
/// all occur in `owners` is no longer than `owners`. It is why an approver
/// set can never outgrow the owner set.
pub proof fn lemma_distinct_members_bounded(signers: Seq<u64>, owners: Seq<u64>)
    requires
        signers.no_duplicates(),
        forall|i: int| 0 <= i < signers.len() ==> owners.contains(signers[i]),
    ensures
        signers.len() <= owners.len(),
{
    signers.unique_seq_to_set();
    assert(signers.to_set().subset_of(owners.to_set())) by {
        assert forall|a: u64| signers.to_set().contains(a) implies owners.to_set().contains(
            a,
        ) by {
            let i = choose|i: int| 0 <= i < signers.len() && signers[i] == a;
            assert(owners.contains(signers[i]));
        }
    }
    assert(owners.to_set().finite()) by {
        broadcast use vstd::seq_lib::seq_to_set_is_finite;

    }
    vstd::set_lib::lemma_len_subset(signers.to_set(), owners.to_set());
    owners.lemma_cardinality_of_set();
}

} // verus!
