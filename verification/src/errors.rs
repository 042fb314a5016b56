use vstd::prelude::*;

verus! {

/// The failure kinds of the engine. Every operation either succeeds or is
/// rejected with exactly one of these, leaving all records unchanged.
#[derive(Clone, Copy, Debug, PartialEq, Eq, Structural)]
pub enum ErrorCode {
    /// Registry creation: the owner list is empty or holds more than
    /// `MAX_OWNERS` identities.
    InvalidNumberOfOwners,
    /// Registry creation: the threshold is zero or exceeds the owner count.
    InvalidThreshold,
    /// Registry creation: an identity repeats in the owner list.
    DuplicateOwners,
    /// The caller is not an owner of the registry.
    Unauthorized,
    /// Proposal creation: the batch holds no sub-operation.
    EmptyInstructions,
    /// Proposal creation: the batch is over a sub-operation size bound.
    InvalidNumberOfInstructions,
    /// A mutation was attempted on an already-executed proposal.
    TransactionExecuted,
    /// The caller already approved this proposal.
    AlreadySigned,
    /// A withdrawal was attempted by a caller who has not approved.
    NotSigned,
    /// Execution was attempted below quorum.
    NotEnoughSigners,
    /// A sub-operation's account reference is absent from the supplied
    /// execution context.
    MissingAccount,
}

} // verus!
