use crate::errors::ErrorCode;
use crate::state::{has_duplicate_identities, Multisig, MAX_OWNERS};
use vstd::prelude::*;

verus! {

/// The validation outcome of registry creation: the error it is rejected
/// with, or `None` when it succeeds. Checked in this order: owner count,
/// duplicate owners, threshold range.
pub open spec fn create_multisig_error(owners: Seq<u64>, threshold: u8) -> Option<
    ErrorCode,
> {
    if owners.len() == 0 || owners.len() > MAX_OWNERS {
        Some(ErrorCode::InvalidNumberOfOwners)
    } else if !owners.no_duplicates() {
        Some(ErrorCode::DuplicateOwners)
    } else if threshold == 0 || threshold as int > owners.len() {
        Some(ErrorCode::InvalidThreshold)
    } else {
        None
    }
}

/// Creates a registry for `owners` with quorum `threshold`, on behalf of
/// `creator`, bound to the address-derivation witness `bump` that the host
/// produced for the new record.
///
/// Succeeds exactly when the owner list is non-empty, within bounds and
/// duplicate-free and the threshold lies between 1 and the owner count; the
/// new registry then starts with proposal counter 0 and satisfies the
/// registry invariant.
pub fn create_multisig_handler(
    owners: Vec<u64>,
    threshold: u8,
    creator: u64,
    bump: u8,
) -> (r: Result<Multisig, ErrorCode>)
    ensures
        r is Ok <==> create_multisig_error(owners@, threshold) is None,
        r is Err ==> Some(r->Err_0) == create_multisig_error(owners@, threshold),
        r is Ok ==> {
            let ms = r->Ok_0;
            &&& ms.owners@ == owners@
            &&& ms.threshold == threshold
            &&& ms.creator == creator
            &&& ms.nonce == 0
            &&& ms.bump == bump
            &&& ms.well_formed()
        },
{
    if owners.len() == 0 || owners.len() > MAX_OWNERS {
        return Err(ErrorCode::InvalidNumberOfOwners);
    }
    if has_duplicate_identities(&owners) {
        return Err(ErrorCode::DuplicateOwners);
    }
    if threshold == 0 || threshold as usize > owners.len() {
        return Err(ErrorCode::InvalidThreshold);
    }
    Ok(
        Multisig {
            owners,
            creator,
            threshold,
            nonce: 0,
            bump,
        },
    )
}

} // verus!
