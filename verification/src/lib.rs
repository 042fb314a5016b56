//! A threshold-authorization engine.
//!
//! A group of designated identities ("owners") jointly controls execution of
//! batches of externally targeted operations. A registry record
//! ([`state::Multisig`]) holds the owner set and the quorum threshold; a
//! proposal record ([`state::Transaction`]) holds one pending or executed
//! batch together with its approver set. The five operations — create,
//! propose, approve, withdraw approval, execute — validate their inputs,
//! mutate the records, and report each failure as a typed
//! [`errors::ErrorCode`], leaving all state unchanged on failure.
//!
//! The host runtime supplies record storage, caller authentication, and the
//! actual dispatch of a proposal's sub-operations; this crate decides, for
//! plain values handed in by the host, whether an operation is allowed and
//! what the records look like afterwards.

pub mod approve_txn;
pub mod create_multisig_account;
pub mod errors;
pub mod execute_txn;
pub mod laws;
pub mod propose_txn;
pub mod remove_approval;
pub mod state;
