//! Transaction state-transition engine for a blockchain node.
//!
//! The crate turns an untrusted transaction into either a typed rejection or
//! a deterministic mutation of account balances in a rollback-capable
//! in-memory ledger snapshot. It covers canonical transaction hashing,
//! proof-of-work search and verification, the ordered validation pipeline,
//! and the execution step that applies a validated transaction to a mutable
//! state context.

use vstd::prelude::*;

pub mod execute;
pub mod hashing;
pub mod laws;
pub mod pow_engine;
pub mod state;
pub mod transaction;
pub mod validate;

verus! {

/// The closed set of rejection and failure kinds produced by validation and
/// execution. Every rejection is an ordinary returned value of this type;
/// a bad transaction never aborts the process.
#[derive(Clone, Copy, PartialEq, Eq, Structural, Debug)]
pub enum TxError {
    /// The transaction's hash is already pending in the mempool.
    AlreadyPending,
    /// The transaction's hash is already recorded in the persisted index.
    AlreadyCommitted,
    /// The signature does not verify against the sender over the recomputed hash.
    InvalidSignature,
    /// The stored proof digest does not match the recomputed digest, or the
    /// digest does not meet the difficulty predicate.
    InvalidProofOfWork,
    /// The sender address does not have the required fixed length.
    InvalidSender,
    /// The receiver identifier does not have the required format.
    InvalidReceiver,
    /// The nonce violates the chain's replay-counter policy. Under this
    /// engine's policy the nonce is purely a proof-of-work search variable
    /// and replay protection comes from the persisted-hash uniqueness check,
    /// so this kind is never produced; it remains a distinct value for
    /// callers that meter rejections.
    InvalidNonce,
    /// The type tag is not a recognized kind, or names a kind for which this
    /// engine defines no admission or execution rule.
    InvalidType,
    /// The amount is outside the representable range for the operation
    /// (for example, a credit that would overflow the receiver's balance).
    InvalidAmount,
    /// The sender's balance is smaller than the amount.
    InsufficientFunds,
    /// The address has no record in the account ledger.
    AccountNotFound,
    /// A collaborator (storage, ledger) could not answer; the decision could
    /// not be made. Distinct from "transaction invalid".
    CollaboratorUnavailable,
}

} // verus!
