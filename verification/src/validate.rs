//! The validation pipeline: an ordered sequence of independent checks that
//! together decide admissibility of a transaction, short-circuiting on the
//! first failure and never mutating any collaborator.
//!
//! Check order, cheapest and most spam-deterring first: pending duplicate,
//! signature, committed duplicate, proof of work, sender format, then the
//! kind-specific economic checks. The nonce carries no replay-counter policy:
//! it is purely the proof-of-work search variable, and replay protection is
//! provided solely by the persisted-hash uniqueness check, so no check here
//! ever yields `InvalidNonce`.
//!
//! Every decision is made against the digest recomputed from the
//! transaction's fields; the stored `hash` is never trusted as input.

use vstd::prelude::*;

use crate::hashing::{check_difficulty, meets_difficulty};
use crate::state::{bal_of, contains_hash, Account, GlobalState, Mempool, TxIndex};
use crate::transaction::{
    sig_of, sign_digest, spec_tx_digest, Transaction, TxType, ADDRESS_LEN,
};
use crate::TxError;

verus! {

/// The admissibility decision for a transaction against the pending set, the
/// committed index, and the account ledger: `Ok` exactly when every check of
/// the pipeline passes, and otherwise the error of the first failing check.
///
/// Kinds whose economic rules this engine does not define (every kind other
/// than Send and Burn) are never admissible and are rejected as
/// `InvalidType`, as is an unrecognized type tag.
pub open spec fn validate_decision(
    tx: Transaction,
    pending: Seq<String>,
    committed: Seq<String>,
    accounts: Seq<Account>,
) -> Result<(), TxError> {
    let h = spec_tx_digest(tx);
    if contains_hash(pending, h) {
        Err(TxError::AlreadyPending)
    } else if tx.signature@ != sig_of(tx.sender@, h) {
        Err(TxError::InvalidSignature)
    } else if contains_hash(committed, h) {
        Err(TxError::AlreadyCommitted)
    } else if !(tx.pow@ == h && meets_difficulty(h)) {
        Err(TxError::InvalidProofOfWork)
    } else if tx.sender@.len() != ADDRESS_LEN {
        Err(TxError::InvalidSender)
    } else {
        match TxType::from_flag_spec(tx.type_flag) {
            Some(TxType::Send) => {
                if tx.reciver@.len() != ADDRESS_LEN {
                    Err(TxError::InvalidReceiver)
                } else {
                    match bal_of(accounts, tx.sender@) {
                        None => Err(TxError::AccountNotFound),
                        Some(b) => if b < tx.amount {
                            Err(TxError::InsufficientFunds)
                        } else {
                            Ok(())
                        },
                    }
                }
            },
            Some(TxType::Burn) => {
                match bal_of(accounts, tx.sender@) {
                    None => Err(TxError::AccountNotFound),
                    Some(b) => if b < tx.amount {
                        Err(TxError::InsufficientFunds)
                    } else {
                        Ok(())
                    },
                }
            },
            _ => Err(TxError::InvalidType),
        }
    }
}

impl Transaction {
    /// Decides admissibility of this transaction without mutating any state:
    /// returns `Ok` exactly when every check of the pipeline passes, and
    /// otherwise the distinct error of the first failing check. Idempotent
    /// and side-effect-free: validating twice against the same collaborators
    /// yields the same decision.
    pub fn validate(
        &self,
        mempool: &Mempool,
        index: &TxIndex,
        state: &GlobalState,
    ) -> (r: Result<(), TxError>)
        ensures
            r == validate_decision(*self, mempool.pending@, index.hashes@, state.accounts@),
    {
        let h = self.hash_item();
        if mempool.lookup(&h) {
            return Err(TxError::AlreadyPending);
        }
        let expected = sign_digest(&self.sender, &h);
        if !(self.signature == expected) {
            return Err(TxError::InvalidSignature);
        }
        if index.contains(&h) {
            return Err(TxError::AlreadyCommitted);
        }
        let pow_matches = self.pow == h;
        let hard = check_difficulty(&h);
        if !(pow_matches && hard) {
            return Err(TxError::InvalidProofOfWork);
        }
        if self.sender.as_str().unicode_len() != ADDRESS_LEN {
            return Err(TxError::InvalidSender);
        }
        match TxType::from_flag(self.type_flag) {
            Some(TxType::Send) => {
                if self.reciver.as_str().unicode_len() != ADDRESS_LEN {
                    return Err(TxError::InvalidReceiver);
                }
                match state.get_balance(&self.sender) {
                    None => Err(TxError::AccountNotFound),
                    Some(b) => if b < self.amount {
                        Err(TxError::InsufficientFunds)
                    } else {
                        Ok(())
                    },
                }
            },
            Some(TxType::Burn) => {
                match state.get_balance(&self.sender) {
                    None => Err(TxError::AccountNotFound),
                    Some(b) => if b < self.amount {
                        Err(TxError::InsufficientFunds)
                    } else {
                        Ok(())
                    },
                }
            },
            _ => Err(TxError::InvalidType),
        }
    }
}

} // verus!
