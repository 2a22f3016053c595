//! The proof-of-work engine: searches for a nonce whose digest meets the
//! difficulty predicate, and re-verifies a claimed proof by recomputing the
//! digest rather than trusting it.
//!
//! Candidate nonces are sampled uniformly at random rather than sequentially,
//! so independent workers can search the same transaction concurrently
//! without coordination; any worker is free to try overlapping candidates.

use vstd::prelude::*;

use rand::Rng;

use crate::hashing::{check_difficulty, meets_difficulty};
use crate::transaction::{pow, spec_tx_digest, tx_digest, Transaction};

verus! {

/// Whether a transaction carries valid proof of work: the digest recomputed
/// from its fields at its stored nonce equals the stored proof artifact and
/// meets the difficulty predicate.
pub open spec fn pow_ok(tx: Transaction) -> bool {
    &&& tx.pow@ == spec_tx_digest(tx)
    &&& meets_difficulty(tx.pow@)
}

/// Relies on rand::Rng::gen through rand::thread_rng: returns one sampled
/// 64-bit value. Nothing is promised of the result; every caller must hold
/// for every outcome.
#[verifier::external_body]
fn random_u64() -> u64 {
    rand::thread_rng().gen::<u64>()
}

impl Transaction {
    /// Re-verifies this transaction's claimed proof of work. The digest is
    /// always recomputed from the stored fields and nonce; the claim is
    /// accepted exactly when the recomputation matches the stored proof and
    /// meets the difficulty predicate.
    pub fn verify(&self) -> (r: bool)
        ensures
            r == pow_ok(*self),
    {
        let d = self.hash_item();
        let same = self.pow == d;
        let hard = check_difficulty(&d);
        same && hard
    }

    /// Searches for proof of work by sampling random nonces, giving up after
    /// the caller-imposed bound; a bound is the cancellation policy, since
    /// the search has no intrinsic deadline. Every reported success carries
    /// the digest of this transaction's fields at the reported nonce, and
    /// that digest meets the difficulty predicate. Success is never owed:
    /// whether any bounded random search finds a solution depends on the
    /// sampled values.
    pub fn search_pow(&self, max_attempts: u64) -> (r: Option<pow>)
        ensures
            (r matches Some(p) ==> p.hash@ == tx_digest(
                self.sender@,
                self.reciver@,
                self.amount,
                p.nonce,
                self.type_flag,
                self.payload@,
            ) && meets_difficulty(p.hash@)),
    {
        let mut tries: u64 = 0;
        while tries < max_attempts
            decreases max_attempts - tries,
        {
            let nonce = random_u64();
            let scratch = Transaction {
                hash: String::new(),
                sender: self.sender.clone(),
                reciver: self.reciver.clone(),
                amount: self.amount,
                nonce,
                type_flag: self.type_flag,
                payload: self.payload.clone(),
                pow: String::new(),
                signature: String::new(),
            };
            let d = scratch.hash_item();
            if check_difficulty(&d) {
                return Some(pow { hash: d, nonce });
            }
            tries = tries + 1;
        }
        None
    }

    /// Searches for proof of work and, on success, stores the found nonce
    /// and the satisfying digest as both the proof artifact and the cached
    /// identity. The semantic fields and the signature are never touched;
    /// when the search exhausts its bound, nothing is.
    pub fn find_pow(&mut self)
        ensures
            final(self).sender == old(self).sender,
            final(self).reciver == old(self).reciver,
            final(self).amount == old(self).amount,
            final(self).type_flag == old(self).type_flag,
            final(self).payload == old(self).payload,
            final(self).signature == old(self).signature,
            (final(self).nonce == old(self).nonce && final(self).pow == old(self).pow
                && final(self).hash == old(self).hash) || (final(self).pow@ == spec_tx_digest(
                *final(self),
            ) && meets_difficulty(final(self).pow@) && final(self).hash@ == final(self).pow@),
    {
        let found = self.search_pow(u64::MAX);
        match found {
            Some(p) => {
                self.nonce = p.nonce;
                let cached = p.hash.clone();
                self.pow = p.hash;
                self.hash = cached;
            },
            None => {},
        }
    }
}

} // verus!
