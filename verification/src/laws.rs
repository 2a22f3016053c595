//! Laws of the engine, stated and proved over the same spec functions the
//! executable contracts use: determinism of the identity digest, soundness
//! of proof-of-work verification against search, the signature gate against
//! tampered fields, and the idempotent rejection of committed transactions.

use vstd::prelude::*;

use crate::hashing::meets_difficulty;
use crate::pow_engine::pow_ok;
use crate::state::{contains_hash, Account};
use crate::transaction::{pow, sig_of, spec_tx_digest, tx_digest, Transaction};
use crate::validate::validate_decision;
use crate::TxError;

verus! {

/// Determinism: the identity digest is a pure function of the semantic
/// fields, so any two field-identical transactions have identical hashes,
/// whatever their cached hash, proof or signature hold.
pub proof fn lemma_hash_deterministic(a: Transaction, b: Transaction)
    requires
        a.sender@ == b.sender@,
        a.reciver@ == b.reciver@,
        a.amount == b.amount,
        a.nonce == b.nonce,
        a.type_flag == b.type_flag,
        a.payload@ == b.payload@,
    ensures
        spec_tx_digest(a) == spec_tx_digest(b),
{
}

/// Proof-of-work correctness, acceptance: every success the search reports
/// for a transaction's fields, installed as that transaction's nonce, proof
/// artifact and cached hash, is accepted by verification.
pub proof fn lemma_search_result_verifies(base: Transaction, p: pow, tx: Transaction)
    requires
        p.hash@ == tx_digest(
            base.sender@,
            base.reciver@,
            base.amount,
            p.nonce,
            base.type_flag,
            base.payload@,
        ),
        meets_difficulty(p.hash@),
        tx.sender@ == base.sender@,
        tx.reciver@ == base.reciver@,
        tx.amount == base.amount,
        tx.type_flag == base.type_flag,
        tx.payload@ == base.payload@,
        tx.nonce == p.nonce,
        tx.pow@ == p.hash@,
    ensures
        pow_ok(tx),
{
}

/// Proof-of-work correctness, rejection: a claimed proof that does not meet
/// the difficulty predicate is never accepted, whatever else the transaction
/// holds.
pub proof fn lemma_difficulty_rejects(tx: Transaction)
    requires
        !meets_difficulty(tx.pow@),
    ensures
        !pow_ok(tx),
{
}

/// The signature gate: a transaction whose amount was changed after signing
/// fails validation with `InvalidSignature`, even when its proof of work and
/// every other field are individually valid. The hypothesis that the two
/// signature digests differ excludes digest collisions between the original
/// and the tampered field vectors, which a fixed-width digest cannot rule
/// out for every pair of inputs.
pub proof fn lemma_tampered_amount_rejected(
    orig: Transaction,
    tampered: Transaction,
    pending: Seq<String>,
    committed: Seq<String>,
    accounts: Seq<Account>,
)
    requires
        tampered.sender@ == orig.sender@,
        tampered.reciver@ == orig.reciver@,
        tampered.nonce == orig.nonce,
        tampered.type_flag == orig.type_flag,
        tampered.payload@ == orig.payload@,
        tampered.amount != orig.amount,
        tampered.signature@ == sig_of(orig.sender@, spec_tx_digest(orig)),
        sig_of(tampered.sender@, spec_tx_digest(tampered)) != sig_of(
            orig.sender@,
            spec_tx_digest(orig),
        ),
        !contains_hash(pending, spec_tx_digest(tampered)),
    ensures
        validate_decision(tampered, pending, committed, accounts) == Err::<(), TxError>(
            TxError::InvalidSignature,
        ),
{
}

/// Idempotent rejection: once a transaction's recomputed digest is recorded
/// in the persisted index — as a successful execution records it — a later
/// validation of the same transaction is rejected with `AlreadyCommitted`,
/// however the ledger looks by then.
pub proof fn lemma_committed_rejected(
    tx: Transaction,
    pending: Seq<String>,
    committed: Seq<String>,
    accounts: Seq<Account>,
)
    requires
        !contains_hash(pending, spec_tx_digest(tx)),
        tx.signature@ == sig_of(tx.sender@, spec_tx_digest(tx)),
        contains_hash(committed, spec_tx_digest(tx)),
    ensures
        validate_decision(tx, pending, committed, accounts) == Err::<(), TxError>(
            TxError::AlreadyCommitted,
        ),
{
}

} // verus!
