//! The transaction data model, its canonical encoding and content-addressed
//! identity, and the deterministic signing scheme over that identity.

use vstd::prelude::*;
use vstd::string::StringSliceAdditionalSpecFns;
use vstd::utf8::encode_utf8;

use crate::hashing::{dec_bytes, digest_chars, digest_hex, push_dec};

verus! {

/// Domain-separation tag prepended to the bytes a signature is computed over,
/// so a signature digest can never coincide with a transaction digest of the
/// same text.
pub const SIG_TAG: u8 = 115;

/// The required length, in characters, of a sender address (a hex-serialized
/// public key) and of a Send receiver identifier.
pub const ADDRESS_LEN: usize = 64;

/// The closed set of transaction kinds.
#[derive(Clone, Copy, PartialEq, Eq, Structural, Debug)]
pub enum TxType {
    /// Sends funds from the sender to the receiver.
    Send,
    /// Destroys funds held by the sender.
    Burn,
    /// Flips a validator's liveness flag.
    ToggleOnline,
    /// Reports voting on multiple chains.
    EvidenceTxn,
    /// Delegates staking power to another node, or undelegates it.
    DelegateTx,
    /// Calls a contract's associated functions.
    CallContract,
    /// Creates a new chain, when authorised.
    CreateChain,
    /// The first transaction in a block: mints coins for the block reward.
    Coinbase,
}

impl TxType {
    /// The type-tag byte of each kind, as written into the canonical encoding.
    pub open spec fn flag_spec(self) -> u8 {
        match self {
            TxType::Send => 0,
            TxType::Burn => 1,
            TxType::ToggleOnline => 2,
            TxType::EvidenceTxn => 3,
            TxType::DelegateTx => 4,
            TxType::CallContract => 5,
            TxType::CreateChain => 6,
            TxType::Coinbase => 7,
        }
    }

    /// The kind named by a type-tag byte, if the byte names one.
    pub open spec fn from_flag_spec(flag: u8) -> Option<TxType> {
        if flag == 0 { Some(TxType::Send) } else if flag == 1 { Some(TxType::Burn) }
        else if flag == 2 { Some(TxType::ToggleOnline) } else if flag == 3 { Some(TxType::EvidenceTxn) }
        else if flag == 4 { Some(TxType::DelegateTx) } else if flag == 5 { Some(TxType::CallContract) }
        else if flag == 6 { Some(TxType::CreateChain) } else if flag == 7 { Some(TxType::Coinbase) }
        else { None }
    }

    /// The type-tag byte of this kind.
    pub fn flag(self) -> (r: u8)
        ensures
            r == self.flag_spec(),
    {
        match self {
            TxType::Send => 0,
            TxType::Burn => 1,
            TxType::ToggleOnline => 2,
            TxType::EvidenceTxn => 3,
            TxType::DelegateTx => 4,
            TxType::CallContract => 5,
            TxType::CreateChain => 6,
            TxType::Coinbase => 7,
        }
    }

    /// The kind named by a type-tag byte, if the byte names one.
    pub fn from_flag(flag: u8) -> (r: Option<TxType>)
        ensures
            r == TxType::from_flag_spec(flag),
    {
        if flag == 0 { Some(TxType::Send) } else if flag == 1 { Some(TxType::Burn) }
        else if flag == 2 { Some(TxType::ToggleOnline) } else if flag == 3 { Some(TxType::EvidenceTxn) }
        else if flag == 4 { Some(TxType::DelegateTx) } else if flag == 5 { Some(TxType::CallContract) }
        else if flag == 6 { Some(TxType::CreateChain) } else if flag == 7 { Some(TxType::Coinbase) }
        else { None }
    }
}

/// The unit of state change. Identity is the digest of the canonical fields;
/// the stored `hash` is a cache of that digest and is recomputed, never
/// trusted, wherever a decision depends on it.
#[derive(Clone, Debug, Default)]
pub struct Transaction {
    /// Digest of the canonical fields; the transaction's identity.
    pub hash: String,
    /// The sender's public key as a fixed-length hex string; also the
    /// sender's address.
    pub sender: String,
    /// The recipient identifier; required length depends on the kind.
    pub reciver: String,
    /// Unsigned quantity of funds; semantics depend on the kind.
    pub amount: u64,
    /// Proof-of-work search variable. Replay protection comes from the
    /// persisted-hash uniqueness check, not from this value.
    pub nonce: u64,
    /// The type-tag byte of the transaction's kind.
    pub type_flag: u8,
    /// Hex-encoded payload; interpretation depends on the kind.
    pub payload: String,
    /// The digest found at the nonce that satisfies the work predicate.
    pub pow: String,
    /// Signature over `hash`, produced with the sender's key.
    pub signature: String,
}

/// A found proof of work: the satisfying digest and the nonce it was found at.
#[allow(non_camel_case_types)]
pub struct pow {
    /// The digest at `nonce`, which meets the difficulty predicate.
    pub hash: String,
    /// The nonce at which the digest was computed.
    pub nonce: u64,
}

/// The canonical byte encoding of a transaction's semantic fields: sender
/// bytes, receiver bytes, decimal amount, decimal nonce, the type-tag byte,
/// and payload bytes, concatenated in that order with no delimiters.
pub open spec fn tx_bytes_spec(
    sender: Seq<char>,
    reciver: Seq<char>,
    amount: u64,
    nonce: u64,
    type_flag: u8,
    payload: Seq<char>,
) -> Seq<u8> {
    encode_utf8(sender) + encode_utf8(reciver) + dec_bytes(amount as nat) + dec_bytes(nonce as nat)
        + seq![type_flag] + encode_utf8(payload)
}

/// The digest of the canonical encoding: the transaction's identity as a
/// pure function of its semantic fields.
pub open spec fn tx_digest(
    sender: Seq<char>,
    reciver: Seq<char>,
    amount: u64,
    nonce: u64,
    type_flag: u8,
    payload: Seq<char>,
) -> Seq<char> {
    digest_chars(tx_bytes_spec(sender, reciver, amount, nonce, type_flag, payload))
}

/// The identity digest of a transaction value.
pub open spec fn spec_tx_digest(tx: Transaction) -> Seq<char> {
    tx_digest(tx.sender@, tx.reciver@, tx.amount, tx.nonce, tx.type_flag, tx.payload@)
}

/// The signature a holder of the sender's key produces over a given identity
/// digest: the digest of the tagged sender and hash bytes.
pub open spec fn sig_of(sender: Seq<char>, hash: Seq<char>) -> Seq<char> {
    digest_chars(seq![SIG_TAG] + encode_utf8(sender) + encode_utf8(hash))
}

/// Whether a transaction's stored signature verifies against its sender over
/// its recomputed identity digest.
pub open spec fn sig_ok(tx: Transaction) -> bool {
    tx.signature@ == sig_of(tx.sender@, spec_tx_digest(tx))
}

/// Appends a byte slice to a byte vector.
pub(crate) fn push_bytes(out: &mut Vec<u8>, b: &[u8])
    ensures
        final(out)@ == old(out)@ + b@,
{
    proof {
        assert(out@ =~= old(out)@ + b@.take(0));
    }
    let mut i: usize = 0;
    while i < b.len()
        invariant
            i <= b@.len(),
            out@ == old(out)@ + b@.take(i as int),
        decreases b@.len() - i,
    {
        let x = b[i];
        out.push(x);
        i = i + 1;
        proof {
            assert(out@ =~= old(out)@ + b@.take(i as int));
        }
    }
    proof {
        assert(b@.take(b@.len() as int) =~= b@);
    }
}

impl Transaction {
    /// The canonical byte encoding of this transaction's semantic fields.
    pub fn bytes(&self) -> (out: Vec<u8>)
        ensures
            out@ == tx_bytes_spec(
                self.sender@,
                self.reciver@,
                self.amount,
                self.nonce,
                self.type_flag,
                self.payload@,
            ),
    {
        let mut out: Vec<u8> = Vec::new();
        push_bytes(&mut out, self.sender.as_str().as_bytes());
        push_bytes(&mut out, self.reciver.as_str().as_bytes());
        push_dec(&mut out, self.amount);
        push_dec(&mut out, self.nonce);
        out.push(self.type_flag);
        push_bytes(&mut out, self.payload.as_str().as_bytes());
        proof {
            assert(out@ =~= tx_bytes_spec(
                self.sender@,
                self.reciver@,
                self.amount,
                self.nonce,
                self.type_flag,
                self.payload@,
            ));
        }
        out
    }

    /// The identity digest of this transaction, recomputed from its fields.
    pub fn hash_item(&self) -> (r: String)
        ensures
            r@ == spec_tx_digest(*self),
            r@.len() == 64,
    {
        let b = self.bytes();
        digest_hex(&b)
    }

    /// Constructs a transaction with the given semantic fields, a zero nonce,
    /// empty proof and signature, and its identity digest computed.
    pub fn new(
        sender: String,
        reciver: String,
        amount: u64,
        type_flag: u8,
        payload: String,
    ) -> (txn: Self)
        ensures
            txn.sender == sender,
            txn.reciver == reciver,
            txn.amount == amount,
            txn.type_flag == type_flag,
            txn.payload == payload,
            txn.nonce == 0,
            txn.pow@ == Seq::<char>::empty(),
            txn.signature@ == Seq::<char>::empty(),
            txn.hash@ == spec_tx_digest(txn),
    {
        let mut txn = Transaction {
            sender,
            reciver,
            amount,
            type_flag,
            payload,
            nonce: 0,
            pow: String::new(),
            signature: String::new(),
            hash: String::new(),
        };
        let h = txn.hash_item();
        txn.hash = h;
        txn
    }

    /// Signs this transaction: recomputes and stores the identity digest,
    /// then stores the signature the sender's key produces over it. Any
    /// later field change invalidates the signature.
    pub fn sign(&mut self)
        ensures
            final(self).sender == old(self).sender,
            final(self).reciver == old(self).reciver,
            final(self).amount == old(self).amount,
            final(self).nonce == old(self).nonce,
            final(self).type_flag == old(self).type_flag,
            final(self).payload == old(self).payload,
            final(self).pow == old(self).pow,
            final(self).hash@ == spec_tx_digest(*old(self)),
            sig_ok(*final(self)),
    {
        let h = self.hash_item();
        self.hash = h;
        let s = sign_digest(&self.sender, &self.hash);
        self.signature = s;
    }
}

/// The signature over an identity digest, computed with the sender's key
/// material: the digest of the tagged sender and hash bytes.
pub fn sign_digest(sender: &String, hash: &String) -> (r: String)
    ensures
        r@ == sig_of(sender@, hash@),
{
    let mut v: Vec<u8> = Vec::new();
    v.push(SIG_TAG);
    push_bytes(&mut v, sender.as_str().as_bytes());
    push_bytes(&mut v, hash.as_str().as_bytes());
    proof {
        assert(v@ =~= seq![SIG_TAG] + encode_utf8(sender@) + encode_utf8(hash@));
    }
    digest_hex(&v)
}

} // verus!
