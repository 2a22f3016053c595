//! The execution step: applies an admissible transaction's effect to a
//! caller-owned mutable state context and reports the resulting state digest,
//! recording the transaction in the persisted index and advancing the
//! monotonic transaction counter.
//!
//! Execution is atomic with respect to the context: either all effects of one
//! transaction apply, or, on any failure, none do — so speculative work can
//! be rolled back by discarding the mutated context without touching any
//! other snapshot. Admissibility (the pipeline of checks) is enforced
//! upstream and not re-checked here beyond what the effect itself needs.
//!
//! The fee is a pure function of the transaction's kind and payload size; it
//! reads and writes no state and is not debited from any balance.

use vstd::prelude::*;
use vstd::string::StringSliceAdditionalSpecFns;
use vstd::utf8::encode_utf8;

use crate::hashing::{dec_bytes, digest_chars, digest_hex, push_dec};
use crate::state::{
    bal_of, bal_or_zero, contains_hash, total, Account, GlobalState, TxIndex,
};
use crate::transaction::{push_bytes, spec_tx_digest, Transaction, TxType};
use crate::TxError;

verus! {

/// The canonical byte encoding of a ledger snapshot: for each record in
/// order, the address bytes, a colon, the decimal balance, and a semicolon.
pub open spec fn accounts_bytes(s: Seq<Account>) -> Seq<u8>
    decreases s.len(),
{
    if s.len() == 0 {
        Seq::empty()
    } else {
        accounts_bytes(s.drop_last()) + encode_utf8(s.last().address@) + seq![58u8] + dec_bytes(
            s.last().balance as nat,
        ) + seq![59u8]
    }
}

/// The digest of a ledger snapshot's canonical encoding.
pub open spec fn state_digest(s: Seq<Account>) -> Seq<char> {
    digest_chars(accounts_bytes(s))
}

/// The digest of a ledger snapshot as a 64-character lowercase hex string.
pub fn state_digest_hex(state: &GlobalState) -> (r: String)
    ensures
        r@ == state_digest(state.accounts@),
        r@.len() == 64,
{
    let mut out: Vec<u8> = Vec::new();
    proof {
        assert(state.accounts@.take(0) =~= Seq::<Account>::empty());
        assert(out@ =~= accounts_bytes(state.accounts@.take(0)));
    }
    let n = state.accounts.len();
    let mut i: usize = 0;
    while i < n
        invariant
            n == state.accounts@.len(),
            i <= n,
            out@ == accounts_bytes(state.accounts@.take(i as int)),
        decreases n - i,
    {
        let acc = &state.accounts[i];
        push_bytes(&mut out, acc.address.as_str().as_bytes());
        out.push(58);
        push_dec(&mut out, acc.balance);
        out.push(59);
        i = i + 1;
        proof {
            assert(state.accounts@.take(i as int).drop_last() =~= state.accounts@.take(
                i as int - 1,
            ));
            assert(state.accounts@.take(i as int).last() == state.accounts@[i as int - 1]);
            assert(out@ =~= accounts_bytes(state.accounts@.take(i as int)));
        }
    }
    proof {
        assert(state.accounts@.take(n as int) =~= state.accounts@);
    }
    digest_hex(&out)
}

/// The execution decision for a transaction against a ledger snapshot: `Ok`
/// exactly when the kind's effect can be applied in full, and otherwise the
/// error naming what stops it. Kinds without a defined effect (every kind
/// other than Send, Burn and Coinbase) are rejected as `InvalidType`.
pub open spec fn execute_decision(tx: Transaction, accounts: Seq<Account>) -> Result<
    (),
    TxError,
> {
    match TxType::from_flag_spec(tx.type_flag) {
        Some(TxType::Send) => match bal_of(accounts, tx.sender@) {
            None => Err(TxError::AccountNotFound),
            Some(sb) => if sb < tx.amount {
                Err(TxError::InsufficientFunds)
            } else if tx.sender@ == tx.reciver@ {
                Ok(())
            } else if bal_or_zero(accounts, tx.reciver@) + tx.amount > u64::MAX {
                Err(TxError::InvalidAmount)
            } else {
                Ok(())
            },
        },
        Some(TxType::Burn) => match bal_of(accounts, tx.sender@) {
            None => Err(TxError::AccountNotFound),
            Some(sb) => if sb < tx.amount {
                Err(TxError::InsufficientFunds)
            } else {
                Ok(())
            },
        },
        Some(TxType::Coinbase) => if bal_or_zero(accounts, tx.reciver@) + tx.amount > u64::MAX {
            Err(TxError::InvalidAmount)
        } else {
            Ok(())
        },
        _ => Err(TxError::InvalidType),
    }
}

/// A Send's effect: the amount moves from the sender's balance to the
/// receiver's (a receiver without a record is created holding the amount),
/// every other balance is unchanged, and the total supply is conserved.
/// A transaction whose sender and receiver coincide moves nothing.
pub open spec fn send_applied(tx: Transaction, o: Seq<Account>, n: Seq<Account>) -> bool {
    if tx.sender@ == tx.reciver@ {
        n == o
    } else {
        &&& bal_of(n, tx.sender@) == Some((bal_or_zero(o, tx.sender@) - tx.amount) as u64)
        &&& bal_of(n, tx.reciver@) == Some((bal_or_zero(o, tx.reciver@) + tx.amount) as u64)
        &&& forall|a: Seq<char>|
            a != tx.sender@ && a != tx.reciver@ ==> bal_of(n, a) == bal_of(o, a)
        &&& total(n) == total(o)
    }
}

/// A Burn's effect: the amount is destroyed out of the sender's balance,
/// every other balance is unchanged, and the total supply shrinks by exactly
/// the amount.
pub open spec fn burn_applied(tx: Transaction, o: Seq<Account>, n: Seq<Account>) -> bool {
    &&& bal_of(n, tx.sender@) == Some((bal_or_zero(o, tx.sender@) - tx.amount) as u64)
    &&& forall|a: Seq<char>| a != tx.sender@ ==> bal_of(n, a) == bal_of(o, a)
    &&& total(n) == total(o) - tx.amount
}

/// A Coinbase's effect: the amount is minted into the receiver's balance (a
/// receiver without a record is created holding the amount), every other
/// balance is unchanged, and the total supply grows by exactly the amount.
pub open spec fn coinbase_applied(tx: Transaction, o: Seq<Account>, n: Seq<Account>) -> bool {
    &&& bal_of(n, tx.reciver@) == Some((bal_or_zero(o, tx.reciver@) + tx.amount) as u64)
    &&& forall|a: Seq<char>| a != tx.reciver@ ==> bal_of(n, a) == bal_of(o, a)
    &&& total(n) == total(o) + tx.amount
}

/// The fixed fee component of each transaction kind.
pub open spec fn base_fee_spec(flag: u8) -> u64 {
    match TxType::from_flag_spec(flag) {
        Some(TxType::Send) => 10,
        Some(TxType::Burn) => 8,
        Some(TxType::ToggleOnline) => 4,
        Some(TxType::EvidenceTxn) => 12,
        Some(TxType::DelegateTx) => 10,
        Some(TxType::CallContract) => 20,
        Some(TxType::CreateChain) => 50,
        Some(TxType::Coinbase) => 0,
        None => 0,
    }
}

/// The fee of a transaction: the kind's fixed component plus one unit per
/// payload character, saturating at the largest representable fee. A pure
/// function of kind and size; identical on every node.
pub open spec fn cost_spec(tx: Transaction) -> u64 {
    if base_fee_spec(tx.type_flag) + tx.payload@.len() > u64::MAX {
        u64::MAX
    } else {
        (base_fee_spec(tx.type_flag) + tx.payload@.len()) as u64
    }
}

impl Transaction {
    /// Executes this transaction: applies its kind's effect to the
    /// caller-owned state context, records the recomputed identity digest in
    /// the persisted index, advances the transaction counter, and returns
    /// the digest of the resulting state. On any failure nothing is applied
    /// and nothing is recorded: the context and the index are exactly as
    /// they were, so a speculative context can simply be discarded.
    pub fn execute(&self, state: &mut GlobalState, index: &mut TxIndex) -> (r: Result<
        String,
        TxError,
    >)
        requires
            old(index).count < u64::MAX,
        ensures
            r is Ok <==> execute_decision(*self, old(state).accounts@) is Ok,
            (execute_decision(*self, old(state).accounts@) matches Err(e) ==> r == Err::<
                String,
                TxError,
            >(e)),
            r is Err ==> final(state).accounts@ == old(state).accounts@ && final(index).hashes@
                == old(index).hashes@ && final(index).count == old(index).count,
            r is Ok ==> {
                &&& (TxType::from_flag_spec(self.type_flag) == Some(TxType::Send)
                    ==> send_applied(*self, old(state).accounts@, final(state).accounts@))
                &&& (TxType::from_flag_spec(self.type_flag) == Some(TxType::Burn)
                    ==> burn_applied(*self, old(state).accounts@, final(state).accounts@))
                &&& (TxType::from_flag_spec(self.type_flag) == Some(TxType::Coinbase)
                    ==> coinbase_applied(*self, old(state).accounts@, final(state).accounts@))
                &&& final(index).count == old(index).count + 1
                &&& (forall|x: Seq<char>|
                    contains_hash(final(index).hashes@, x) == (contains_hash(
                        old(index).hashes@,
                        x,
                    ) || x == spec_tx_digest(*self)))
            },
            (r matches Ok(d) ==> d@ == state_digest(final(state).accounts@)),
    {
        let h = self.hash_item();
        match TxType::from_flag(self.type_flag) {
            Some(TxType::Send) => {
                match state.get_balance(&self.sender) {
                    None => Err(TxError::AccountNotFound),
                    Some(sb) => {
                        if sb < self.amount {
                            Err(TxError::InsufficientFunds)
                        } else if self.sender == self.reciver {
                            index.record(&h);
                            Ok(state_digest_hex(state))
                        } else {
                            let rb = match state.get_balance(&self.reciver) {
                                Some(b) => b,
                                None => 0,
                            };
                            if rb > u64::MAX - self.amount {
                                Err(TxError::InvalidAmount)
                            } else {
                                state.set_balance(&self.sender, sb - self.amount);
                                state.set_balance(&self.reciver, rb + self.amount);
                                index.record(&h);
                                proof {
                                    assert(send_applied(
                                        *self,
                                        old(state).accounts@,
                                        state.accounts@,
                                    ));
                                }
                                Ok(state_digest_hex(state))
                            }
                        }
                    },
                }
            },
            Some(TxType::Burn) => {
                match state.get_balance(&self.sender) {
                    None => Err(TxError::AccountNotFound),
                    Some(sb) => {
                        if sb < self.amount {
                            Err(TxError::InsufficientFunds)
                        } else {
                            state.set_balance(&self.sender, sb - self.amount);
                            index.record(&h);
                            proof {
                                assert(burn_applied(*self, old(state).accounts@, state.accounts@));
                            }
                            Ok(state_digest_hex(state))
                        }
                    },
                }
            },
            Some(TxType::Coinbase) => {
                let rb = match state.get_balance(&self.reciver) {
                    Some(b) => b,
                    None => 0,
                };
                if rb > u64::MAX - self.amount {
                    Err(TxError::InvalidAmount)
                } else {
                    state.set_balance(&self.reciver, rb + self.amount);
                    index.record(&h);
                    proof {
                        assert(coinbase_applied(*self, old(state).accounts@, state.accounts@));
                    }
                    Ok(state_digest_hex(state))
                }
            },
            _ => Err(TxError::InvalidType),
        }
    }

    /// The fee of this transaction: the kind's fixed component plus one unit
    /// per payload character, saturating at the largest representable fee.
    /// Reads and writes no state.
    pub fn cost(&self) -> (r: u64)
        ensures
            r == cost_spec(*self),
    {
        let base: u64 = match TxType::from_flag(self.type_flag) {
            Some(TxType::Send) => 10,
            Some(TxType::Burn) => 8,
            Some(TxType::ToggleOnline) => 4,
            Some(TxType::EvidenceTxn) => 12,
            Some(TxType::DelegateTx) => 10,
            Some(TxType::CallContract) => 20,
            Some(TxType::CreateChain) => 50,
            Some(TxType::Coinbase) => 0,
            None => 0,
        };
        let size = self.payload.as_str().unicode_len();
        if size as u64 > u64::MAX - base {
            u64::MAX
        } else {
            base + size as u64
        }
    }
}

} // verus!
