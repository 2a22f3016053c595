//! The read-only collaborators of validation and the mutable context of
//! execution: the account ledger snapshot, the mempool's pending set, and the
//! persisted transaction index with its monotonic counter.
//!
//! The ledger snapshot is caller-owned and discardable: execution mutates the
//! instance it is handed, so speculative work can be thrown away without
//! touching any other snapshot.

use vstd::prelude::*;

verus! {

/// One account record: an address and its balance.
#[derive(Clone, Debug)]
pub struct Account {
    /// The account's address.
    pub address: String,
    /// The account's balance.
    pub balance: u64,
}

/// The balance recorded for an address: the balance of the first record with
/// that address, or `None` when no record has it.
pub open spec fn bal_of(s: Seq<Account>, a: Seq<char>) -> Option<u64>
    decreases s.len(),
{
    if s.len() == 0 {
        None
    } else if s[0].address@ == a {
        Some(s[0].balance)
    } else {
        bal_of(s.drop_first(), a)
    }
}

/// The balance recorded for an address, with a missing record counted as zero.
pub open spec fn bal_or_zero(s: Seq<Account>, a: Seq<char>) -> int {
    match bal_of(s, a) {
        Some(b) => b as int,
        None => 0,
    }
}

/// The total supply held by a ledger snapshot: the sum of all balances.
pub open spec fn total(s: Seq<Account>) -> int
    decreases s.len(),
{
    if s.len() == 0 {
        0
    } else {
        s[0].balance + total(s.drop_first())
    }
}

/// An address none of whose records exist has no balance.
pub proof fn lemma_bal_none(s: Seq<Account>, a: Seq<char>)
    requires
        forall|j: int| 0 <= j < s.len() ==> s[j].address@ != a,
    ensures
        bal_of(s, a) is None,
    decreases s.len(),
{
    if s.len() > 0 {
        assert(forall|j: int| 0 <= j < s.drop_first().len() ==> s.drop_first()[j] == s[j + 1]);
        lemma_bal_none(s.drop_first(), a);
    }
}

/// The first record with an address determines the balance read for it.
pub proof fn lemma_bal_first(s: Seq<Account>, i: int)
    requires
        0 <= i < s.len(),
        forall|j: int| 0 <= j < i ==> s[j].address@ != s[i].address@,
    ensures
        bal_of(s, s[i].address@) == Some(s[i].balance),
    decreases s.len(),
{
    if i > 0 {
        assert(forall|j: int| 0 <= j < s.drop_first().len() ==> s.drop_first()[j] == s[j + 1]);
        lemma_bal_first(s.drop_first(), i - 1);
    }
}

/// Replacing the first record with an address changes the balance read for
/// that address and no other.
pub proof fn lemma_bal_update(s: Seq<Account>, i: int, acc: Account)
    requires
        0 <= i < s.len(),
        forall|j: int| 0 <= j < i ==> s[j].address@ != s[i].address@,
        acc.address@ == s[i].address@,
    ensures
        bal_of(s.update(i, acc), s[i].address@) == Some(acc.balance),
        forall|a: Seq<char>| a != s[i].address@ ==> bal_of(s.update(i, acc), a) == bal_of(s, a),
    decreases s.len(),
{
    let t = s.update(i, acc);
    if i == 0 {
        assert(t[0] == acc);
        assert(t.drop_first() =~= s.drop_first());
        assert forall|a: Seq<char>| a != s[i].address@ implies bal_of(t, a) == bal_of(s, a) by {
            assert(bal_of(t, a) == bal_of(t.drop_first(), a));
            assert(bal_of(s, a) == bal_of(s.drop_first(), a));
        }
    } else {
        assert(t[0] == s[0]);
        assert(t.drop_first() =~= s.drop_first().update(i - 1, acc));
        assert(forall|j: int| 0 <= j < s.drop_first().len() ==> s.drop_first()[j] == s[j + 1]);
        assert(s.drop_first()[i - 1] == s[i]);
        lemma_bal_update(s.drop_first(), i - 1, acc);
        assert(bal_of(t, s[i].address@) == bal_of(t.drop_first(), s[i].address@));
        assert forall|a: Seq<char>| a != s[i].address@ implies bal_of(t, a) == bal_of(s, a) by {
            if s[0].address@ != a {
                assert(bal_of(t, a) == bal_of(t.drop_first(), a));
                assert(bal_of(s, a) == bal_of(s.drop_first(), a));
            }
        }
    }
}

/// Replacing one record moves the total supply by the difference of the
/// balances.
pub proof fn lemma_total_update(s: Seq<Account>, i: int, acc: Account)
    requires
        0 <= i < s.len(),
    ensures
        total(s.update(i, acc)) == total(s) - s[i].balance + acc.balance,
    decreases s.len(),
{
    let t = s.update(i, acc);
    if i == 0 {
        assert(t[0] == acc);
        assert(t.drop_first() =~= s.drop_first());
    } else {
        assert(t[0] == s[0]);
        assert(t.drop_first() =~= s.drop_first().update(i - 1, acc));
        lemma_total_update(s.drop_first(), i - 1, acc);
        assert(s.drop_first()[i - 1] == s[i]);
    }
}

/// Appending a record adds its balance to the total supply.
pub proof fn lemma_total_push(s: Seq<Account>, acc: Account)
    ensures
        total(s.push(acc)) == total(s) + acc.balance,
    decreases s.len(),
{
    let t = s.push(acc);
    if s.len() == 0 {
        assert(t[0] == acc);
        assert(t.drop_first() =~= Seq::<Account>::empty());
        assert(total(t.drop_first()) == 0);
        assert(total(t) == acc.balance + total(t.drop_first()));
        assert(total(s) == 0);
    } else {
        assert(t[0] == s[0]);
        assert(t.drop_first() =~= s.drop_first().push(acc));
        lemma_total_push(s.drop_first(), acc);
        assert(total(t) == t[0].balance + total(t.drop_first()));
        assert(total(s) == s[0].balance + total(s.drop_first()));
    }
}

/// Appending a record leaves every already-recorded balance unchanged, and
/// gives the new record's address its balance where no record had it.
pub proof fn lemma_bal_push(s: Seq<Account>, acc: Account, a: Seq<char>)
    ensures
        bal_of(s.push(acc), a) == (if bal_of(s, a) is Some {
            bal_of(s, a)
        } else if a == acc.address@ {
            Some(acc.balance)
        } else {
            None::<u64>
        }),
    decreases s.len(),
{
    let t = s.push(acc);
    if s.len() == 0 {
        assert(t[0] == acc);
        assert(t.drop_first() =~= Seq::<Account>::empty());
        assert(bal_of(s, a) is None);
        if a != acc.address@ {
            assert(bal_of(t, a) == bal_of(t.drop_first(), a));
            assert(bal_of(t.drop_first(), a) is None);
        }
    } else {
        assert(t[0] == s[0]);
        assert(t.drop_first() =~= s.drop_first().push(acc));
        lemma_bal_push(s.drop_first(), acc, a);
        if s[0].address@ != a {
            assert(bal_of(t, a) == bal_of(t.drop_first(), a));
            assert(bal_of(s, a) == bal_of(s.drop_first(), a));
        }
    }
}

/// A mutable, discardable snapshot of account balances: the context that
/// execution mutates.
pub struct GlobalState {
    /// The account records of the snapshot.
    pub accounts: Vec<Account>,
}

impl GlobalState {
    /// An empty snapshot: no account has a record.
    pub fn new() -> (s: GlobalState)
        ensures
            s.accounts@ == Seq::<Account>::empty(),
    {
        GlobalState { accounts: Vec::new() }
    }

    /// Appends an account record to the snapshot.
    pub fn add_account(&mut self, address: String, balance: u64)
        ensures
            final(self).accounts@ == old(self).accounts@.push(
                (Account { address: address, balance: balance }),
            ),
    {
        self.accounts.push(Account { address, balance });
    }

    /// The balance recorded for an address, or `None` when the address has
    /// no record.
    pub fn get_balance(&self, address: &String) -> (r: Option<u64>)
        ensures
            r == bal_of(self.accounts@, address@),
    {
        let n = self.accounts.len();
        let mut i: usize = 0;
        while i < n
            invariant
                n == self.accounts@.len(),
                i <= n,
                forall|j: int| 0 <= j < i ==> self.accounts@[j].address@ != address@,
            decreases n - i,
        {
            let acc = &self.accounts[i];
            if acc.address == *address {
                proof {
                    lemma_bal_first(self.accounts@, i as int);
                }
                return Some(acc.balance);
            }
            i = i + 1;
        }
        proof {
            lemma_bal_none(self.accounts@, address@);
        }
        None
    }

    /// Sets the balance recorded for an address: replaces the first record
    /// with that address, or appends one when none exists. Every other
    /// address keeps its balance; the total supply moves by the difference
    /// against the previous (or zero) balance.
    pub fn set_balance(&mut self, address: &String, balance: u64)
        ensures
            bal_of(final(self).accounts@, address@) == Some(balance),
            forall|a: Seq<char>|
                a != address@ ==> bal_of(final(self).accounts@, a) == bal_of(old(self).accounts@, a),
            total(final(self).accounts@) == total(old(self).accounts@) - bal_or_zero(
                old(self).accounts@,
                address@,
            ) + balance,
    {
        let ghost s0 = self.accounts@;
        let n = self.accounts.len();
        let mut i: usize = 0;
        while i < n
            invariant
                self.accounts@ == s0,
                old(self).accounts@ == s0,
                n == s0.len(),
                i <= n,
                forall|j: int| 0 <= j < i ==> s0[j].address@ != address@,
            decreases n - i,
        {
            if self.accounts[i].address == *address {
                let mut acc = self.accounts.remove(i);
                acc.balance = balance;
                self.accounts.insert(i, acc);
                proof {
                    assert(self.accounts@ =~= s0.update(i as int, acc));
                    assert(s0[i as int].address@ == address@);
                    lemma_bal_first(s0, i as int);
                    lemma_bal_update(s0, i as int, acc);
                    lemma_total_update(s0, i as int, acc);
                    assert(bal_of(self.accounts@, address@) == Some(balance));
                    assert(bal_or_zero(s0, address@) == s0[i as int].balance);
                    assert(total(self.accounts@) == total(s0) - bal_or_zero(s0, address@)
                        + balance);
                    assert forall|a: Seq<char>| a != address@ implies bal_of(
                        self.accounts@,
                        a,
                    ) == bal_of(s0, a) by {
                        assert(bal_of(s0.update(i as int, acc), a) == bal_of(s0, a));
                    }
                }
                return;
            }
            i = i + 1;
        }
        let acc = Account { address: address.clone(), balance };
        self.accounts.push(acc);
        proof {
            lemma_bal_none(s0, address@);
            lemma_total_push(s0, acc);
            lemma_bal_push(s0, acc, address@);
            assert forall|a: Seq<char>| a != address@ implies bal_of(
                self.accounts@,
                a,
            ) == bal_of(s0, a) by {
                lemma_bal_push(s0, acc, a);
            }
        }
    }
}

/// Whether a sequence of hash strings holds a given digest.
pub open spec fn contains_hash(s: Seq<String>, h: Seq<char>) -> bool {
    exists|i: int| 0 <= i < s.len() && s[i]@ == h
}

/// Whether a vector of hash strings holds a given digest.
fn contains_str(v: &Vec<String>, h: &String) -> (r: bool)
    ensures
        r == contains_hash(v@, h@),
{
    let n = v.len();
    let mut i: usize = 0;
    while i < n
        invariant
            n == v@.len(),
            i <= n,
            forall|j: int| 0 <= j < i ==> v@[j]@ != h@,
        decreases n - i,
    {
        if v[i] == *h {
            assert(contains_hash(v@, h@));
            return true;
        }
        i = i + 1;
    }
    assert(!contains_hash(v@, h@));
    false
}

/// The mempool's pending set, consumed read-only by validation: a lookup of
/// transaction hashes awaiting commitment.
pub struct Mempool {
    /// The pending transaction hashes.
    pub pending: Vec<String>,
}

impl Mempool {
    /// An empty pending set.
    pub fn new() -> (m: Mempool)
        ensures
            m.pending@ == Seq::<String>::empty(),
    {
        Mempool { pending: Vec::new() }
    }

    /// Records a hash as pending.
    pub fn insert(&mut self, h: String)
        ensures
            final(self).pending@ == old(self).pending@.push(h),
    {
        self.pending.push(h);
    }

    /// Whether a hash is pending.
    pub fn lookup(&self, h: &String) -> (r: bool)
        ensures
            r == contains_hash(self.pending@, h@),
    {
        contains_str(&self.pending, h)
    }
}

/// The persisted transaction index: the durable record of committed
/// transaction hashes, with the monotonically increasing transaction counter
/// execution advances.
pub struct TxIndex {
    /// The committed transaction hashes.
    pub hashes: Vec<String>,
    /// The number of committed transactions.
    pub count: u64,
}

impl TxIndex {
    /// An empty index: nothing committed, counter at zero.
    pub fn new() -> (t: TxIndex)
        ensures
            t.hashes@ == Seq::<String>::empty(),
            t.count == 0,
    {
        TxIndex { hashes: Vec::new(), count: 0 }
    }

    /// Whether a hash is recorded as committed.
    pub fn contains(&self, h: &String) -> (r: bool)
        ensures
            r == contains_hash(self.hashes@, h@),
    {
        contains_str(&self.hashes, h)
    }

    /// Records a hash as committed and advances the transaction counter.
    pub fn record(&mut self, h: &String)
        requires
            old(self).count < u64::MAX,
        ensures
            final(self).count == old(self).count + 1,
            final(self).hashes@ == old(self).hashes@.push(*h),
            forall|x: Seq<char>|
                contains_hash(final(self).hashes@, x) == (contains_hash(old(self).hashes@, x) || x
                    == h@),
    {
        let c = h.clone();
        self.hashes.push(c);
        self.count = self.count + 1;
        proof {
            assert(self.hashes@ =~= old(self).hashes@.push(*h));
            assert forall|x: Seq<char>|
                contains_hash(self.hashes@, x) == (contains_hash(old(self).hashes@, x) || x
                    == h@) by {
                let s = old(self).hashes@;
                if contains_hash(s, x) {
                    let j = choose|j: int| 0 <= j < s.len() && s[j]@ == x;
                    assert(self.hashes@[j]@ == x);
                } else if x == h@ {
                    assert(self.hashes@[s.len() as int]@ == x);
                } else {
                    if contains_hash(self.hashes@, x) {
                        let j = choose|j: int|
                            0 <= j < self.hashes@.len() && self.hashes@[j]@ == x;
                        assert(0 <= j < s.len() + 1);
                        if j < s.len() {
                            assert(s[j]@ == x);
                        }
                    }
                }
            }
        }
    }
}

} // verus!
