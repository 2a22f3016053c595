use txengine::transaction::{Transaction, TxType};

fn addr(c: char) -> String {
    let mut s = String::new();
    for _ in 0..64 {
        s.push(c);
    }
    s
}

#[test]
fn hash_is_deterministic_across_field_identical_transactions() {
    let a = Transaction::new(addr('a'), addr('b'), 40, 0, String::from("abcd"));
    let b = Transaction::new(addr('a'), addr('b'), 40, 0, String::from("abcd"));
    assert_eq!(a.hash, b.hash);
    assert_eq!(a.hash_item(), b.hash_item());
    // Recomputing twice on the same value yields the same digest.
    assert_eq!(a.hash_item(), a.hash_item());
}

#[test]
fn hash_is_64_lowercase_hex_characters() {
    let a = Transaction::new(addr('a'), addr('b'), 40, 0, String::new());
    assert_eq!(a.hash.len(), 64);
    assert!(a.hash.chars().all(|c| c.is_ascii_hexdigit() && !c.is_ascii_uppercase()));
}

#[test]
fn hash_changes_when_a_field_changes() {
    let a = Transaction::new(addr('a'), addr('b'), 40, 0, String::new());
    let b = Transaction::new(addr('a'), addr('b'), 41, 0, String::new());
    assert_ne!(a.hash, b.hash);
}

#[test]
fn search_pow_success_is_accepted_by_verify() {
    let mut tx = Transaction::new(addr('a'), addr('b'), 40, 0, String::new());
    let found = tx.search_pow(u64::MAX).expect("search gave up");
    assert!(found.hash.starts_with("0000"));
    tx.nonce = found.nonce;
    tx.pow = found.hash.clone();
    assert!(tx.verify());
}

#[test]
fn find_pow_installs_a_verifying_proof() {
    let mut tx = Transaction::new(addr('a'), addr('b'), 40, 0, String::new());
    tx.find_pow();
    assert!(tx.pow.starts_with("0000"));
    assert_eq!(tx.pow, tx.hash);
    assert!(tx.verify());
}

#[test]
fn verify_rejects_a_digest_without_the_zero_prefix() {
    let mut tx = Transaction::new(addr('a'), addr('b'), 40, 0, String::new());
    // A claimed proof that does not meet the difficulty predicate.
    tx.pow = String::from("1234abc1234abc1234abc1234abc1234abc1234abc1234abc1234abc1234abcd");
    assert!(!tx.verify());
}

#[test]
fn verify_rejects_a_stale_proof_after_a_field_change() {
    let mut tx = Transaction::new(addr('a'), addr('b'), 40, 0, String::new());
    tx.find_pow();
    assert!(tx.verify());
    tx.amount = 41;
    assert!(!tx.verify());
}

#[test]
fn signing_covers_the_recomputed_hash() {
    let mut tx = Transaction::new(addr('a'), addr('b'), 40, 0, String::new());
    tx.sign();
    assert_eq!(tx.signature.len(), 64);
    let again = {
        let mut t = Transaction::new(addr('a'), addr('b'), 40, 0, String::new());
        t.sign();
        t
    };
    assert_eq!(tx.signature, again.signature);
}

#[test]
fn type_flags_round_trip() {
    let kinds = [
        TxType::Send,
        TxType::Burn,
        TxType::ToggleOnline,
        TxType::EvidenceTxn,
        TxType::DelegateTx,
        TxType::CallContract,
        TxType::CreateChain,
        TxType::Coinbase,
    ];
    for (i, k) in kinds.iter().enumerate() {
        assert_eq!(k.flag(), i as u8);
        assert_eq!(TxType::from_flag(i as u8), Some(*k));
    }
    assert_eq!(TxType::from_flag(8), None);
    assert_eq!(TxType::from_flag(255), None);
}

#[test]
fn cost_is_base_fee_plus_payload_size() {
    let send = Transaction::new(addr('a'), addr('b'), 40, 0, String::from("abcd"));
    assert_eq!(send.cost(), 14);
    let burn = Transaction::new(addr('a'), String::new(), 40, 1, String::new());
    assert_eq!(burn.cost(), 8);
    let coinbase = Transaction::new(String::new(), addr('b'), 50, 7, String::new());
    assert_eq!(coinbase.cost(), 0);
    let call = Transaction::new(addr('a'), addr('b'), 0, 5, String::from("ff"));
    assert_eq!(call.cost(), 22);
}
