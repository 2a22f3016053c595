use txengine::execute::state_digest_hex;
use txengine::state::{GlobalState, Mempool, TxIndex};
use txengine::transaction::Transaction;
use txengine::TxError;

fn addr(c: char) -> String {
    let mut s = String::new();
    for _ in 0..64 {
        s.push(c);
    }
    s
}

/// A signed Send with found proof of work, ready to validate.
fn ready_send(sender: char, receiver: char, amount: u64) -> Transaction {
    let mut tx = Transaction::new(addr(sender), addr(receiver), amount, 0, String::new());
    tx.find_pow();
    tx.sign();
    tx
}

fn total_of(state: &GlobalState, addresses: &[String]) -> u128 {
    addresses.iter().map(|a| state.get_balance(a).unwrap_or(0) as u128).sum()
}

#[test]
fn end_to_end_send_scenario() {
    let a = addr('a');
    let b = addr('b');
    let mut state = GlobalState::new();
    state.add_account(a.clone(), 100);
    let mempool = Mempool::new();
    let mut index = TxIndex::new();

    let tx = ready_send('a', 'b', 40);
    assert_eq!(tx.validate(&mempool, &index, &state), Ok(()));
    // Validation is side-effect-free: repeating it yields the same decision.
    assert_eq!(tx.validate(&mempool, &index, &state), Ok(()));

    let digest = tx.execute(&mut state, &mut index).expect("execution failed");
    assert_eq!(digest.len(), 64);
    assert_eq!(state.get_balance(&a), Some(60));
    assert_eq!(state.get_balance(&b), Some(40));
    assert!(index.contains(&tx.hash_item()));
    assert_eq!(index.count, 1);

    // Idempotent rejection: the identical transaction is now rejected.
    assert_eq!(tx.validate(&mempool, &index, &state), Err(TxError::AlreadyCommitted));
}

#[test]
fn tampered_amount_fails_with_invalid_signature() {
    let mut state = GlobalState::new();
    state.add_account(addr('a'), 100);
    let mempool = Mempool::new();
    let index = TxIndex::new();

    let mut tx = ready_send('a', 'b', 40);
    assert_eq!(tx.validate(&mempool, &index, &state), Ok(()));

    // Tamper with the amount after signing, and re-mine the proof of work so
    // that every other check would pass on its own.
    tx.amount = 90;
    tx.find_pow();
    assert!(tx.verify());
    assert_eq!(tx.validate(&mempool, &index, &state), Err(TxError::InvalidSignature));
}

#[test]
fn unsigned_transaction_is_rejected() {
    let mut state = GlobalState::new();
    state.add_account(addr('a'), 100);
    let mut tx = Transaction::new(addr('a'), addr('b'), 40, 0, String::new());
    tx.find_pow();
    assert_eq!(
        tx.validate(&Mempool::new(), &TxIndex::new(), &state),
        Err(TxError::InvalidSignature)
    );
}

#[test]
fn missing_proof_of_work_is_rejected() {
    let mut state = GlobalState::new();
    state.add_account(addr('a'), 100);
    let mut tx = Transaction::new(addr('a'), addr('b'), 40, 0, String::new());
    tx.sign();
    assert_eq!(
        tx.validate(&Mempool::new(), &TxIndex::new(), &state),
        Err(TxError::InvalidProofOfWork)
    );
}

#[test]
fn pending_transaction_is_rejected() {
    let mut state = GlobalState::new();
    state.add_account(addr('a'), 100);
    let tx = ready_send('a', 'b', 40);
    let mut mempool = Mempool::new();
    mempool.insert(tx.hash_item());
    assert_eq!(
        tx.validate(&mempool, &TxIndex::new(), &state),
        Err(TxError::AlreadyPending)
    );
}

#[test]
fn short_sender_is_rejected() {
    let mut tx = Transaction::new(String::from("ab"), addr('b'), 40, 0, String::new());
    tx.find_pow();
    tx.sign();
    assert_eq!(
        tx.validate(&Mempool::new(), &TxIndex::new(), &GlobalState::new()),
        Err(TxError::InvalidSender)
    );
}

#[test]
fn short_receiver_is_rejected_for_send() {
    let mut tx = Transaction::new(addr('a'), String::from("b"), 40, 0, String::new());
    tx.find_pow();
    tx.sign();
    assert_eq!(
        tx.validate(&Mempool::new(), &TxIndex::new(), &GlobalState::new()),
        Err(TxError::InvalidReceiver)
    );
}

#[test]
fn unknown_sender_account_is_rejected() {
    let tx = ready_send('a', 'b', 40);
    assert_eq!(
        tx.validate(&Mempool::new(), &TxIndex::new(), &GlobalState::new()),
        Err(TxError::AccountNotFound)
    );
}

#[test]
fn insufficient_funds_are_rejected() {
    let mut state = GlobalState::new();
    state.add_account(addr('a'), 39);
    let tx = ready_send('a', 'b', 40);
    assert_eq!(
        tx.validate(&Mempool::new(), &TxIndex::new(), &state),
        Err(TxError::InsufficientFunds)
    );
}

#[test]
fn unsupported_and_unrecognized_kinds_are_rejected() {
    let mut state = GlobalState::new();
    state.add_account(addr('a'), 100);
    // ToggleOnline is recognized but has no admission rule in this engine.
    let mut toggle = Transaction::new(addr('a'), addr('b'), 0, 2, String::new());
    toggle.find_pow();
    toggle.sign();
    assert_eq!(
        toggle.validate(&Mempool::new(), &TxIndex::new(), &state),
        Err(TxError::InvalidType)
    );
    // Tag nine names no kind at all.
    let mut unknown = Transaction::new(addr('a'), addr('b'), 0, 9, String::new());
    unknown.find_pow();
    unknown.sign();
    assert_eq!(
        unknown.validate(&Mempool::new(), &TxIndex::new(), &state),
        Err(TxError::InvalidType)
    );
}

#[test]
fn send_conserves_total_supply() {
    let a = addr('a');
    let b = addr('b');
    let c = addr('c');
    let mut state = GlobalState::new();
    state.add_account(a.clone(), 100);
    state.add_account(c.clone(), 7);
    let mut index = TxIndex::new();
    let before = total_of(&state, &[a.clone(), b.clone(), c.clone()]);

    let tx = ready_send('a', 'b', 40);
    tx.execute(&mut state, &mut index).expect("execution failed");

    assert_eq!(state.get_balance(&a), Some(60));
    assert_eq!(state.get_balance(&b), Some(40));
    assert_eq!(state.get_balance(&c), Some(7));
    assert_eq!(total_of(&state, &[a, b, c]), before);
}

#[test]
fn burn_destroys_exactly_the_amount() {
    let a = addr('a');
    let mut state = GlobalState::new();
    state.add_account(a.clone(), 100);
    let mut index = TxIndex::new();

    let mut tx = Transaction::new(a.clone(), String::new(), 30, 1, String::new());
    tx.find_pow();
    tx.sign();
    assert_eq!(tx.validate(&Mempool::new(), &index, &state), Ok(()));
    tx.execute(&mut state, &mut index).expect("execution failed");
    assert_eq!(state.get_balance(&a), Some(70));
    assert_eq!(total_of(&state, &[a]), 70);
}

#[test]
fn coinbase_mints_exactly_the_amount() {
    let b = addr('b');
    let mut state = GlobalState::new();
    let mut index = TxIndex::new();

    let tx = Transaction::new(String::new(), b.clone(), 50, 7, String::new());
    tx.execute(&mut state, &mut index).expect("execution failed");
    assert_eq!(state.get_balance(&b), Some(50));
    assert_eq!(total_of(&state, &[b]), 50);
}

#[test]
fn overflowing_credit_fails_and_applies_nothing() {
    let b = addr('b');
    let mut state = GlobalState::new();
    state.add_account(b.clone(), u64::MAX - 10);
    let mut index = TxIndex::new();

    let tx = Transaction::new(String::new(), b.clone(), 20, 7, String::new());
    assert_eq!(tx.execute(&mut state, &mut index), Err(TxError::InvalidAmount));
    assert_eq!(state.get_balance(&b), Some(u64::MAX - 10));
    assert_eq!(index.count, 0);
}

#[test]
fn failed_execution_leaves_state_and_index_unchanged() {
    let a = addr('a');
    let mut state = GlobalState::new();
    state.add_account(a.clone(), 10);
    let mut index = TxIndex::new();

    let tx = ready_send('a', 'b', 40);
    assert_eq!(tx.execute(&mut state, &mut index), Err(TxError::InsufficientFunds));
    assert_eq!(state.get_balance(&a), Some(10));
    assert_eq!(state.get_balance(&addr('b')), None);
    assert_eq!(index.count, 0);
    assert!(!index.contains(&tx.hash_item()));
}

#[test]
fn discarding_a_speculative_context_leaves_other_contexts_unchanged() {
    let a = addr('a');
    let b = addr('b');
    // The durably persisted ledger, and a speculative snapshot of it.
    let mut persisted = GlobalState::new();
    persisted.add_account(a.clone(), 100);
    let mut speculative = GlobalState::new();
    speculative.add_account(a.clone(), 100);
    let mut index = TxIndex::new();

    let tx = ready_send('a', 'b', 40);
    tx.execute(&mut speculative, &mut index).expect("execution failed");
    assert_eq!(speculative.get_balance(&a), Some(60));
    assert_eq!(speculative.get_balance(&b), Some(40));

    // Discard the speculative snapshot: the persisted ledger never moved.
    drop(speculative);
    assert_eq!(persisted.get_balance(&a), Some(100));
    assert_eq!(persisted.get_balance(&b), None);
}

#[test]
fn execution_returns_the_digest_of_the_new_state() {
    let a = addr('a');
    let mut state = GlobalState::new();
    state.add_account(a.clone(), 100);
    let mut index = TxIndex::new();
    let tx = ready_send('a', 'b', 40);
    let digest = tx.execute(&mut state, &mut index).expect("execution failed");

    // The same records in another snapshot give the same digest.
    let mut replica = GlobalState::new();
    replica.add_account(a.clone(), 60);
    replica.add_account(addr('b'), 40);
    assert_eq!(digest, state_digest_hex(&replica));

    // A snapshot with different balances gives a different digest.
    let mut other = GlobalState::new();
    other.add_account(a, 100);
    assert_ne!(digest, state_digest_hex(&other));
}
