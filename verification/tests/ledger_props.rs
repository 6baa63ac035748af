use blocksim::ledger::Account;
use blocksim::ledger::BlockchainState;
use blocksim::ledger::TransferError;
use blocksim::transaction::Transaction;

#[test]
fn account_contract_deployment() {
    let mut account = Account::new("alice".to_string(), 42);
    assert_eq!(account.address, "alice");
    assert_eq!(account.balance, 42);
    assert_eq!(account.nonce, 0);
    assert!(!account.is_contract());

    account.deploy_contract("code".to_string());
    assert!(account.is_contract());
    assert_eq!(account.contract_code, Some("code".to_string()));
}

#[test]
fn transfer_moves_exact_amount() {
    let mut state = BlockchainState::new();
    state.create_account("alice".to_string(), 1000);
    state.create_account("bob".to_string(), 500);

    assert!(state.transfer("alice", "bob", 100).is_ok());

    assert_eq!(state.get_balance("alice"), Some(900));
    assert_eq!(state.get_balance("bob"), Some(600));
}

#[test]
fn total_supply_invariant_across_transfers() {
    let mut state = BlockchainState::new();
    state.create_account("alice".to_string(), 1000);
    state.create_account("bob".to_string(), 500);
    state.create_account("charlie".to_string(), 750);

    assert!(state.transfer("alice", "bob", 100).is_ok());
    assert!(state.transfer("bob", "charlie", 350).is_ok());
    assert!(state.transfer("charlie", "alice", 1).is_ok());

    let total = state.get_balance("alice").unwrap() + state.get_balance("bob").unwrap()
        + state.get_balance("charlie").unwrap();
    assert_eq!(total, 2250);
}

#[test]
fn insufficient_balance_leaves_balances_unchanged() {
    let mut state = BlockchainState::new();
    state.create_account("alice".to_string(), 50);
    state.create_account("bob".to_string(), 500);

    let r = state.transfer("alice", "bob", 51);
    assert_eq!(r, Err(TransferError::InsufficientBalance));

    assert_eq!(state.get_balance("alice"), Some(50));
    assert_eq!(state.get_balance("bob"), Some(500));
}

#[test]
fn transfer_sender_not_found() {
    let mut state = BlockchainState::new();
    state.create_account("bob".to_string(), 500);

    assert_eq!(
        state.transfer("nobody", "bob", 1),
        Err(TransferError::SenderNotFound)
    );
    assert_eq!(state.get_balance("bob"), Some(500));
}

#[test]
fn transfer_receiver_not_found() {
    let mut state = BlockchainState::new();
    state.create_account("alice".to_string(), 500);

    assert_eq!(
        state.transfer("alice", "nobody", 1),
        Err(TransferError::ReceiverNotFound)
    );
    assert_eq!(state.get_balance("alice"), Some(500));
}

#[test]
fn self_transfer_keeps_balance() {
    let mut state = BlockchainState::new();
    state.create_account("alice".to_string(), 500);

    assert!(state.transfer("alice", "alice", 200).is_ok());
    assert_eq!(state.get_balance("alice"), Some(500));
}

#[test]
fn transfer_amount_zero_succeeds() {
    let mut state = BlockchainState::new();
    state.create_account("alice".to_string(), 0);
    state.create_account("bob".to_string(), 0);

    assert!(state.transfer("alice", "bob", 0).is_ok());
    assert_eq!(state.get_balance("alice"), Some(0));
    assert_eq!(state.get_balance("bob"), Some(0));
}

#[test]
fn create_account_overwrites() {
    let mut state = BlockchainState::new();
    state.create_account("alice".to_string(), 100);
    state.create_account("alice".to_string(), 7);
    assert_eq!(state.get_balance("alice"), Some(7));
    assert_eq!(state.get_balance("nobody"), None);
}

#[test]
fn pending_queue_is_fifo_with_limit() {
    let mut state = BlockchainState::new();
    for i in 0..5u64 {
        state.add_pending_transaction(Transaction::new(
            format!("sender{}", i),
            "bob".to_string(),
            i,
            1,
        ));
    }
    let drained = state.get_pending_transactions(3);
    assert_eq!(drained.len(), 3);
    assert_eq!(drained[0].from, "sender0");
    assert_eq!(drained[1].from, "sender1");
    assert_eq!(drained[2].from, "sender2");

    let rest = state.get_pending_transactions(100);
    assert_eq!(rest.len(), 2);
    assert_eq!(rest[0].from, "sender3");
    assert_eq!(rest[1].from, "sender4");
}
