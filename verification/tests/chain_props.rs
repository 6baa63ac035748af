use blocksim::chain::Blockchain;
use blocksim::chain::ChainError;
use blocksim::chain::ConsensusType;
use blocksim::ledger::TransferError;
use blocksim::transaction::Transaction;

#[test]
fn fresh_chain_validates() {
    let blockchain = Blockchain::new(ConsensusType::ProofOfStake, 0);
    assert_eq!(blockchain.get_chain_length(), 1);
    assert!(blockchain.validate_chain());
    let genesis = blockchain.get_latest_block();
    assert_eq!(genesis.index, 0);
    assert_eq!(genesis.previous_hash, "0");
    assert_eq!(genesis.validator, "genesis");
    assert_eq!(genesis.merkle_root, "0");
    assert_eq!(genesis.hash, genesis.calculate_hash());
}

#[test]
fn pos_rejects_unregistered_validator() {
    let mut blockchain = Blockchain::new(ConsensusType::ProofOfStake, 0);
    blockchain.add_validator("validator1".to_string());
    blockchain.state.create_account("alice".to_string(), 1000);
    blockchain.state.create_account("bob".to_string(), 500);
    let tx = Transaction::new("alice".to_string(), "bob".to_string(), 100, 1);
    blockchain.state.add_pending_transaction(tx);

    let block = blockchain.create_block("nobody".to_string()).unwrap();
    assert_eq!(blockchain.add_block(block), Err(ChainError::InvalidValidator));
    assert_eq!(blockchain.get_chain_length(), 1);
    // The rejected block's transactions were never applied.
    assert_eq!(blockchain.state.get_balance("alice"), Some(1000));

    let block = blockchain.create_block("validator1".to_string()).unwrap();
    assert!(blockchain.add_block(block).is_ok());
    assert_eq!(blockchain.get_chain_length(), 2);
}

#[test]
fn dpos_requires_a_nonempty_registry() {
    let mut blockchain = Blockchain::new(ConsensusType::DelegatedProofOfStake, 0);
    let block = blockchain.create_block("anyone".to_string()).unwrap();
    assert_eq!(blockchain.add_block(block), Err(ChainError::InvalidDelegate));

    blockchain.add_validator("delegate1".to_string());
    let block = blockchain.create_block("delegate1".to_string()).unwrap();
    assert!(blockchain.add_block(block).is_ok());
}

#[test]
fn structural_checks_come_first() {
    let mut blockchain = Blockchain::new(ConsensusType::ProofOfStake, 0);
    blockchain.add_validator("v".to_string());

    let mut block = blockchain.create_block("v".to_string()).unwrap();
    block.index = 5;
    assert_eq!(blockchain.add_block(block), Err(ChainError::InvalidIndex));

    let mut block = blockchain.create_block("v".to_string()).unwrap();
    block.previous_hash = "bogus".to_string();
    assert_eq!(
        blockchain.add_block(block),
        Err(ChainError::InvalidPreviousHash)
    );
}

#[test]
fn invalid_signature_rejects_the_block() {
    let mut blockchain = Blockchain::new(ConsensusType::ProofOfStake, 0);
    blockchain.add_validator("v".to_string());
    blockchain.state.create_account("alice".to_string(), 1000);
    blockchain.state.create_account("bob".to_string(), 500);

    let mut tx = Transaction::new("alice".to_string(), "bob".to_string(), 100, 1);
    tx.signature = "forged".to_string();
    blockchain.state.add_pending_transaction(tx);

    let block = blockchain.create_block("v".to_string()).unwrap();
    assert_eq!(
        blockchain.add_block(block),
        Err(ChainError::InvalidTransactionSignature)
    );
    assert_eq!(blockchain.get_chain_length(), 1);
    assert_eq!(blockchain.state.get_balance("alice"), Some(1000));
}

#[test]
fn failing_transfer_rejects_the_block_but_keeps_earlier_transfers() {
    let mut blockchain = Blockchain::new(ConsensusType::ProofOfStake, 0);
    blockchain.add_validator("v".to_string());
    blockchain.state.create_account("alice".to_string(), 1000);
    blockchain.state.create_account("bob".to_string(), 500);

    let tx1 = Transaction::new("alice".to_string(), "bob".to_string(), 100, 1);
    let tx2 = Transaction::new("bob".to_string(), "alice".to_string(), 10000, 1);
    blockchain.state.add_pending_transaction(tx1);
    blockchain.state.add_pending_transaction(tx2);

    let block = blockchain.create_block("v".to_string()).unwrap();
    assert_eq!(
        blockchain.add_block(block),
        Err(ChainError::Transfer(TransferError::InsufficientBalance))
    );
    // The block was not appended, but the first transfer stays applied:
    // mid-block application is not transactional, by design.
    assert_eq!(blockchain.get_chain_length(), 1);
    assert_eq!(blockchain.state.get_balance("alice"), Some(900));
    assert_eq!(blockchain.state.get_balance("bob"), Some(600));
}

#[test]
fn unknown_sender_propagates_as_transfer_error() {
    let mut blockchain = Blockchain::new(ConsensusType::ProofOfStake, 0);
    blockchain.add_validator("v".to_string());

    let tx = Transaction::new("ghost".to_string(), "bob".to_string(), 1, 1);
    blockchain.state.add_pending_transaction(tx);
    let block = blockchain.create_block("v".to_string()).unwrap();
    assert_eq!(
        blockchain.add_block(block),
        Err(ChainError::Transfer(TransferError::SenderNotFound))
    );
}

#[test]
fn impossible_difficulty_times_out() {
    // A 64-hex-digit hash can never carry 65 leading zeros, so the nonce
    // search exhausts its cap.
    let mut blockchain = Blockchain::new(ConsensusType::ProofOfWork, 65);
    let block = blockchain.create_block("miner".to_string()).unwrap();
    assert_eq!(blockchain.add_block(block), Err(ChainError::MiningTimeout));
    assert_eq!(blockchain.get_chain_length(), 1);
}

#[test]
fn end_to_end_proof_of_work_round() {
    let mut blockchain = Blockchain::new(ConsensusType::ProofOfWork, 1);
    blockchain.state.create_account("alice".to_string(), 1000);
    blockchain.state.create_account("bob".to_string(), 500);

    let tx = Transaction::new("alice".to_string(), "bob".to_string(), 100, 1);
    blockchain.state.add_pending_transaction(tx);

    let block = blockchain.create_block("miner".to_string()).unwrap();
    assert!(blockchain.add_block(block).is_ok());

    assert_eq!(blockchain.state.get_balance("alice"), Some(900));
    assert_eq!(blockchain.state.get_balance("bob"), Some(600));
    assert!(blockchain.validate_chain());
    assert_eq!(blockchain.get_chain_length(), 2);

    // The mined block meets the difficulty target and recomputes.
    let mined = blockchain.get_latest_block();
    assert!(mined.hash.starts_with("0"));
    assert_eq!(mined.hash, mined.calculate_hash());
}
