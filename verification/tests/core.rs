use blocksim::block::Block;
use blocksim::chain::Blockchain;
use blocksim::chain::ConsensusType;
use blocksim::contract::SmartContract;
use blocksim::transaction::Transaction;
use blocksim::vm::VirtualMachine;

#[test]
fn test_transaction_creation() {
    let tx = Transaction::new("alice".to_string(), "bob".to_string(), 100, 10);
    assert_eq!(tx.from, "alice");
    assert_eq!(tx.to, "bob");
    assert_eq!(tx.amount, 100);
    assert_eq!(tx.gas_fee, 10);
    assert!(tx.verify_signature());
}

#[test]
fn test_block_creation() {
    let transactions = vec![Transaction::new("alice".to_string(), "bob".to_string(), 100, 10)];

    let block = Block::new(
        1,
        transactions,
        "previous_hash".to_string(),
        "validator".to_string(),
    );
    assert_eq!(block.index, 1);
    assert_eq!(block.previous_hash, "previous_hash");
    assert_eq!(block.validator, "validator");
    assert_eq!(block.transactions.len(), 1);
}

#[test]
fn test_blockchain_validation() {
    let mut blockchain = Blockchain::new(ConsensusType::ProofOfWork, 1);
    assert!(blockchain.validate_chain());

    blockchain.state.create_account("alice".to_string(), 1000);
    blockchain.state.create_account("bob".to_string(), 500);

    let tx = Transaction::new("alice".to_string(), "bob".to_string(), 100, 10);
    blockchain.state.add_pending_transaction(tx);

    let block = blockchain.create_block("validator".to_string()).unwrap();
    assert!(blockchain.add_block(block).is_ok());
    assert!(blockchain.validate_chain());
}

#[test]
fn test_smart_contract_execution() {
    let contract = SmartContract::new("contract1".to_string(), "code".to_string());
    let mut vm = VirtualMachine::new(10000);

    let result = contract.call_function(&mut vm, "transfer", vec![123, 500]);
    assert!(result.is_ok());

    let result = contract.call_function(&mut vm, "balance", vec![123]);
    assert!(result.is_ok());

    let result = contract.call_function(&mut vm, "unknown", vec![]);
    assert!(result.is_err());
}
