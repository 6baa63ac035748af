use sha2::Digest;
use sha2::Sha256;

use blocksim::block::Block;
use blocksim::merkle::calculate_merkle_root;
use blocksim::transaction::Transaction;

fn sha256_hex(s: &str) -> String {
    let mut hasher = Sha256::new();
    hasher.update(s.as_bytes());
    format!("{:x}", hasher.finalize())
}

#[test]
fn merkle_root_of_empty_is_sentinel() {
    let root = calculate_merkle_root(&Vec::new());
    assert_eq!(root, "0");
}

#[test]
fn merkle_root_of_single_transaction_is_its_leaf_hash() {
    let tx = Transaction::new("alice".to_string(), "bob".to_string(), 5, 1);
    let leaf = tx.calculate_hash();
    let root = calculate_merkle_root(&vec![tx]);
    assert_eq!(root, leaf);
}

#[test]
fn merkle_root_of_three_duplicates_the_odd_leaf() {
    let t0 = Transaction::new("a".to_string(), "b".to_string(), 1, 1);
    let t1 = Transaction::new("c".to_string(), "d".to_string(), 2, 1);
    let t2 = Transaction::new("e".to_string(), "f".to_string(), 3, 1);
    let h0 = t0.calculate_hash();
    let h1 = t1.calculate_hash();
    let h2 = t2.calculate_hash();

    let left = sha256_hex(&format!("{}{}", h0, h1));
    let right = sha256_hex(&format!("{}{}", h2, h2));
    let expected = sha256_hex(&format!("{}{}", left, right));

    let root = calculate_merkle_root(&vec![t0, t1, t2]);
    assert_eq!(root, expected);
}

#[test]
fn transaction_signature_is_the_real_digest() {
    let tx = Transaction::new("alice".to_string(), "bob".to_string(), 100, 10);
    let expected = sha256_hex(&format!("{}{}", tx.id, tx.from));
    assert_eq!(tx.signature, expected);
    assert_eq!(tx.signature.len(), 64);
}

#[test]
fn tampered_sender_or_id_fails_verification() {
    let tx = Transaction::new("alice".to_string(), "bob".to_string(), 100, 10);
    assert!(tx.verify_signature());

    let mut altered_sender = Transaction::new("alice".to_string(), "bob".to_string(), 100, 10);
    altered_sender.from = "mallory".to_string();
    assert!(!altered_sender.verify_signature());

    let mut altered_id = Transaction::new("alice".to_string(), "bob".to_string(), 100, 10);
    altered_id.id = "forged-id".to_string();
    assert!(!altered_id.verify_signature());
}

#[test]
fn block_hash_matches_recomputation_and_tracks_fields() {
    let block = Block::new(
        1,
        Vec::new(),
        "prev".to_string(),
        "validator".to_string(),
    );
    assert_eq!(block.hash, block.calculate_hash());
    assert_eq!(block.hash.len(), 64);

    let mut altered = Block::new(1, Vec::new(), "prev".to_string(), "validator".to_string());
    altered.nonce = block.nonce + 1;
    assert_ne!(altered.calculate_hash(), block.hash);
}
