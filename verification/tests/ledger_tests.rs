use ed25519_dalek::SigningKey;
use minichain::transaction::public_key_hex;
use minichain::Blockchain;
use minichain::BlockHeader;
use minichain::LedgerError;
use minichain::Transaction;
use sha2::Digest;
use sha2::Sha256;

fn tx(sender: &str, receiver: &str, amount: &str, signature: Option<&str>) -> Transaction {
    Transaction {
        sender: sender.to_string(),
        receiver: receiver.to_string(),
        amount: amount.to_string(),
        signature: signature.map(|s| s.to_string()),
    }
}

fn sha_hex(data: &str) -> String {
    hex::encode(Sha256::digest(data.as_bytes()))
}

#[test]
fn transaction_hash_matches_sha256() {
    let t = tx("a", "b", "c", None);
    assert_eq!(
        hex::encode(t.calculate_hash()),
        "ba7816bf8f01cfea414140de5dae2223b00361a396177a9cb410ff61f20015ad"
    );
    let t2 = tx("alice", "bob", "12.5", None);
    assert_eq!(hex::encode(t2.calculate_hash()), sha_hex("alicebob12.5"));
}

#[test]
fn merkle_empty_root_is_sentinel() {
    let root = minichain::merkle::calculate_merkle_root(&vec![]);
    assert_eq!(root, "0");
}

#[test]
fn merkle_single_leaf_is_duplicated() {
    let t = tx("a", "b", "c", None);
    let leaf = sha_hex("abc");
    let expected = sha_hex(&format!("{}{}", leaf, leaf));
    let root = minichain::merkle::calculate_merkle_root(&vec![t]);
    assert_eq!(root, expected);
}

#[test]
fn merkle_pair_hashes_concatenation() {
    let t1 = tx("a", "b", "1", None);
    let t2 = tx("c", "d", "2", None);
    let l1 = sha_hex("ab1");
    let l2 = sha_hex("cd2");
    let expected = sha_hex(&format!("{}{}", l1, l2));
    let root = minichain::merkle::calculate_merkle_root(&vec![t1, t2]);
    assert_eq!(root, expected);
}

#[test]
fn merkle_odd_count_duplicates_last() {
    let t1 = tx("a", "b", "1", None);
    let t2 = tx("c", "d", "2", None);
    let t3 = tx("e", "f", "3", None);
    let l1 = sha_hex("ab1");
    let l2 = sha_hex("cd2");
    let l3 = sha_hex("ef3");
    let p12 = sha_hex(&format!("{}{}", l1, l2));
    let p33 = sha_hex(&format!("{}{}", l3, l3));
    let expected = sha_hex(&format!("{}{}", p12, p33));
    let root = minichain::merkle::calculate_merkle_root(&vec![t1, t2, t3]);
    assert_eq!(root, expected);
}

#[test]
fn merkle_root_is_deterministic_and_idempotent() {
    let txs = vec![
        tx("a", "b", "1", None),
        tx("c", "d", "2", None),
        tx("e", "f", "3", None),
        tx("g", "h", "4", None),
        tx("i", "j", "5", None),
    ];
    let first = minichain::merkle::calculate_merkle_root(&txs);
    let second = minichain::merkle::calculate_merkle_root(&txs);
    assert_eq!(first, second);

    // Five leaves pass through an odd level twice: once at the leaves and
    // once among the three pair hashes.
    let leaves: Vec<String> = ["ab1", "cd2", "ef3", "gh4", "ij5"]
        .iter()
        .map(|d| sha_hex(d))
        .collect();
    let p12 = sha_hex(&format!("{}{}", leaves[0], leaves[1]));
    let p34 = sha_hex(&format!("{}{}", leaves[2], leaves[3]));
    let p55 = sha_hex(&format!("{}{}", leaves[4], leaves[4]));
    let q1 = sha_hex(&format!("{}{}", p12, p34));
    let q2 = sha_hex(&format!("{}{}", p55, p55));
    let expected = sha_hex(&format!("{}{}", q1, q2));
    assert_eq!(first, expected);
}

#[test]
fn header_hash_matches_sha256() {
    let header = BlockHeader {
        index: 1,
        timestamp: 1700000000,
        merkle_root: "ab".to_string(),
        previous_hash: "cd".to_string(),
        nonce: 42,
    };
    assert_eq!(header.calculate_hash(), sha_hex("11700000000abcd42"));
}

#[test]
fn header_hash_negative_timestamp() {
    let header = BlockHeader {
        index: 0,
        timestamp: -5,
        merkle_root: "r".to_string(),
        previous_hash: "p".to_string(),
        nonce: 7,
    };
    assert_eq!(header.calculate_hash(), sha_hex("0-5rp7"));
}

#[test]
fn sign_then_verify_succeeds() {
    let secret = [7u8; 32];
    let sender = public_key_hex(&secret);
    let expected = hex::encode(SigningKey::from_bytes(&secret).verifying_key().to_bytes());
    assert_eq!(sender, expected);
    let mut t = tx(&sender, "bob", "10", None);
    t.sign(&secret);
    assert!(t.signature.is_some());
    assert!(t.is_valid());
}

#[test]
fn system_sender_always_valid() {
    assert!(tx("System", "Creator", "50", None).is_valid());
    assert!(tx("System", "anyone", "1", Some("not even hex")).is_valid());
}

#[test]
fn malformed_hex_never_verifies() {
    // Non-hexadecimal sender.
    assert!(!tx("zz", "r", "1", Some("00")).is_valid());
    // Odd-length sender.
    assert!(!tx("abc", "r", "1", Some("00")).is_valid());
    // Sender decodes to the wrong key length.
    let short = "00".repeat(31);
    assert!(!tx(&short, "r", "1", Some("00")).is_valid());
    // Missing signature.
    let secret = [9u8; 32];
    let sender = public_key_hex(&secret);
    assert!(!tx(&sender, "r", "1", None).is_valid());
    // Non-hexadecimal signature.
    assert!(!tx(&sender, "r", "1", Some("xyz!")).is_valid());
    // Signature of the wrong length.
    let short_sig = "11".repeat(63);
    assert!(!tx(&sender, "r", "1", Some(&short_sig)).is_valid());
}

#[test]
fn wrong_key_or_tampering_rejected() {
    let secret_a = [1u8; 32];
    let secret_b = [2u8; 32];
    let sender_b = public_key_hex(&secret_b);
    let mut t = tx(&sender_b, "bob", "10", None);
    t.sign(&secret_a);
    assert!(!t.is_valid());

    let secret = [3u8; 32];
    let sender = public_key_hex(&secret);
    let mut t2 = tx(&sender, "bob", "10", None);
    t2.sign(&secret);
    assert!(t2.is_valid());
    t2.amount = "1000000".to_string();
    assert!(!t2.is_valid());
}

#[test]
fn genesis_block_contents() {
    let bc = Blockchain::new(1).unwrap();
    assert_eq!(bc.chain.len(), 1);
    assert!(bc.pending_transactions.is_empty());
    let genesis = &bc.chain[0];
    assert_eq!(genesis.header.index, 0);
    assert_eq!(genesis.header.previous_hash, "0");
    assert_eq!(genesis.transactions.len(), 1);
    let t = &genesis.transactions[0];
    assert_eq!(t.sender, "System");
    assert_eq!(t.receiver, "Creator");
    assert_eq!(t.amount, "50");
    assert!(t.signature.is_none());
    assert!(t.is_valid());
}

#[test]
fn excessive_difficulty_is_refused() {
    match Blockchain::new(65) {
        Err(e) => assert_eq!(e, LedgerError::ConfigurationError),
        Ok(_) => panic!("a difficulty beyond the hash length must be refused"),
    }
}

#[test]
fn difficulty_zero_seals_with_nonce_zero() {
    let mut bc = Blockchain::new(0).unwrap();
    assert_eq!(bc.chain[0].header.nonce, 0);
    bc.add_transaction(tx("System", "x", "1", None)).unwrap();
    bc.mine_pending_transactions().unwrap();
    assert_eq!(bc.chain[1].header.nonce, 0);
}

#[test]
fn sealed_hashes_meet_difficulty() {
    let mut bc = Blockchain::new(2).unwrap();
    bc.add_transaction(tx("System", "x", "1", None)).unwrap();
    bc.mine_pending_transactions().unwrap();
    for block in &bc.chain {
        assert!(block.hash.starts_with("00"));
        assert_eq!(block.hash, block.header.calculate_hash());
    }
}

#[test]
fn chain_append_invariant_holds() {
    let mut bc = Blockchain::new(1).unwrap();
    for round in 0..3 {
        bc.add_transaction(tx("System", "x", &round.to_string(), None)).unwrap();
        bc.mine_pending_transactions().unwrap();
    }
    assert_eq!(bc.chain.len(), 4);
    for i in 1..bc.chain.len() {
        assert_eq!(bc.chain[i].header.previous_hash, bc.chain[i - 1].hash);
        assert_eq!(bc.chain[i].header.index as usize, i);
    }
    assert!(bc.check_well_formed());
}

#[test]
fn invalid_signature_leaves_mempool_unchanged() {
    let mut bc = Blockchain::new(1).unwrap();
    let before = bc.pending_transactions.len();
    match bc.add_transaction(tx("zz", "r", "1", Some("00"))) {
        Err(e) => assert_eq!(e, LedgerError::InvalidSignature),
        Ok(_) => panic!("an invalid signature must be refused"),
    }
    assert_eq!(bc.pending_transactions.len(), before);
}

#[test]
fn mining_empty_mempool_leaves_chain_unchanged() {
    let mut bc = Blockchain::new(1).unwrap();
    let before = bc.chain.len();
    match bc.mine_pending_transactions() {
        Err(e) => assert_eq!(e, LedgerError::EmptyMempool),
        Ok(_) => panic!("mining an empty mempool must be refused"),
    }
    assert_eq!(bc.chain.len(), before);
}

#[test]
fn error_messages_match() {
    assert_eq!(LedgerError::InvalidSignature.message(), "Invalid transaction signature");
    assert_eq!(LedgerError::EmptyMempool.message(), "No transactions to mine");
    assert_eq!(LedgerError::ConfigurationError.message(), "Difficulty cannot be met");
}

#[test]
fn check_well_formed_detects_corruption() {
    let mut bc = Blockchain::new(1).unwrap();
    assert!(bc.check_well_formed());
    bc.chain[0].header.index = 5;
    assert!(!bc.check_well_formed());
}

#[test]
fn end_to_end_signed_transaction_is_mined() {
    let mut bc = Blockchain::new(2).unwrap();
    let secret = [42u8; 32];
    let sender = public_key_hex(&secret);
    let mut t = tx(&sender, "bob", "10", None);
    t.sign(&secret);
    bc.add_transaction(t).unwrap();
    assert_eq!(bc.pending_transactions.len(), 1);
    bc.mine_pending_transactions().unwrap();
    assert_eq!(bc.chain.len(), 2);
    assert!(bc.chain[1].hash.starts_with("00"));
    assert!(bc.pending_transactions.is_empty());
    assert_eq!(bc.chain[1].transactions.len(), 1);
    assert!(bc.chain[1].transactions[0].is_valid());
}
