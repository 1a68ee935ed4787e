use k256::ecdsa::signature::Verifier;
use k256::ecdsa::{Signature, VerifyingKey};
use ocoin::blockchain::block::Block;
use ocoin::blockchain::blockchain::{Blockchain, ChainError};
use ocoin::blockchain::signed_transaction::SignedTransaction;
use ocoin::blockchain::transaction::Transaction;
use ocoin::blockchain::wallet::Wallet;
use ocoin::blockchain::wallet_manager::WalletManager;
use sha2::{Digest, Sha256};

fn tx(from: &str, to: &str, amt: f64) -> Transaction {
    Transaction::new(from.to_string(), to.to_string(), amt.to_bits())
}

fn signed(from: &str, to: &str, amt: f64, sig: &str) -> SignedTransaction {
    SignedTransaction { transaction: tx(from, to, amt), signature: sig.to_string() }
}

fn expected_tx_hash(from: &str, to: &str, amt: f64) -> String {
    let mut s = Sha256::new();
    s.update(from);
    s.update(to);
    s.update(amt.to_ne_bytes());
    format!("{:X}", s.finalize())
}

#[test]
fn transaction_and_signed_hashes() {
    let t = tx("alice", "bob", 10.0);
    assert_eq!(t.get_hash(), expected_tx_hash("alice", "bob", 10.0));
    let st = signed("alice", "bob", 10.0, "abcd");
    let mut s = Sha256::new();
    s.update("abcd");
    s.update(expected_tx_hash("alice", "bob", 10.0));
    assert_eq!(st.get_hash(), format!("{:X}", s.finalize()));
}

#[test]
fn minting_account_is_zero() {
    assert!(tx("0", "bob", 1.0).from_minting_account());
    assert!(!tx("00", "bob", 1.0).from_minting_account());
    assert!(!tx("alice", "0", 1.0).from_minting_account());
}

#[test]
fn signed_block_hash() {
    let mut b = Block::new("P".to_string());
    b.add_transaction(signed("a", "b", 1.0, "s"));
    let h = signed("a", "b", 1.0, "s").get_hash();
    let mut s = Sha256::new();
    s.update("P");
    s.update(&h);
    s.update(&h);
    s.update(0i32.to_le_bytes());
    assert_eq!(b.get_hash(), format!("{:X}", s.finalize()));
    assert!(b.validate_pow());
    let c = b.clone();
    assert_eq!(c.get_hash(), b.get_hash());
}

#[test]
fn wallet_keys_belong_together() {
    let w = Wallet::new();
    assert_eq!(w.private_key.len(), 64);
    assert_eq!(w.public_key.len(), 66);
    let secret = hex::decode(&w.private_key).unwrap();
    let key = k256::ecdsa::SigningKey::from_bytes(&secret).unwrap();
    let public = VerifyingKey::from(&key);
    assert_eq!(hex::encode(public.to_bytes()), w.public_key);
    assert!(w.can_sign());
}

#[test]
fn signature_verifies_against_public_key() {
    let w = Wallet::new();
    let t = tx("me", "you", 4.0);
    let hash = t.get_hash();
    let st = w.sign_transaction(t).unwrap();
    assert_eq!(st.transaction.sender, "me");
    assert_eq!(st.signature.len(), 128);
    let sig = Signature::try_from(hex::decode(&st.signature).unwrap().as_slice()).unwrap();
    let public = VerifyingKey::from_sec1_bytes(&hex::decode(&w.public_key).unwrap()).unwrap();
    assert!(public.verify(hash.as_bytes(), &sig).is_ok());
    // The signature is deterministic.
    let again = w.sign_transaction(tx("me", "you", 4.0)).unwrap();
    assert_eq!(again.signature, st.signature);
}

#[test]
fn known_key_signs_like_k256() {
    let w = Wallet { private_key: "01".repeat(32), public_key: String::new() };
    let t = tx("a", "b", 1.0);
    let key = k256::ecdsa::SigningKey::from_bytes(&[1u8; 32]).unwrap();
    let sig: Signature = k256::ecdsa::signature::Signer::sign(&key, t.get_hash().as_bytes());
    assert_eq!(w.sign_transaction(t).unwrap().signature, hex::encode(sig.to_vec()));
}

#[test]
fn bad_keys_do_not_sign() {
    let not_hex = Wallet { private_key: "xyz".to_string(), public_key: String::new() };
    assert!(!not_hex.can_sign());
    assert!(not_hex.try_sign_transaction(tx("a", "b", 1.0)).is_none());
    let zero = Wallet { private_key: "00".repeat(32), public_key: String::new() };
    assert!(!zero.can_sign());
    assert!(zero.try_sign_transaction(tx("a", "b", 1.0)).is_none());
    let short = Wallet { private_key: "01".repeat(31), public_key: String::new() };
    assert!(!short.can_sign());
    let good = Wallet::new();
    assert!(good.try_sign_transaction(tx("a", "b", 1.0)).is_some());
}

#[test]
fn manager_starts_with_minting_wallet() {
    let m = WalletManager::new();
    assert_eq!(m.wallets.len(), 1);
    assert!(m.has_wallet(&"0".to_string()));
    assert!(m.get_wallet(&"0".to_string()).can_sign());
}

#[test]
fn new_wallet_replaces_same_name() {
    let mut m = WalletManager::new();
    m.new_wallet("bob".to_string());
    let first = m.get_wallet(&"bob".to_string()).private_key.clone();
    m.new_wallet("bob".to_string());
    assert_eq!(m.wallets.len(), 2);
    assert_ne!(m.get_wallet(&"bob".to_string()).private_key, first);
}

#[test]
fn combine_prefers_incoming_wallets() {
    let mut mine = WalletManager::new();
    mine.new_wallet("alice".to_string());
    let mut theirs = WalletManager::new();
    theirs.new_wallet("bob".to_string());
    let their_zero = theirs.get_wallet(&"0".to_string()).clone();
    let my_alice = mine.get_wallet(&"alice".to_string()).clone();
    mine.combine(theirs);
    assert_eq!(mine.wallets.len(), 3);
    assert_eq!(mine.get_wallet(&"0".to_string()).private_key, their_zero.private_key);
    assert_eq!(mine.get_wallet(&"alice".to_string()).private_key, my_alice.private_key);
    assert!(mine.has_wallet(&"bob".to_string()));
}

#[test]
fn combine_with_own_copy_changes_nothing() {
    let mut m = WalletManager::new();
    m.new_wallet("alice".to_string());
    let before: Vec<(String, String)> =
        m.wallets.iter().map(|(n, w)| (n.clone(), w.private_key.clone())).collect();
    let copy = m.clone();
    m.combine(copy);
    let after: Vec<(String, String)> =
        m.wallets.iter().map(|(n, w)| (n.clone(), w.private_key.clone())).collect();
    assert_eq!(before, after);
}

#[test]
fn append_block_checks_validity() {
    let mut chain = Blockchain::new();
    assert_eq!(chain.get_prev_hash(), "0");
    let b = Block::new(chain.get_prev_hash());
    let h = b.get_hash();
    assert_eq!(chain.append_block(b.clone(), false), Err(ChainError::BlockDidNotValidate));
    assert_eq!(chain.blocks.len(), 0);
    assert_eq!(ChainError::BlockDidNotValidate.message(), "Block didn't validate");
    assert_eq!(chain.append_block(b, true), Ok(()));
    assert_eq!(chain.blocks.len(), 1);
    assert_eq!(chain.get_prev_hash(), h);
    assert!(chain.validate_new_block(&Block::new(h.clone()), true));
    assert!(!chain.validate_new_block(&Block::new(h), false));
}

#[test]
fn ledger_lists_chain_then_new_transfers() {
    let mut chain = Blockchain::new();
    let mut b1 = Block::new("0".to_string());
    b1.add_transaction(signed("0", "alice", 10.0, "x"));
    b1.add_transaction(signed("alice", "bob", 3.0, "y"));
    chain.append_block(b1, true).unwrap();
    let mut b2 = Block::new(chain.get_prev_hash());
    b2.add_transaction(signed("bob", "carol", 1.0, "z"));
    chain.append_block(b2.clone(), true).unwrap();
    let new = vec![signed("carol", "alice", 0.5, "w")];
    let all = chain.ledger_transfers(&new);
    let names: Vec<(String, String)> = all.iter().map(|t| (t.sender.clone(), t.reciever.clone())).collect();
    assert_eq!(
        names,
        vec![
            ("0".to_string(), "alice".to_string()),
            ("alice".to_string(), "bob".to_string()),
            ("bob".to_string(), "carol".to_string()),
            ("carol".to_string(), "alice".to_string()),
        ]
    );
    assert_eq!(all[3].amt, 0.5f64.to_bits());
}

#[test]
fn ledger_checked_for_block_is_ledger_after_append() {
    let mut chain = Blockchain::new();
    let mut b = Block::new("0".to_string());
    b.add_transaction(signed("0", "alice", 10.0, "x"));
    let checked = chain.ledger_transfers(&b.transactions);
    chain.append_block(b, true).unwrap();
    let after = chain.ledger_transfers(&vec![]);
    assert_eq!(checked.len(), after.len());
    for (x, y) in checked.iter().zip(after.iter()) {
        assert_eq!((x.sender.clone(), x.reciever.clone(), x.amt), (y.sender.clone(), y.reciever.clone(), y.amt));
    }
}

#[test]
fn hashes_have_sixty_four_digits() {
    let t = tx("a", "b", 1.0);
    assert_eq!(t.get_hash().len(), 64);
    let s = signed("a", "b", 1.0, "sig");
    assert_eq!(s.get_hash().len(), 64);
    let mut b = Block::new("0".to_string());
    b.add_transaction(s);
    assert_eq!(b.get_hash().len(), 64);
    assert!(b.get_hash().chars().all(|c| c.is_ascii_digit() || ('A'..='F').contains(&c)));
}

#[test]
fn byte_orders_give_different_transaction_hashes() {
    let t = tx("a", "b", 1.0);
    let little = t.hash_with_byte_order(true);
    let big = t.hash_with_byte_order(false);
    assert_ne!(little, big);
    let native = ocoin::hashing::native_order_is_little();
    assert_eq!(t.get_hash(), t.hash_with_byte_order(native));
}

#[test]
fn prev_hash_is_hash_of_appended_block_in_either_order() {
    for little in [true, false] {
        let mut chain = Blockchain::new();
        assert_eq!(chain.prev_hash_with_byte_order(little), "0");
        let mut b = Block::new("0".to_string());
        b.add_transaction(signed("a", "b", 2.0, "s"));
        let h = b.hash_with_byte_order(little);
        assert_eq!(chain.append_block(b, true), Ok(()));
        assert_eq!(chain.prev_hash_with_byte_order(little), h);
    }
}

#[test]
fn signing_in_one_byte_order_is_deterministic() {
    let w = Wallet::new();
    for little in [true, false] {
        let first = w.sign_with_byte_order(tx("p", "q", 3.0), little).unwrap();
        let second = w.sign_with_byte_order(tx("p", "q", 3.0), little).unwrap();
        assert_eq!(first.signature, second.signature);
        assert_eq!(first.signature.len(), 128);
        assert_eq!(first.transaction.sender, "p");
    }
    let native = ocoin::hashing::native_order_is_little();
    let plain = w.sign_transaction(tx("p", "q", 3.0)).unwrap();
    assert_eq!(plain.signature, w.sign_with_byte_order(tx("p", "q", 3.0), native).unwrap().signature);
}

#[test]
fn new_wallet_keys_are_lower_case_hex() {
    let w = Wallet::new();
    assert_eq!(w.private_key.len(), 64);
    assert_eq!(w.public_key.len(), 66);
    let lower = |s: &str| s.chars().all(|c| c.is_ascii_digit() || ('a'..='f').contains(&c));
    assert!(lower(&w.private_key));
    assert!(lower(&w.public_key));
    let secret = hex::decode(&w.private_key).unwrap();
    let key = k256::ecdsa::SigningKey::from_bytes(&secret).unwrap();
    assert_eq!(hex::encode(VerifyingKey::from(&key).to_bytes()), w.public_key);
}

#[test]
fn signing_keys_stop_below_the_group_order() {
    let below = Wallet {
        private_key: "fffffffffffffffffffffffffffffffebaaedce6af48a03bbfd25e8cd0364140".to_string(),
        public_key: String::new(),
    };
    assert!(below.can_sign());
    let order = Wallet {
        private_key: "fffffffffffffffffffffffffffffffebaaedce6af48a03bbfd25e8cd0364141".to_string(),
        public_key: String::new(),
    };
    assert!(!order.can_sign());
    let one = Wallet { private_key: format!("{}01", "00".repeat(31)), public_key: String::new() };
    assert!(one.can_sign());
}
