use ocoin::standalone::block::Block;
use ocoin::standalone::blockchain::Blockchain;
use ocoin::standalone::transaction::Transaction;
use ocoin::standalone::wallet::{priv_to_pub_key, Wallet};
use ocoin::standalone::wallet_manager::WalletManager;
use sha2::{Digest, Sha256};

fn plain_tx(sig: &str, from: &str, to: &str, amt: f64) -> Transaction {
    Transaction::new(from.to_string(), to.to_string(), amt.to_bits(), sig.to_string())
}

fn expected_tx_hash(sig: &str, from: &str, to: &str, amt: f64) -> String {
    let mut s = Sha256::new();
    s.update(sig);
    s.update(from);
    s.update(to);
    s.update(amt.to_ne_bytes());
    format!("{:X}", s.finalize())
}

#[test]
fn transaction_hash_matches_direct_digest() {
    let tx = plain_tx("sig", "alice", "bob", 2.5);
    assert_eq!(tx.get_hash(), expected_tx_hash("sig", "alice", "bob", 2.5));
    assert_eq!(tx.hash_with_byte_order((1u64.to_ne_bytes()[0] == 1)), tx.get_hash());
    assert_ne!(tx.hash_with_byte_order(true), tx.hash_with_byte_order(false));
}

#[test]
fn block_hash_matches_direct_digest() {
    let mut block = Block::new("PREV".to_string());
    block.add_transaction(plain_tx("s1", "a", "b", 1.0));
    block.add_transaction(plain_tx("s2", "b", "c", 0.5));
    block.increase_nonce();
    let hashes = vec![expected_tx_hash("s1", "a", "b", 1.0), expected_tx_hash("s2", "b", "c", 0.5)];
    let mut s = Sha256::new();
    s.update("PREV");
    s.update(hashes.concat());
    for h in &hashes {
        s.update(h);
    }
    s.update(1i32.to_le_bytes());
    assert_eq!(block.get_hash(), format!("{:X}", s.finalize()));
    assert_eq!(block.nonce, 1);
}

#[test]
fn empty_block_hash() {
    let block = Block::new("0".to_string());
    let mut s = Sha256::new();
    s.update("0");
    s.update(0i32.to_le_bytes());
    assert_eq!(block.get_hash(), format!("{:X}", s.finalize()));
    assert!(block.validate());
}

#[test]
fn chain_refers_to_newest_block() {
    let mut chain = Blockchain::new();
    assert_eq!(chain.get_prev_hash(), "0");
    let first = chain.get_new_block();
    assert_eq!(first.prev_hash, "0");
    let first_hash = first.get_hash();
    chain.append_block(first);
    assert_eq!(chain.get_prev_hash(), first_hash);
    let mut second = chain.get_new_block();
    assert_eq!(second.prev_hash, first_hash);
    second.add_transaction(plain_tx("s", "a", "b", 3.0));
    chain.mine_block(&mut second);
    assert_eq!(second.nonce, 0);
    let second_hash = second.get_hash();
    chain.append_block(second);
    assert_eq!(chain.blocks.len(), 2);
    assert_eq!(chain.get_prev_hash(), second_hash);
}

#[test]
fn public_key_is_hash_of_private_key() {
    let pk = priv_to_pub_key(&"secret".to_string());
    let expected = format!("{:X}", Sha256::digest(b"secret"));
    assert_eq!(pk, expected);
    let w = Wallet::new("secret".to_string());
    assert_eq!(w.private_key, "secret");
    assert_eq!(w.public_key, expected);
}

#[test]
fn standalone_wallets_by_name() {
    let mut m = WalletManager::new();
    assert!(!m.has_wallet(&"alice".to_string()));
    m.new_wallet("alice".to_string(), "k1".to_string());
    m.new_wallet("bob".to_string(), "k2".to_string());
    assert_eq!(m.get_wallet(&"alice".to_string()).private_key, "k1");
    m.new_wallet("alice".to_string(), "k3".to_string());
    assert_eq!(m.wallets.len(), 2);
    assert_eq!(m.get_wallet(&"alice".to_string()).private_key, "k3");
    assert_eq!(m.get_wallet(&"alice".to_string()).public_key, priv_to_pub_key(&"k3".to_string()));
    assert_eq!(m.get_wallet(&"bob".to_string()).private_key, "k2");
}

#[test]
fn standalone_hashes_have_sixty_four_digits() {
    let t = plain_tx("s", "a", "b", 1.0);
    assert_eq!(t.get_hash().len(), 64);
    let mut b = Block::new("0".to_string());
    b.add_transaction(t);
    assert_eq!(b.get_hash().len(), 64);
    assert_eq!(priv_to_pub_key(&"secret".to_string()).len(), 64);
}

#[test]
fn standalone_prev_hash_follows_appended_block_in_either_order() {
    for little in [true, false] {
        let mut chain = Blockchain::new();
        assert_eq!(chain.prev_hash_with_byte_order(little), "0");
        let mut b = Block::new("0".to_string());
        b.add_transaction(plain_tx("s", "a", "b", 1.0));
        let h = b.hash_with_byte_order(little);
        chain.append_block(b);
        assert_eq!(chain.prev_hash_with_byte_order(little), h);
    }
}
