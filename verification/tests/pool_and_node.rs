use ocoin::blockchain::block::Block;
use ocoin::blockchain::blockchain::{Blockchain, ChainError};
use ocoin::blockchain::signed_transaction::SignedTransaction;
use ocoin::blockchain::transaction::Transaction;
use ocoin::blockchain::wallet::Wallet;
use ocoin::blockchain::wallet_manager::WalletManager;
use ocoin::mempool::app::{handle_message, App};
use ocoin::mempool::command::announce_new_transaction;
use ocoin::mempool::mempool::{Mempool, MempoolError, MINING_REWARD};
use ocoin::mempool::message::Message;
use ocoin::validator::message::Message as NodeMessage;
use ocoin::validator::node::{MessageOutcome, Node};

fn signed(from: &str, to: &str, amt: f64, sig: &str) -> SignedTransaction {
    SignedTransaction {
        transaction: Transaction::new(from.to_string(), to.to_string(), amt.to_bits()),
        signature: sig.to_string(),
    }
}

fn sigs(pool: &Mempool) -> Vec<String> {
    pool.transactions.iter().map(|t| t.signature.clone()).collect()
}

#[test]
fn test_new_transaction() {
    let mut mempool = Mempool::new();
    mempool.new_transaction(signed("Eli", "Ari", 10.0, "Hi"));
    assert_eq!(mempool.transactions.len(), 1);
}

#[test]
fn test_cancel_transaction() {
    let mut mempool = Mempool::new();
    let transaction = signed("Eli", "Ari", 10.0, "Hi");
    mempool.new_transaction(transaction.clone());
    assert_eq!(mempool.cancel_transaction(transaction), Ok(()));
    assert_eq!(mempool.transactions.len(), 0);
}

#[test]
fn cancel_unknown_transaction_fails() {
    let mut mempool = Mempool::new();
    mempool.new_transaction(signed("a", "b", 1.0, "x"));
    let r = mempool.cancel_transaction(signed("a", "b", 2.0, "x"));
    assert_eq!(r, Err(MempoolError::TransactionNotFound));
    assert_eq!(MempoolError::TransactionNotFound.message(), "Error!");
    assert_eq!(mempool.transactions.len(), 1);
}

#[test]
fn cancel_removes_first_match_only() {
    let mut mempool = Mempool::new();
    mempool.new_transaction(signed("a", "b", 1.0, "x"));
    mempool.new_transaction(signed("c", "d", 1.0, "y"));
    mempool.new_transaction(signed("a", "b", 1.0, "x"));
    assert_eq!(mempool.cancel_transaction(signed("a", "b", 1.0, "x")), Ok(()));
    assert_eq!(sigs(&mempool), vec!["y".to_string(), "x".to_string()]);
}

#[test]
fn cancel_after_new_restores_pool() {
    let mut mempool = Mempool::new();
    mempool.new_transaction(signed("a", "b", 1.0, "x"));
    mempool.new_transaction(signed("c", "d", 2.0, "y"));
    let before = sigs(&mempool);
    let t = signed("e", "f", 3.0, "z");
    mempool.new_transaction(t.clone());
    assert!(mempool.cancel_transaction(t).is_ok());
    assert_eq!(sigs(&mempool), before);
}

#[test]
fn test_new_block() {
    let mut mempool = Mempool::new();
    mempool.new_transaction(signed("a", "b", 1.0, "x"));
    mempool.new_block(Block::new("0".to_string()));
    assert_eq!(mempool.transactions.len(), 1);
}

#[test]
fn mining_takes_the_pool_and_pays_reward() {
    let wallet0 = Wallet::new();
    let mut mempool = Mempool::new();
    mempool.new_transaction(signed("a", "b", 1.0, "x"));
    let block = mempool.mine("PREV".to_string(), &wallet0, "miner".to_string()).unwrap();
    assert!(mempool.transactions.is_empty());
    assert_eq!(block.prev_hash, "PREV");
    assert_eq!(block.nonce, 0);
    assert_eq!(block.transactions.len(), 2);
    assert_eq!(block.transactions[0].signature, "x");
    let reward = &block.transactions[1];
    assert_eq!(reward.transaction.sender, "0");
    assert_eq!(reward.transaction.reciever, "miner");
    assert_eq!(f64::from_bits(reward.transaction.amt), 10.0);
    assert_eq!(MINING_REWARD, 10.0f64.to_bits());
    let expected = wallet0.sign_transaction(reward.transaction.clone()).unwrap();
    assert_eq!(reward.signature, expected.signature);
}

#[test]
fn get_pow_leaves_block() {
    let mempool = Mempool::new();
    let mut block = Block::new("h".to_string());
    mempool.get_pow(&mut block);
    assert_eq!(block.nonce, 0);
}

#[test]
fn pool_answers_messages() {
    let mut app = App { mempool: Mempool::new() };
    assert!(handle_message(&mut app.mempool, Message::NewTransaction(signed("a", "b", 1.0, "x"), 1), 5).is_none());
    assert!(handle_message(&mut app.mempool, Message::NewBlock(Block::new("0".to_string()), 2), 5).is_none());
    assert_eq!(app.mempool.transactions.len(), 1);
    match handle_message(&mut app.mempool, Message::RetrieveTransactions(3), 7) {
        Some(Message::ListTransactions(txs, n)) => {
            assert_eq!(n, 7);
            assert_eq!(txs.len(), 1);
            assert_eq!(txs[0].signature, "x");
        }
        other => panic!("unexpected reply {:?}", other),
    }
    assert_eq!(app.mempool.transactions.len(), 1);
    assert!(handle_message(&mut app.mempool, Message::CancelTransaction(signed("a", "b", 1.0, "x"), 4), 5).is_none());
    assert!(app.mempool.transactions.is_empty());
    assert!(handle_message(&mut app.mempool, Message::CancelTransaction(signed("a", "b", 1.0, "x"), 4), 5).is_none());
}

#[test]
fn longer_list_replaces_pool() {
    let mut pool = Mempool::new();
    pool.new_transaction(signed("a", "b", 1.0, "mine"));
    handle_message(&mut pool, Message::ListTransactions(vec![signed("c", "d", 1.0, "other")], 1), 0);
    assert_eq!(sigs(&pool), vec!["mine".to_string()]);
    let longer = vec![signed("c", "d", 1.0, "o1"), signed("c", "d", 2.0, "o2")];
    handle_message(&mut pool, Message::ListTransactions(longer, 1), 0);
    assert_eq!(sigs(&pool), vec!["o1".to_string(), "o2".to_string()]);
}

#[test]
fn pools_synchronise() {
    let mut a = Mempool::new();
    a.new_transaction(signed("a", "b", 1.0, "a1"));
    a.new_transaction(signed("a", "b", 2.0, "a2"));
    let mut b = Mempool::new();
    b.new_transaction(signed("c", "d", 1.0, "b1"));
    let reply = handle_message(&mut a, Message::RetrieveTransactions(1), 9).unwrap();
    assert!(handle_message(&mut b, reply, 3).is_none());
    assert_eq!(sigs(&b), vec!["a1".to_string(), "a2".to_string()]);
    assert_eq!(sigs(&a), vec!["a1".to_string(), "a2".to_string()]);
}

#[test]
fn announced_transaction_joins_pool() {
    let mut pool = Mempool::new();
    let msg = announce_new_transaction(&mut pool, "Eli".to_string(), "Ari".to_string(), 10.0f64.to_bits(), 42);
    assert_eq!(pool.transactions.len(), 1);
    assert_eq!(pool.transactions[0].signature, "hi");
    match msg {
        Message::NewTransaction(t, n) => {
            assert_eq!(n, 42);
            assert_eq!(t.transaction.sender, "Eli");
            assert_eq!(t.get_hash(), pool.transactions[0].get_hash());
        }
        other => panic!("unexpected message {:?}", other),
    }
}

#[test]
fn node_starts_empty_with_minting_wallet() {
    let node = Node::new();
    assert!(node.mempool.transactions.is_empty());
    assert!(node.blockchain.blocks.is_empty());
    assert!(node.can_sign_as_wallet(&"0".to_string()));
    assert!(!node.can_sign_as_wallet(&"nobody".to_string()));
}

#[test]
fn node_transactions_and_withdrawal() {
    let mut node = Node::new();
    node.wallet_manager.new_wallet("alice".to_string());
    assert!(!node.try_new_transaction("nobody".to_string(), "bob".to_string(), 1.0f64.to_bits()));
    assert!(node.mempool.transactions.is_empty());
    assert!(node.try_new_transaction("alice".to_string(), "bob".to_string(), 1.0f64.to_bits()));
    assert_eq!(node.mempool.transactions.len(), 1);
    let taken = node.withdraw_transaction().unwrap();
    assert_eq!(taken.transaction.sender, "alice");
    assert!(node.mempool.transactions.is_empty());
    assert!(node.withdraw_transaction().is_none());
}

#[test]
fn node_mines_after_its_chain() {
    let mut node = Node::new();
    node.wallet_manager.new_wallet("alice".to_string());
    assert!(node.new_transaction("alice".to_string(), "bob".to_string(), 1.0f64.to_bits()));
    let block = node.try_mine("alice".to_string()).unwrap();
    assert_eq!(block.prev_hash, "0");
    assert_eq!(block.transactions.len(), 2);
    assert!(node.mempool.transactions.is_empty());
    assert_eq!(node.blockchain.append_block(block.clone(), true), Ok(()));
    let next = node.try_mine("alice".to_string()).unwrap();
    assert_eq!(next.prev_hash, block.get_hash());
}

#[test]
fn node_without_minting_wallet_does_not_mine() {
    let mut node = Node {
        mempool: Mempool::new(),
        blockchain: Blockchain::new(),
        wallet_manager: WalletManager { wallets: vec![] },
    };
    assert!(node.try_mine("alice".to_string()).is_none());
}

fn node_with_blocks(n: usize) -> Node {
    let mut node = Node::new();
    for _ in 0..n {
        let b = Block::new(node.blockchain.get_prev_hash());
        node.blockchain.append_block(b, true).unwrap();
    }
    node
}

#[test]
fn node_answers_chain_requests() {
    let mut node = node_with_blocks(2);
    match node.handle_message(NodeMessage::RetrieveBlockchain, false) {
        MessageOutcome::Publish(NodeMessage::Blockchain(chain, wallets)) => {
            assert_eq!(chain.blocks.len(), 2);
            assert_eq!(wallets.wallets.len(), 1);
        }
        other => panic!("unexpected outcome {:?}", other),
    }
}

#[test]
fn node_keeps_longer_chain() {
    let mut node = node_with_blocks(2);
    let shorter = node_with_blocks(1);
    assert!(matches!(
        node.handle_message(NodeMessage::Blockchain(shorter.blockchain, shorter.wallet_manager), false),
        MessageOutcome::CurrentChainIsNewer
    ));
    assert_eq!(node.blockchain.blocks.len(), 2);
    let same = node_with_blocks(2);
    assert!(matches!(
        node.handle_message(NodeMessage::Blockchain(same.blockchain, same.wallet_manager), false),
        MessageOutcome::SameLength
    ));
    let longer = node_with_blocks(3);
    assert!(matches!(
        node.handle_message(NodeMessage::Blockchain(longer.blockchain, longer.wallet_manager), false),
        MessageOutcome::ReplacedChain
    ));
    assert_eq!(node.blockchain.blocks.len(), 3);
}

#[test]
fn nodes_synchronise() {
    let mut a = node_with_blocks(3);
    a.wallet_manager.new_wallet("alice".to_string());
    let mut b = node_with_blocks(1);
    let reply = match a.handle_message(NodeMessage::RetrieveBlockchain, false) {
        MessageOutcome::Publish(m) => m,
        other => panic!("unexpected outcome {:?}", other),
    };
    b.handle_message(reply, false);
    assert_eq!(b.blockchain.blocks.len(), 3);
    assert_eq!(b.blockchain.get_prev_hash(), a.blockchain.get_prev_hash());
    assert!(b.wallet_manager.has_wallet(&"alice".to_string()));
    assert_eq!(
        b.wallet_manager.get_wallet(&"0".to_string()).private_key,
        a.wallet_manager.get_wallet(&"0".to_string()).private_key
    );
}

#[test]
fn node_takes_valid_new_blocks_only() {
    let mut node = Node::new();
    let b = Block::new(node.blockchain.get_prev_hash());
    let other = WalletManager::new();
    assert!(matches!(
        node.handle_message(NodeMessage::NewBlock(b.clone(), other.clone()), false),
        MessageOutcome::BlockRejected(ChainError::BlockDidNotValidate)
    ));
    assert!(node.blockchain.blocks.is_empty());
    assert!(matches!(node.handle_message(NodeMessage::NewBlock(b, other), true), MessageOutcome::BlockAdded));
    assert_eq!(node.blockchain.blocks.len(), 1);
}

#[test]
fn cancel_in_a_chosen_byte_order() {
    for little in [true, false] {
        let mut mempool = Mempool::new();
        mempool.new_transaction(signed("a", "b", 1.0, "x"));
        let t = signed("c", "d", 2.0, "y");
        mempool.new_transaction(t.clone());
        assert_eq!(mempool.cancel_with_byte_order(t.clone(), little), Ok(()));
        assert_eq!(sigs(&mempool), vec!["x".to_string()]);
        assert_eq!(mempool.cancel_with_byte_order(t, little), Err(MempoolError::TransactionNotFound));
        assert_eq!(sigs(&mempool), vec!["x".to_string()]);
    }
}

#[test]
fn pool_mines_in_a_chosen_byte_order() {
    let wallet0 = Wallet::new();
    for little in [true, false] {
        let mut mempool = Mempool::new();
        mempool.new_transaction(signed("a", "b", 1.0, "x"));
        let block = mempool.mine_with_byte_order("PREV".to_string(), &wallet0, "m".to_string(), little).unwrap();
        assert!(mempool.transactions.is_empty());
        assert_eq!(block.prev_hash, "PREV");
        let reward = &block.transactions[1];
        let expected = wallet0.sign_with_byte_order(reward.transaction.clone(), little).unwrap();
        assert_eq!(reward.signature, expected.signature);
    }
}

#[test]
fn node_mines_after_its_chain_in_a_chosen_byte_order() {
    for little in [true, false] {
        let mut node = Node::new();
        node.wallet_manager.new_wallet("alice".to_string());
        assert!(node.new_transaction_with_byte_order("alice".to_string(), "bob".to_string(), 1.0f64.to_bits(), little));
        let first = node.mine_with_byte_order("alice".to_string(), little).unwrap();
        assert_eq!(first.prev_hash, node.blockchain.prev_hash_with_byte_order(little));
        assert_eq!(node.append_mined_block(first.clone(), true).is_some(), true);
        let second = node.mine_with_byte_order("alice".to_string(), little).unwrap();
        assert_eq!(second.prev_hash, first.hash_with_byte_order(little));
        assert_eq!(second.prev_hash, node.blockchain.prev_hash_with_byte_order(little));
    }
}

#[test]
fn settling_keeps_or_withdraws_the_newest_transaction() {
    let mut node = Node::new();
    node.wallet_manager.new_wallet("alice".to_string());
    assert!(node.try_new_transaction("alice".to_string(), "bob".to_string(), 1.0f64.to_bits()));
    assert!(node.settle_new_transaction(true));
    assert_eq!(node.mempool.transactions.len(), 1);
    assert!(node.try_new_transaction("alice".to_string(), "carol".to_string(), 2.0f64.to_bits()));
    assert!(!node.settle_new_transaction(false));
    assert_eq!(node.mempool.transactions.len(), 1);
    assert_eq!(node.mempool.transactions[0].transaction.reciever, "bob");
}

#[test]
fn mined_block_is_announced_only_when_valid() {
    let mut node = Node::new();
    let block = node.try_mine("miner".to_string()).unwrap();
    assert!(node.append_mined_block(block.clone(), false).is_none());
    assert!(node.blockchain.blocks.is_empty());
    match node.append_mined_block(block.clone(), true) {
        Some(NodeMessage::NewBlock(b, w)) => {
            assert_eq!(b.get_hash(), block.get_hash());
            assert_eq!(w.wallets.len(), node.wallet_manager.wallets.len());
        }
        _ => panic!("expected an announcement"),
    }
    assert_eq!(node.blockchain.blocks.len(), 1);
}

#[test]
fn take_block_empties_the_pool_into_a_block() {
    let mut mempool = Mempool::new();
    mempool.new_transaction(signed("a", "b", 1.0, "x"));
    mempool.new_transaction(signed("c", "d", 2.0, "y"));
    let block = mempool.take_block("PREV".to_string());
    assert!(mempool.transactions.is_empty());
    assert_eq!(block.prev_hash, "PREV");
    assert_eq!(block.nonce, 0);
    assert!(block.validate_pow());
    let taken: Vec<String> = block.transactions.iter().map(|t| t.signature.clone()).collect();
    assert_eq!(taken, vec!["x".to_string(), "y".to_string()]);
}

#[test]
fn try_new_transaction_pools_the_signed_transfer() {
    let mut node = Node::new();
    node.wallet_manager.new_wallet("alice".to_string());
    assert!(node.try_new_transaction("alice".to_string(), "bob".to_string(), 5.0f64.to_bits()));
    let pooled = node.mempool.transactions[0].clone();
    let wallet = node.wallet_manager.get_wallet(&"alice".to_string());
    let expected = wallet.sign_transaction(pooled.transaction.clone()).unwrap();
    assert_eq!(pooled.signature, expected.signature);
    assert_eq!(pooled.signature.len(), 128);
    assert_eq!(pooled.transaction.reciever, "bob");
    assert_eq!(f64::from_bits(pooled.transaction.amt), 5.0);
}

#[test]
fn new_wallets_have_lower_case_keys_of_full_length() {
    let node = Node::new();
    let w = node.wallet_manager.get_wallet(&"0".to_string());
    assert_eq!(w.private_key.len(), 64);
    assert_eq!(w.public_key.len(), 66);
    assert!(w.private_key.chars().all(|c| c.is_ascii_digit() || ('a'..='f').contains(&c)));
}
