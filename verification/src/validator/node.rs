use vstd::prelude::*;
use crate::blockchain::block::Block;
use crate::blockchain::blockchain::{Blockchain, ChainError};
use crate::blockchain::signed_transaction::SignedTransaction;
use crate::blockchain::transaction::{minting_account, Transaction};
use crate::blockchain::wallet::Wallet;
use crate::blockchain::wallet_manager::WalletManager;
use crate::mempool::mempool::{mined_as, Mempool};
use crate::hashing::{machine_little, native_order_is_little};
use super::message::Message;

verus! {

/// What became of a message that a node received.
#[derive(Debug)]
pub enum MessageOutcome {
    /// The node answers with this message.
    Publish(Message),
    /// The node's own chain is longer than the one it was sent, and stays.
    CurrentChainIsNewer,
    /// The chain it was sent is as long as the node's own, which stays.
    SameLength,
    /// The chain it was sent is longer and took the place of the node's own.
    ReplacedChain,
    /// The block it was sent joined the chain.
    BlockAdded,
    /// The block it was sent did not join the chain.
    BlockRejected(ChainError),
}

/// A validator node's state: the pool of waiting transactions, the chain and
/// the wallets. The node's network connection is kept beside it.
#[derive(Debug)]
pub struct Node {
    pub mempool: Mempool,
    pub blockchain: Blockchain,
    pub wallet_manager: WalletManager,
}

/// Whether `after` and `outcome` are how a node in state `before` answers
/// `message`; for a new block, `block_transactions_valid` tells whether its
/// transactions validate after the node's chain.
///  - a request for the chain is answered with the chain and the wallets;
///  - a chain takes the place of the node's own when it is longer;
///  - a new block joins the chain when it validates;
///  - the wallets that come with a chain or a block are taken over, theirs
///    winning over the node's where both have a name.
/// The pool never changes.
pub open spec fn node_answers(
    before: Node,
    after: Node,
    message: Message,
    block_transactions_valid: bool,
    outcome: MessageOutcome,
) -> bool {
    &&& after.mempool == before.mempool
    &&& match message {
        Message::RetrieveBlockchain => {
            &&& after.blockchain == before.blockchain
            &&& after.wallet_manager == before.wallet_manager
            &&& outcome matches MessageOutcome::Publish(Message::Blockchain(chain, wallets))
            &&& chain.blocks@.len() == before.blockchain.blocks@.len()
            &&& (forall|i: int| 0 <= i < chain.blocks@.len() ==> {
                &&& (#[trigger] chain.blocks@[i]).prev_hash == before.blockchain.blocks@[i].prev_hash
                &&& chain.blocks@[i].transactions@ == before.blockchain.blocks@[i].transactions@
                &&& chain.blocks@[i].nonce == before.blockchain.blocks@[i].nonce
            })
            &&& wallets.wallets@ == before.wallet_manager.wallets@
        },
        Message::Blockchain(chain, wallets) => {
            &&& after.wallet_manager.wallet_map() == before.wallet_manager.wallet_map().union_prefer_right(wallets.wallet_map())
            &&& chain.blocks@.len() < before.blockchain.blocks@.len() ==> outcome is CurrentChainIsNewer
                && after.blockchain == before.blockchain
            &&& chain.blocks@.len() == before.blockchain.blocks@.len() ==> outcome is SameLength
                && after.blockchain == before.blockchain
            &&& chain.blocks@.len() > before.blockchain.blocks@.len() ==> outcome is ReplacedChain
                && after.blockchain == chain
        },
        Message::NewBlock(block, wallets) => {
            &&& after.wallet_manager.wallet_map() == before.wallet_manager.wallet_map().union_prefer_right(wallets.wallet_map())
            &&& block_transactions_valid ==> outcome is BlockAdded
                && after.blockchain.blocks@ == before.blockchain.blocks@.push(block)
            &&& !block_transactions_valid ==> outcome == MessageOutcome::BlockRejected(ChainError::BlockDidNotValidate)
                && after.blockchain.blocks@ == before.blockchain.blocks@
        },
    }
}

/// A node that is sent a chain ends up with a chain as long as the longer of
/// its own and that one; it never keeps the shorter one.
pub proof fn lemma_node_keeps_longer_chain(
    before: Node,
    after: Node,
    chain: Blockchain,
    wallets: WalletManager,
    valid: bool,
    outcome: MessageOutcome,
)
    requires
        node_answers(before, after, Message::Blockchain(chain, wallets), valid, outcome),
    ensures
        after.blockchain.blocks@.len() == (if chain.blocks@.len() > before.blockchain.blocks@.len() {
            chain.blocks@.len()
        } else {
            before.blockchain.blocks@.len()
        }),
{
}

/// Synchronising two nodes: when node B is sent what node A answers to a
/// request for its chain, A is unchanged, B's chain is at least as long as
/// A's and as its own, and B holds A's wallets besides its own, A's winning
/// where both have a name.
pub proof fn lemma_nodes_synchronise(
    a_before: Node,
    a_after: Node,
    b_before: Node,
    b_after: Node,
    a_valid: bool,
    a_outcome: MessageOutcome,
    b_valid: bool,
    b_outcome: MessageOutcome,
)
    requires
        node_answers(a_before, a_after, Message::RetrieveBlockchain, a_valid, a_outcome),
        a_outcome is Publish,
        node_answers(b_before, b_after, a_outcome->Publish_0, b_valid, b_outcome),
    ensures
        a_after == a_before,
        b_after.blockchain.blocks@.len() >= a_before.blockchain.blocks@.len(),
        b_after.blockchain.blocks@.len() >= b_before.blockchain.blocks@.len(),
        b_after.wallet_manager.wallet_map() == b_before.wallet_manager.wallet_map().union_prefer_right(
            a_before.wallet_manager.wallet_map(),
        ),
{
}

/// Whether `after` and `done` are what adding the transfer from `sender` to
/// `reciever` of `amt`, signed by `wallet` with amounts laid out in the order
/// `little` chooses, gives a pool that held `before`: the signed transfer
/// joins the pool and `done` is true; or, where signing fails, the pool stays
/// as it was and `done` is false.
pub open spec fn pooled_as(
    before: Seq<SignedTransaction>,
    after: Seq<SignedTransaction>,
    wallet: Wallet,
    sender: String,
    reciever: String,
    amt: u64,
    little: bool,
    done: bool,
) -> bool {
    let transfer = Transaction { sender, reciever, amt };
    if done {
        &&& after.len() == before.len() + 1
        &&& after.drop_last() == before
        &&& wallet.signed_as(transfer, little, Some(after.last()))
    } else {
        &&& after == before
        &&& wallet.signed_as(transfer, little, None)
    }
}

impl Node {
    pub open spec fn wf(&self) -> bool {
        self.wallet_manager.wf()
    }

    /// Whether the wallet named `name` exists and can sign.
    pub open spec fn can_sign_as(&self, name: Seq<char>) -> bool {
        &&& self.wallet_manager.wallet_map().dom().contains(name)
        &&& self.wallet_manager.wallet_map()[name].signs()
    }

    /// A node with an empty pool, an empty chain and only the minting wallet.
    pub fn new() -> (node: Node)
        ensures
            node.wf(),
            node.mempool.transactions@ == Seq::<SignedTransaction>::empty(),
            node.blockchain.blocks@ == Seq::<Block>::empty(),
            node.wallet_manager.wallet_map().dom() =~= Set::empty().insert(minting_account()),
            node.can_sign_as(minting_account()),
            node.wallet_manager.wallet_map()[minting_account()].fresh_key_pair(),
    {
        Node { mempool: Mempool::new(), blockchain: Blockchain::new(), wallet_manager: WalletManager::new() }
    }

    /// A transfer from `sender`'s wallet, signed by it with amounts laid out
    /// in the order `little` chooses, joins the pool, and the result is true.
    /// Where signing fails nothing changes and the result is false. Whether
    /// the pool still keeps balances at zero or above is worked out
    /// afterwards, and `settle_new_transaction` keeps it or takes it back out.
    pub fn new_transaction_with_byte_order(&mut self, sender: String, reciever: String, amt: u64, little: bool) -> (done: bool)
        requires
            old(self).wf(),
            old(self).can_sign_as(sender@),
        ensures
            final(self).wf(),
            final(self).blockchain == old(self).blockchain,
            final(self).wallet_manager == old(self).wallet_manager,
            pooled_as(
                old(self).mempool.transactions@,
                final(self).mempool.transactions@,
                old(self).wallet_manager.wallet_map()[sender@],
                sender,
                reciever,
                amt,
                little,
                done,
            ),
    {
        let ghost transfer = Transaction { sender, reciever, amt };
        let wallet = self.wallet_manager.get_wallet(&sender);
        let tx = Transaction::new(sender, reciever, amt);
        assert(tx == transfer);
        match wallet.sign_with_byte_order(tx, little) {
            Some(signed) => {
                self.mempool.new_transaction(signed);
                assert(self.mempool.transactions@.drop_last() =~= old(self).mempool.transactions@);
                true
            },
            None => false,
        }
    }

    /// `new_transaction_with_byte_order` with amounts in this machine's byte order.
    pub fn new_transaction(&mut self, sender: String, reciever: String, amt: u64) -> (done: bool)
        requires
            old(self).wf(),
            old(self).can_sign_as(sender@),
        ensures
            final(self).wf(),
            final(self).blockchain == old(self).blockchain,
            final(self).wallet_manager == old(self).wallet_manager,
            pooled_as(
                old(self).mempool.transactions@,
                final(self).mempool.transactions@,
                old(self).wallet_manager.wallet_map()[sender@],
                sender,
                reciever,
                amt,
                true,
                done,
            ) || pooled_as(
                old(self).mempool.transactions@,
                final(self).mempool.transactions@,
                old(self).wallet_manager.wallet_map()[sender@],
                sender,
                reciever,
                amt,
                false,
                done,
            ),
            pooled_as(
                old(self).mempool.transactions@,
                final(self).mempool.transactions@,
                old(self).wallet_manager.wallet_map()[sender@],
                sender,
                reciever,
                amt,
                machine_little(),
                done,
            ),
    {
        let little = native_order_is_little();
        self.new_transaction_with_byte_order(sender, reciever, amt, little)
    }

    /// Whether the wallet named `name` exists and can sign.
    pub fn can_sign_as_wallet(&self, name: &String) -> (ok: bool)
        requires
            self.wf(),
        ensures
            ok == self.can_sign_as(name@),
    {
        if self.wallet_manager.has_wallet(name) {
            self.wallet_manager.get_wallet(name).can_sign()
        } else {
            false
        }
    }

    /// `new_transaction` when `sender` names a wallet that can sign; otherwise
    /// nothing changes and the result is false.
    pub fn try_new_transaction(&mut self, sender: String, reciever: String, amt: u64) -> (done: bool)
        requires
            old(self).wf(),
        ensures
            final(self).wf(),
            !old(self).can_sign_as(sender@) ==> !done && *final(self) == *old(self),
            old(self).can_sign_as(sender@) ==> {
                &&& final(self).blockchain == old(self).blockchain
                &&& final(self).wallet_manager == old(self).wallet_manager
                &&& pooled_as(
                    old(self).mempool.transactions@,
                    final(self).mempool.transactions@,
                    old(self).wallet_manager.wallet_map()[sender@],
                    sender,
                    reciever,
                    amt,
                    true,
                    done,
                ) || pooled_as(
                    old(self).mempool.transactions@,
                    final(self).mempool.transactions@,
                    old(self).wallet_manager.wallet_map()[sender@],
                    sender,
                    reciever,
                    amt,
                    false,
                    done,
                )
            },
            old(self).can_sign_as(sender@) ==> pooled_as(
                old(self).mempool.transactions@,
                final(self).mempool.transactions@,
                old(self).wallet_manager.wallet_map()[sender@],
                sender,
                reciever,
                amt,
                machine_little(),
                done,
            ),
    {
        if self.can_sign_as_wallet(&sender) {
            self.new_transaction(sender, reciever, amt)
        } else {
            false
        }
    }

    /// Keeps the newest pooled transaction when `valid`; otherwise takes it
    /// back out. The result is `valid`.
    pub fn settle_new_transaction(&mut self, valid: bool) -> (kept: bool)
        ensures
            kept == valid,
            final(self).blockchain == old(self).blockchain,
            final(self).wallet_manager == old(self).wallet_manager,
            valid ==> final(self).mempool == old(self).mempool,
            !valid && old(self).mempool.transactions@.len() > 0 ==> final(self).mempool.transactions@
                == old(self).mempool.transactions@.drop_last(),
            !valid && old(self).mempool.transactions@.len() == 0 ==> final(self).mempool.transactions@
                == old(self).mempool.transactions@,
    {
        if !valid {
            self.withdraw_transaction();
        }
        valid
    }

    /// Takes the newest transaction back out of the pool.
    pub fn withdraw_transaction(&mut self) -> (taken: Option<SignedTransaction>)
        ensures
            final(self).blockchain == old(self).blockchain,
            final(self).wallet_manager == old(self).wallet_manager,
            old(self).mempool.transactions@.len() == 0 ==> taken is None
                && final(self).mempool.transactions@ == old(self).mempool.transactions@,
            old(self).mempool.transactions@.len() > 0 ==> taken == Some(old(self).mempool.transactions@.last())
                && final(self).mempool.transactions@ == old(self).mempool.transactions@.drop_last(),
    {
        self.mempool.transactions.pop()
    }

    /// Mines a block of the whole pool, with the reward for `miner` signed by
    /// the minting wallet, after the newest block of the chain; hashes lay
    /// amounts out in the order `little` chooses, for the reference to the
    /// newest block and for the reward's signature alike. The block is not
    /// appended here: its transactions are validated first.
    pub fn mine_with_byte_order(&mut self, miner: String, little: bool) -> (mined: Option<Block>)
        requires
            old(self).wf(),
            old(self).can_sign_as(minting_account()),
        ensures
            final(self).wf(),
            final(self).blockchain == old(self).blockchain,
            final(self).wallet_manager == old(self).wallet_manager,
            mined_as(
                old(self).mempool.transactions@,
                final(self).mempool.transactions@,
                old(self).blockchain.prev_hash_spec(little),
                old(self).wallet_manager.wallet_map()[minting_account()],
                miner,
                little,
                mined,
            ),
    {
        let mint = "0".to_owned();
        proof {
            reveal_strlit("0");
            assert(mint@ =~= minting_account());
        }
        let prev_hash = self.blockchain.prev_hash_with_byte_order(little);
        let wallet0 = self.wallet_manager.get_wallet(&mint);
        self.mempool.mine_with_byte_order(prev_hash, wallet0, miner, little)
    }

    /// `mine_with_byte_order` with amounts in this machine's byte order.
    pub fn mine(&mut self, miner: String) -> (mined: Option<Block>)
        requires
            old(self).wf(),
            old(self).can_sign_as(minting_account()),
        ensures
            final(self).wf(),
            final(self).blockchain == old(self).blockchain,
            final(self).wallet_manager == old(self).wallet_manager,
            mined_as(
                old(self).mempool.transactions@,
                final(self).mempool.transactions@,
                old(self).blockchain.prev_hash_spec(true),
                old(self).wallet_manager.wallet_map()[minting_account()],
                miner,
                true,
                mined,
            ) || mined_as(
                old(self).mempool.transactions@,
                final(self).mempool.transactions@,
                old(self).blockchain.prev_hash_spec(false),
                old(self).wallet_manager.wallet_map()[minting_account()],
                miner,
                false,
                mined,
            ),
            mined_as(
                old(self).mempool.transactions@,
                final(self).mempool.transactions@,
                old(self).blockchain.prev_hash_spec(machine_little()),
                old(self).wallet_manager.wallet_map()[minting_account()],
                miner,
                machine_little(),
                mined,
            ),
    {
        let little = native_order_is_little();
        self.mine_with_byte_order(miner, little)
    }

    /// `mine` when the minting wallet "0" exists and can sign; otherwise nothing
    /// changes and the result is `None`.
    pub fn try_mine(&mut self, miner: String) -> (mined: Option<Block>)
        requires
            old(self).wf(),
        ensures
            final(self).wf(),
            !old(self).can_sign_as(minting_account()) ==> mined is None && *final(self) == *old(self),
            old(self).can_sign_as(minting_account()) ==> {
                &&& final(self).blockchain == old(self).blockchain
                &&& final(self).wallet_manager == old(self).wallet_manager
                &&& mined_as(
                    old(self).mempool.transactions@,
                    final(self).mempool.transactions@,
                    old(self).blockchain.prev_hash_spec(true),
                    old(self).wallet_manager.wallet_map()[minting_account()],
                    miner,
                    true,
                    mined,
                ) || mined_as(
                    old(self).mempool.transactions@,
                    final(self).mempool.transactions@,
                    old(self).blockchain.prev_hash_spec(false),
                    old(self).wallet_manager.wallet_map()[minting_account()],
                    miner,
                    false,
                    mined,
                )
            },
            old(self).can_sign_as(minting_account()) ==> mined_as(
                old(self).mempool.transactions@,
                final(self).mempool.transactions@,
                old(self).blockchain.prev_hash_spec(machine_little()),
                old(self).wallet_manager.wallet_map()[minting_account()],
                miner,
                machine_little(),
                mined,
            ),
    {
        let mint = "0".to_owned();
        proof {
            reveal_strlit("0");
            assert(mint@ =~= minting_account());
        }
        if self.can_sign_as_wallet(&mint) {
            self.mine(miner)
        } else {
            None
        }
    }

    /// Appends a mined block when `transactions_valid`, and gives the message
    /// that announces it, with a copy of the block and of the node's wallets;
    /// otherwise the chain stays as it is and there is nothing to announce.
    pub fn append_mined_block(&mut self, block: Block, transactions_valid: bool) -> (announcement: Option<Message>)
        requires
            old(self).wf(),
        ensures
            final(self).wf(),
            final(self).mempool == old(self).mempool,
            final(self).wallet_manager == old(self).wallet_manager,
            transactions_valid ==> {
                &&& final(self).blockchain.blocks@ == old(self).blockchain.blocks@.push(block)
                &&& announcement matches Some(Message::NewBlock(b, w))
                &&& b.prev_hash == block.prev_hash
                &&& b.transactions@ == block.transactions@
                &&& b.nonce == block.nonce
                &&& w.wallets@ == old(self).wallet_manager.wallets@
            },
            !transactions_valid ==> final(self).blockchain.blocks@ == old(self).blockchain.blocks@
                && announcement is None,
    {
        let copy = block.clone();
        match self.blockchain.append_block(block, transactions_valid) {
            Ok(()) => Some(Message::NewBlock(copy, self.wallet_manager.clone())),
            Err(_) => None,
        }
    }

    /// How the node answers a message. For a new block, `block_transactions_valid`
    /// says whether its transactions keep balances at zero or above after the
    /// node's chain; other messages do not look at it.
    pub fn handle_message(&mut self, message: Message, block_transactions_valid: bool) -> (outcome: MessageOutcome)
        requires
            old(self).wf(),
        ensures
            final(self).wf(),
            node_answers(*old(self), *final(self), message, block_transactions_valid, outcome),
    {
        match message {
            Message::RetrieveBlockchain => {
                let reply = Message::Blockchain(self.blockchain.clone(), self.wallet_manager.clone());
                MessageOutcome::Publish(reply)
            },
            Message::Blockchain(blockchain, wallet_manager) => {
                self.wallet_manager.combine(wallet_manager);
                if blockchain.blocks.len() < self.blockchain.blocks.len() {
                    MessageOutcome::CurrentChainIsNewer
                } else if blockchain.blocks.len() == self.blockchain.blocks.len() {
                    MessageOutcome::SameLength
                } else {
                    self.blockchain = blockchain;
                    MessageOutcome::ReplacedChain
                }
            },
            Message::NewBlock(block, wallet_manager) => {
                self.wallet_manager.combine(wallet_manager);
                match self.blockchain.append_block(block, block_transactions_valid) {
                    Ok(()) => MessageOutcome::BlockAdded,
                    Err(e) => MessageOutcome::BlockRejected(e),
                }
            },
        }
    }
}

} // verus!
