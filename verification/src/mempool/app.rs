use vstd::prelude::*;
use crate::blockchain::block::copy_transactions;
use super::mempool::{cancel_outcome, Mempool};
use super::message::Message;
use crate::hashing::machine_little;
use crate::blockchain::signed_transaction::SignedTransaction;

verus! {

/// A pool that takes part in the network.
#[derive(Debug)]
pub struct App {
    pub mempool: Mempool,
}

/// Whether `after` and `reply` are how a pool holding `before` answers
/// `message`, with `nonce` put into the reply:
///  - a new transaction joins the pool, a cancelled one leaves it as
///    `cancel_transaction` removes it, by hashes in this machine's byte order;
///  - a new block changes nothing;
///  - a request for the transactions is answered with all of them;
///  - a list of transactions takes the place of the pool's when it is longer.
pub open spec fn pool_answers(
    before: Seq<SignedTransaction>,
    after: Seq<SignedTransaction>,
    message: Message,
    nonce: u16,
    reply: Option<Message>,
) -> bool {
    match message {
        Message::NewTransaction(tx, _) => {
            &&& after == before.push(tx)
            &&& reply is None
        },
        Message::CancelTransaction(tx, _) => {
            &&& exists|result| cancel_outcome(before, after, tx, result, machine_little())
            &&& reply is None
        },
        Message::NewBlock(..) => {
            &&& after == before
            &&& reply is None
        },
        Message::RetrieveTransactions(_) => {
            &&& after == before
            &&& reply matches Some(Message::ListTransactions(txs, n)) && txs@ == before && n == nonce
        },
        Message::ListTransactions(txs, _) => {
            &&& before.len() < txs@.len() ==> after == txs@
            &&& before.len() >= txs@.len() ==> after == before
            &&& reply is None
        },
    }
}

/// A pool that is sent a list of transactions ends up with the longer of the
/// two lists, its own when they are as long; it never loses transactions
/// that way.
pub proof fn lemma_list_keeps_longer(
    before: Seq<SignedTransaction>,
    after: Seq<SignedTransaction>,
    txs: Vec<SignedTransaction>,
    tag: u16,
    nonce: u16,
    reply: Option<Message>,
)
    requires
        pool_answers(before, after, Message::ListTransactions(txs, tag), nonce, reply),
    ensures
        after == (if before.len() < txs@.len() { txs@ } else { before }),
        after.len() >= before.len(),
{
}

/// Synchronising two pools: when pool B is sent what pool A answers to a
/// request for its transactions, A is unchanged and B ends up with A's list
/// if that one is longer, with its own otherwise.
pub proof fn lemma_pools_synchronise(
    a_before: Seq<SignedTransaction>,
    a_after: Seq<SignedTransaction>,
    b_before: Seq<SignedTransaction>,
    b_after: Seq<SignedTransaction>,
    tag: u16,
    a_nonce: u16,
    a_reply: Option<Message>,
    b_nonce: u16,
    b_reply: Option<Message>,
)
    requires
        pool_answers(a_before, a_after, Message::RetrieveTransactions(tag), a_nonce, a_reply),
        a_reply is Some,
        pool_answers(b_before, b_after, a_reply->0, b_nonce, b_reply),
    ensures
        a_after == a_before,
        b_before.len() < a_before.len() ==> b_after == a_before,
        b_before.len() >= a_before.len() ==> b_after == b_before,
        b_reply is None,
{
}

/// How a pool answers a message, and the message it publishes in reply, if
/// any; `nonce` tells the reply apart from alike messages.
pub fn handle_message(mempool: &mut Mempool, message: Message, nonce: u16) -> (reply: Option<Message>)
    ensures
        pool_answers(old(mempool).transactions@, final(mempool).transactions@, message, nonce, reply),
{
    match message {
        Message::NewTransaction(tx, _) => {
            mempool.new_transaction(tx);
            None
        },
        Message::CancelTransaction(tx, _) => {
            let _ = mempool.cancel_transaction(tx);
            None
        },
        Message::NewBlock(block, _) => {
            mempool.new_block(block);
            None
        },
        Message::RetrieveTransactions(_) => {
            Some(Message::ListTransactions(copy_transactions(&mempool.transactions), nonce))
        },
        Message::ListTransactions(txs, _) => {
            if mempool.transactions.len() < txs.len() {
                mempool.transactions = txs;
            }
            None
        },
    }
}

} // verus!
