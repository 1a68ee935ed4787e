use vstd::prelude::*;
use crate::blockchain::signed_transaction::SignedTransaction;
use crate::blockchain::transaction::Transaction;
use crate::text::{chars_of, is_word, starts_with, starts_with_spec, words, words_spec};
use super::mempool::Mempool;
use super::message::Message;

verus! {

/// A command typed at a pool.
#[derive(Debug, PartialEq, Eq)]
pub enum PoolCommand {
    /// A transfer from the first wallet to the second of the amount written in
    /// the third word.
    NewTx(String, String, String),
    TxList,
    ReqSync,
    BroadcastSync,
    /// The line names no command.
    Unrecognized,
    /// A transfer that lacks a word it needs.
    MissingArgument,
}

/// Reads a line typed at a pool. A line that begins with "newtx" is a transfer
/// whose words, split at white space, follow the command word; the other
/// commands are whole lines.
pub fn parse_pool_command(line: &str) -> (command: PoolCommand)
    ensures
        ({
            let s = line@;
            let w = words_spec(s);
            let transfer = starts_with_spec(s, "newtx"@);
            match command {
                PoolCommand::NewTx(from, to, amount) => transfer && w.len() >= 4 && from@ == w[1]
                    && to@ == w[2] && amount@ == w[3],
                PoolCommand::MissingArgument => transfer && w.len() < 4,
                PoolCommand::TxList => !transfer && s == "txlist"@,
                PoolCommand::ReqSync => !transfer && s == "reqsync"@,
                PoolCommand::BroadcastSync => !transfer && s == "broadcastsync"@,
                PoolCommand::Unrecognized => !transfer && s != "txlist"@ && s != "reqsync"@ && s
                    != "broadcastsync"@,
            }
        }),
{
    let chars = chars_of(line);
    if starts_with(&chars, "newtx") {
        let mut args = words(&chars);
        if args.len() < 4 {
            PoolCommand::MissingArgument
        } else {
            assert(args@[1]@ == words_spec(line@)[1]);
            assert(args@[2]@ == words_spec(line@)[2]);
            assert(args@[3]@ == words_spec(line@)[3]);
            let amount = args.remove(3);
            let to = args.remove(2);
            let from = args.remove(1);
            PoolCommand::NewTx(from, to, amount)
        }
    } else {
        let whole = line.to_owned();
        if is_word(&whole, "txlist") {
            PoolCommand::TxList
        } else if is_word(&whole, "reqsync") {
            PoolCommand::ReqSync
        } else if is_word(&whole, "broadcastsync") {
            PoolCommand::BroadcastSync
        } else {
            PoolCommand::Unrecognized
        }
    }
}

/// A transfer typed at this pool: it joins the pool, and the message that
/// announces it to the other pools is returned. Such a transfer carries the
/// signature text "hi".
pub fn announce_new_transaction(
    mempool: &mut Mempool,
    sender: String,
    reciever: String,
    amt: u64,
    nonce: u16,
) -> (announcement: Message)
    ensures
        final(mempool).transactions@.len() == old(mempool).transactions@.len() + 1,
        final(mempool).transactions@.drop_last() == old(mempool).transactions@,
        ({
            let tx = final(mempool).transactions@.last();
            &&& tx.transaction.sender == sender
            &&& tx.transaction.reciever == reciever
            &&& tx.transaction.amt == amt
            &&& tx.signature@ == "hi"@
            &&& announcement == Message::NewTransaction(tx, nonce)
        }),
{
    let signed = SignedTransaction {
        transaction: Transaction::new(sender, reciever, amt),
        signature: "hi".to_owned(),
    };
    let announcement = Message::NewTransaction(signed.clone(), nonce);
    mempool.new_transaction(signed);
    announcement
}

} // verus!
