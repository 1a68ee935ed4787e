use vstd::prelude::*;
use crate::blockchain::block::Block;
use crate::blockchain::signed_transaction::SignedTransaction;

verus! {

/// What pools tell each other. The number in each message tells apart
/// messages that would otherwise be alike.
#[derive(Debug)]
pub enum Message {
    NewTransaction(SignedTransaction, u16),
    CancelTransaction(SignedTransaction, u16),
    NewBlock(Block, u16),
    RetrieveTransactions(u16),
    ListTransactions(Vec<SignedTransaction>, u16),
}

} // verus!
