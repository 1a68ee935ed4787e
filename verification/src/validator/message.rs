use vstd::prelude::*;
use crate::blockchain::block::Block;
use crate::blockchain::blockchain::Blockchain;
use crate::blockchain::wallet_manager::WalletManager;

verus! {

/// What validator nodes tell each other.
#[derive(Debug)]
pub enum Message {
    /// Asks every node for its chain.
    RetrieveBlockchain,
    /// A node's chain and wallets.
    Blockchain(Blockchain, WalletManager),
    /// A block that a node mined, with that node's wallets.
    NewBlock(Block, WalletManager),
}

} // verus!
