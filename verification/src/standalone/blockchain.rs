use vstd::prelude::*;
use super::block::Block;
use crate::hashing::{machine_little, native_order_is_little};

verus! {

/// The hash text that the first block of a chain refers to.
pub open spec fn genesis_prev_hash() -> Seq<char> {
    seq!['0']
}

/// On this machine the hash that a new block must refer to
/// (`get_prev_hash`, and the reference of `get_new_block`) is that of the newest block as
/// `Block::get_hash` gives it, amounts in this machine's byte order; it is
/// "0" for an empty chain, and after an append it is the appended block's.
pub proof fn lemma_prev_hash_on_this_machine(before: Blockchain, after: Blockchain, block: Block)
    requires
        after.blocks@ == before.blocks@.push(block),
    ensures
        after.prev_hash_spec(machine_little()) == block.hash_spec(machine_little()),
        before.blocks@.len() == 0 ==> before.prev_hash_spec(machine_little()) == seq!['0'],
        before.blocks@.len() > 0 ==> before.prev_hash_spec(machine_little())
            == before.blocks@.last().hash_spec(machine_little()),
{
}

/// Once a block is appended, it is the block that a new block refers to.
pub proof fn lemma_appended_block_is_next_reference(before: Blockchain, after: Blockchain, block: Block, little: bool)
    requires
        after.blocks@ == before.blocks@.push(block),
    ensures
        after.prev_hash_spec(little) == block.hash_spec(little),
{
}

/// The blocks of the ledger, oldest first.
#[derive(Debug)]
pub struct Blockchain {
    pub blocks: Vec<Block>,
}

impl Blockchain {
    /// The hash text that a new block has to refer to, when amounts are laid
    /// out in the order `little` chooses.
    pub open spec fn prev_hash_spec(&self, little: bool) -> Seq<char> {
        if self.blocks@.len() == 0 {
            genesis_prev_hash()
        } else {
            self.blocks@.last().hash_spec(little)
        }
    }

    pub fn new() -> (chain: Self)
        ensures
            chain.blocks@ == Seq::<Block>::empty(),
    {
        Blockchain { blocks: Vec::new() }
    }

    pub fn append_block(&mut self, block: Block)
        ensures
            final(self).blocks@ == old(self).blocks@.push(block),
    {
        self.blocks.push(block);
    }

    /// Raises the block's nonce until the block validates; every block
    /// validates here, so the block stays as it is.
    pub fn mine_block(&self, block: &mut Block)
        ensures
            *final(block) == *old(block),
            final(block).is_valid(),
    {
        while !block.validate()
            invariant
                *block == *old(block),
            decreases i32::MAX - block.nonce,
        {
            block.increase_nonce();
        }
    }

    /// The hash of the newest block, or "0" when there is none, with amounts
    /// laid out in the order `little` chooses.
    pub fn prev_hash_with_byte_order(&self, little: bool) -> (hash: String)
        ensures
            hash@ == self.prev_hash_spec(little),
    {
        if self.blocks.len() == 0 {
            let genesis = "0".to_owned();
            proof {
                reveal_strlit("0");
            }
            genesis
        } else {
            self.blocks[self.blocks.len() - 1].hash_with_byte_order(little)
        }
    }

    /// The hash of the newest block, or "0" when there is none, with amounts
    /// in this machine's byte order.
    pub fn get_prev_hash(&self) -> (hash: String)
        ensures
            hash@ == self.prev_hash_spec(true) || hash@ == self.prev_hash_spec(false),
            hash@ == self.prev_hash_spec(machine_little()),
    {
        let little = native_order_is_little();
        self.prev_hash_with_byte_order(little)
    }

    /// An empty block that refers to the newest block.
    pub fn get_new_block(&self) -> (block: Block)
        ensures
            block.prev_hash@ == self.prev_hash_spec(true) || block.prev_hash@
                == self.prev_hash_spec(false),
            block.prev_hash@ == self.prev_hash_spec(machine_little()),
            block.transactions@ == Seq::<super::transaction::Transaction>::empty(),
            block.nonce == 0,
    {
        Block::new(self.get_prev_hash())
    }
}

} // verus!
