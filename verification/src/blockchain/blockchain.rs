use vstd::prelude::*;
use super::block::Block;
use crate::hashing::{machine_little, native_order_is_little};
use super::signed_transaction::SignedTransaction;
use super::transaction::Transaction;

verus! {

/// The hash text that the first block of a chain refers to.
pub open spec fn genesis_prev_hash() -> Seq<char> {
    seq!['0']
}

/// The transfers of the signed transactions, in order.
pub open spec fn transfers(signed: Seq<SignedTransaction>) -> Seq<Transaction> {
    signed.map_values(|s: SignedTransaction| s.transaction)
}

/// Every transfer recorded in the blocks, oldest block first and in block order.
pub open spec fn chain_transfers(blocks: Seq<Block>) -> Seq<Transaction>
    decreases blocks.len(),
{
    if blocks.len() == 0 {
        Seq::empty()
    } else {
        chain_transfers(blocks.drop_last()) + transfers(blocks.last().transactions@)
    }
}

/// The transfers of a chain with one more block are those of the chain, then
/// those of the block; so the transfers that `ledger_transfers` lists for a
/// block's transactions are the whole ledger of the chain once the block is
/// appended.
pub proof fn lemma_ledger_after_append(blocks: Seq<Block>, block: Block)
    ensures
        chain_transfers(blocks.push(block)) == chain_transfers(blocks) + transfers(block.transactions@),
{
    assert(blocks.push(block).drop_last() =~= blocks);
}

/// On this machine the hash that a new block must refer to
/// (`get_prev_hash`) is that of the newest block as
/// `Block::get_hash` gives it, amounts in this machine's byte order; it is
/// "0" for an empty chain, and after an append it is the appended block's.
pub proof fn lemma_prev_hash_on_this_machine(before: Blockchain, after: Blockchain, block: Block)
    requires
        after.blocks@ == before.blocks@.push(block),
    ensures
        after.prev_hash_spec(machine_little()) == block.hash_spec(machine_little()),
        before.blocks@.len() == 0 ==> before.prev_hash_spec(machine_little()) == seq!['0'],
        before.blocks@.len() > 0 ==> before.prev_hash_spec(machine_little())
            == before.blocks@.last().hash_spec(machine_little()),
{
}

/// Once a block is appended, it is the block that a new block refers to.
pub proof fn lemma_appended_block_is_next_reference(before: Blockchain, after: Blockchain, block: Block, little: bool)
    requires
        after.blocks@ == before.blocks@.push(block),
    ensures
        after.prev_hash_spec(little) == block.hash_spec(little),
{
}

/// Why the chain refused a block.
#[derive(Debug, PartialEq, Eq, Structural)]
pub enum ChainError {
    /// The block's proof of work or its transactions did not validate.
    BlockDidNotValidate,
}

impl ChainError {
    /// The text that reports the error.
    pub fn message(&self) -> (text: &'static str)
        ensures
            text@ == "Block didn't validate"@,
    {
        match self {
            ChainError::BlockDidNotValidate => "Block didn't validate",
        }
    }
}

/// The blocks of the ledger, oldest first.
#[derive(Debug)]
pub struct Blockchain {
    pub blocks: Vec<Block>,
}

impl Clone for Blockchain {
    fn clone(&self) -> (copy: Self)
        ensures
            copy.blocks@.len() == self.blocks@.len(),
            forall|i: int|
                0 <= i < self.blocks@.len() ==> {
                    &&& (#[trigger] copy.blocks@[i]).prev_hash == self.blocks@[i].prev_hash
                    &&& copy.blocks@[i].transactions@ == self.blocks@[i].transactions@
                    &&& copy.blocks@[i].nonce == self.blocks@[i].nonce
                },
    {
        let mut blocks: Vec<Block> = Vec::new();
        let mut i: usize = 0;
        while i < self.blocks.len()
            invariant
                i <= self.blocks@.len(),
                blocks@.len() == i,
                forall|j: int|
                    0 <= j < i ==> {
                        &&& (#[trigger] blocks@[j]).prev_hash == self.blocks@[j].prev_hash
                        &&& blocks@[j].transactions@ == self.blocks@[j].transactions@
                        &&& blocks@[j].nonce == self.blocks@[j].nonce
                    },
            decreases self.blocks@.len() - i,
        {
            blocks.push(self.blocks[i].clone());
            i = i + 1;
        }
        Blockchain { blocks }
    }
}

impl Blockchain {
    /// The hash text that a new block has to refer to, when amounts are laid
    /// out in the order `little` chooses.
    pub open spec fn prev_hash_spec(&self, little: bool) -> Seq<char> {
        if self.blocks@.len() == 0 {
            genesis_prev_hash()
        } else {
            self.blocks@.last().hash_spec(little)
        }
    }

    pub fn new() -> (chain: Self)
        ensures
            chain.blocks@ == Seq::<Block>::empty(),
    {
        Blockchain { blocks: Vec::new() }
    }

    /// Adds the block when it validates. Whether its transactions keep every
    /// balance but the minting account's at zero or above is worked out in
    /// binary64 arithmetic outside this library, over `ledger_transfers`, and
    /// handed in as `transactions_valid`.
    pub fn append_block(&mut self, block: Block, transactions_valid: bool) -> (result: Result<(), ChainError>)
        ensures
            transactions_valid ==> result is Ok && final(self).blocks@ == old(self).blocks@.push(block),
            !transactions_valid ==> result == Err::<(), ChainError>(ChainError::BlockDidNotValidate)
                && final(self).blocks@ == old(self).blocks@,
    {
        if self.validate_new_block(&block, transactions_valid) {
            self.blocks.push(block);
            return Ok(());
        }
        Err(ChainError::BlockDidNotValidate)
    }

    /// The hash of the newest block, or "0" when there is none, with amounts
    /// laid out in the order `little` chooses.
    pub fn prev_hash_with_byte_order(&self, little: bool) -> (hash: String)
        ensures
            hash@ == self.prev_hash_spec(little),
    {
        if self.blocks.len() == 0 {
            let genesis = "0".to_owned();
            proof {
                reveal_strlit("0");
            }
            genesis
        } else {
            self.blocks[self.blocks.len() - 1].hash_with_byte_order(little)
        }
    }

    /// The hash of the newest block, or "0" when there is none, with amounts
    /// in this machine's byte order.
    pub fn get_prev_hash(&self) -> (hash: String)
        ensures
            hash@ == self.prev_hash_spec(true) || hash@ == self.prev_hash_spec(false),
            hash@ == self.prev_hash_spec(machine_little()),
    {
        let little = native_order_is_little();
        self.prev_hash_with_byte_order(little)
    }

    /// A block validates when its proof of work does and its transactions do.
    pub fn validate_new_block(&self, block: &Block, transactions_valid: bool) -> (valid: bool)
        ensures
            valid == (block.pow_valid() && transactions_valid),
            valid == transactions_valid,
    {
        if !block.validate_pow() {
            return false;
        }
        transactions_valid
    }

    /// The transfers that decide whether `new_txs` may follow this chain, in
    /// the order in which balances are to be worked out: every block's
    /// transfers, oldest first, then those of `new_txs`.
    pub fn ledger_transfers(&self, new_txs: &Vec<SignedTransaction>) -> (all: Vec<Transaction>)
        ensures
            all@ == chain_transfers(self.blocks@) + transfers(new_txs@),
    {
        let mut all: Vec<Transaction> = Vec::new();
        let mut b: usize = 0;
        while b < self.blocks.len()
            invariant
                b <= self.blocks@.len(),
                all@ =~= chain_transfers(self.blocks@.take(b as int)),
            decreases self.blocks@.len() - b,
        {
            push_transfers(&mut all, &self.blocks[b].transactions);
            b = b + 1;
            assert(self.blocks@.take(b as int).drop_last() =~= self.blocks@.take(b - 1));
        }
        assert(self.blocks@.take(b as int) =~= self.blocks@);
        push_transfers(&mut all, new_txs);
        all
    }
}

/// Appends the transfers of `signed`, in order.
fn push_transfers(all: &mut Vec<Transaction>, signed: &Vec<SignedTransaction>)
    ensures
        final(all)@ == old(all)@ + transfers(signed@),
{
    let mut i: usize = 0;
    while i < signed.len()
        invariant
            i <= signed@.len(),
            all@ =~= old(all)@ + transfers(signed@.take(i as int)),
        decreases signed@.len() - i,
    {
        all.push(signed[i].transaction.clone());
        i = i + 1;
        assert(transfers(signed@.take(i as int)) =~= transfers(signed@.take(i - 1)).push(
            signed@[i - 1].transaction,
        ));
    }
    assert(signed@.take(i as int) =~= signed@);
}

} // verus!
