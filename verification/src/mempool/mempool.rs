use vstd::prelude::*;
use crate::blockchain::block::Block;
use crate::blockchain::signed_transaction::SignedTransaction;
use crate::blockchain::transaction::{minting_account, Transaction};
use crate::blockchain::wallet::Wallet;
use crate::hashing::{machine_little, native_order_is_little};

verus! {

/// What mining pays the miner: 10 coins, as the bit pattern of the binary64 number 10.0.
pub const MINING_REWARD: u64 = 0x4024_0000_0000_0000;

/// Whether `after` and `result` are what cancelling `target` from `before`
/// gives when hashes lay amounts out in the order `little` chooses: the first
/// transaction whose hash equals the target's hash is removed, and without
/// such a transaction nothing changes and the result is an error.
pub open spec fn cancel_outcome(
    before: Seq<SignedTransaction>,
    after: Seq<SignedTransaction>,
    target: SignedTransaction,
    result: Result<(), MempoolError>,
    little: bool,
) -> bool {
    if exists|i: int| 0 <= i < before.len() && (#[trigger] before[i]).hash_spec(little) == target.hash_spec(little) {
        exists|i: int|
            0 <= i < before.len() && (#[trigger] before[i]).hash_spec(little) == target.hash_spec(little)
                && (forall|j: int| 0 <= j < i ==> (#[trigger] before[j]).hash_spec(little) != target.hash_spec(little))
                && after == before.remove(i) && result is Ok
    } else {
        after == before && result == Err::<(), MempoolError>(MempoolError::TransactionNotFound)
    }
}

/// Cancelling a transaction right after it joined a pool succeeds and leaves
/// the pool as long as it was; when no earlier transaction had its hash, the
/// pool is exactly as it was.
pub proof fn lemma_cancel_undoes_new(
    pool: Seq<SignedTransaction>,
    tx: SignedTransaction,
    after: Seq<SignedTransaction>,
    result: Result<(), MempoolError>,
    little: bool,
)
    requires
        cancel_outcome(pool.push(tx), after, tx, result, little),
    ensures
        result is Ok,
        after.len() == pool.len(),
        (forall|j: int| 0 <= j < pool.len() ==> (#[trigger] pool[j]).hash_spec(little) != tx.hash_spec(little))
            ==> after == pool,
{
    let before = pool.push(tx);
    assert(before[pool.len() as int] == tx);
    let i = choose|i: int|
        0 <= i < before.len() && (#[trigger] before[i]).hash_spec(little) == tx.hash_spec(little)
            && (forall|j: int| 0 <= j < i ==> (#[trigger] before[j]).hash_spec(little) != tx.hash_spec(little))
            && after == before.remove(i) && result is Ok;
    if forall|j: int| 0 <= j < pool.len() ==> (#[trigger] pool[j]).hash_spec(little) != tx.hash_spec(little) {
        if i < pool.len() {
            assert(before[i] == pool[i]);
        }
        assert(after =~= pool);
    }
}

/// Cancelling a transaction right after it joined a pool, when no earlier
/// transaction has its hash in either byte order, succeeds and leaves the
/// pool exactly as it was, whichever byte order the machine has.
pub proof fn lemma_cancel_undoes_new_on_any_machine(
    pool: Seq<SignedTransaction>,
    tx: SignedTransaction,
    after: Seq<SignedTransaction>,
    result: Result<(), MempoolError>,
)
    requires
        cancel_outcome(pool.push(tx), after, tx, result, true)
            || cancel_outcome(pool.push(tx), after, tx, result, false),
        forall|j: int, little: bool|
            0 <= j < pool.len() ==> (#[trigger] pool[j].hash_spec(little)) != tx.hash_spec(little),
    ensures
        result is Ok,
        after == pool,
{
    if cancel_outcome(pool.push(tx), after, tx, result, true) {
        lemma_cancel_undoes_new(pool, tx, after, result, true);
    } else {
        lemma_cancel_undoes_new(pool, tx, after, result, false);
    }
}

/// A transfer of the mining reward to `miner` from the minting account.
pub open spec fn reward_shaped(transfer: Transaction, miner: String) -> bool {
    &&& transfer.sender@ == minting_account()
    &&& transfer.reciever == miner
    &&& transfer.amt == MINING_REWARD
}

/// Whether `after` and `mined` are what mining gives a pool that held
/// `before`, after the block whose hash is `prev_hash`, with the reward for
/// `miner` signed by `wallet0` and amounts laid out in the order `little`
/// chooses: a block of the pool's transactions with the reward last, whose
/// proof of work is done, and an empty pool; or, where signing the reward
/// fails, no block and the pool as it was.
pub open spec fn mined_as(
    before: Seq<SignedTransaction>,
    after: Seq<SignedTransaction>,
    prev_hash: Seq<char>,
    wallet0: Wallet,
    miner: String,
    little: bool,
    mined: Option<Block>,
) -> bool {
    match mined {
        Some(block) => {
            &&& block.prev_hash@ == prev_hash
            &&& block.nonce == 0
            &&& block.pow_valid()
            &&& block.transactions@.len() == before.len() + 1
            &&& block.transactions@.drop_last() == before
            &&& reward_shaped(block.transactions@.last().transaction, miner)
            &&& wallet0.signed_as(
                block.transactions@.last().transaction,
                little,
                Some(block.transactions@.last()),
            )
            &&& after == Seq::<SignedTransaction>::empty()
        },
        None => {
            &&& after == before
            &&& exists|t: Transaction| #[trigger] reward_shaped(t, miner) && wallet0.signature_of(t, little) is None
        },
    }
}

/// Why a pool refused a request.
#[derive(Debug, PartialEq, Eq, Structural)]
pub enum MempoolError {
    /// No transaction in the pool has the hash of the one to cancel.
    TransactionNotFound,
}

impl MempoolError {
    /// The text that reports the error.
    pub fn message(&self) -> (text: &'static str)
        ensures
            text@ == "Error!"@,
    {
        match self {
            MempoolError::TransactionNotFound => "Error!",
        }
    }
}

/// The transactions that wait for a block, in the order they came.
#[derive(Debug)]
pub struct Mempool {
    pub transactions: Vec<SignedTransaction>,
}

impl Mempool {
    pub fn new() -> (pool: Mempool)
        ensures
            pool.transactions@ == Seq::<SignedTransaction>::empty(),
    {
        Mempool { transactions: Vec::new() }
    }

    pub fn new_transaction(&mut self, tx: SignedTransaction)
        ensures
            final(self).transactions@ == old(self).transactions@.push(tx),
    {
        self.transactions.push(tx);
    }

    /// Removes the first transaction whose hash is that of `tx`, with amounts
    /// laid out in the order `little` chooses.
    pub fn cancel_with_byte_order(&mut self, tx: SignedTransaction, little: bool) -> (result: Result<(), MempoolError>)
        ensures
            cancel_outcome(old(self).transactions@, final(self).transactions@, tx, result, little),
    {
        let tx_hash = tx.hash_with_byte_order(little);
        let mut i: usize = 0;
        while i < self.transactions.len()
            invariant
                i <= self.transactions@.len(),
                self.transactions@ == old(self).transactions@,
                tx_hash@ == tx.hash_spec(little),
                forall|j: int| 0 <= j < i ==> (#[trigger] self.transactions@[j]).hash_spec(little) != tx.hash_spec(little),
            decreases self.transactions@.len() - i,
        {
            let h = self.transactions[i].hash_with_byte_order(little);
            if h == tx_hash {
                let ghost before = self.transactions@;
                self.transactions.remove(i);
                assert(cancel_outcome(before, self.transactions@, tx, Ok(()), little));
                return Ok(());
            }
            i = i + 1;
        }
        Err(MempoolError::TransactionNotFound)
    }

    /// Removes the first transaction whose hash is that of `tx`, with amounts
    /// in this machine's byte order.
    pub fn cancel_transaction(&mut self, tx: SignedTransaction) -> (result: Result<(), MempoolError>)
        ensures
            cancel_outcome(old(self).transactions@, final(self).transactions@, tx, result, true)
                || cancel_outcome(old(self).transactions@, final(self).transactions@, tx, result, false),
            cancel_outcome(old(self).transactions@, final(self).transactions@, tx, result, machine_little()),
    {
        let little = native_order_is_little();
        self.cancel_with_byte_order(tx, little)
    }

    /// Nothing in the pool depends on the blocks that others mine.
    pub fn new_block(&mut self, _block: Block)
        ensures
            final(self).transactions@ == old(self).transactions@,
    {
    }

    /// Mines a block after the block whose hash is `prev_hash`, with amounts
    /// laid out in the order `little` chooses: the reward for `miner`, signed
    /// by the minting wallet `wallet0`, joins the pool, and the block takes
    /// every transaction of the pool, which is left empty. Where signing the
    /// reward fails, nothing changes and the result is `None`.
    pub fn mine_with_byte_order(&mut self, prev_hash: String, wallet0: &Wallet, miner: String, little: bool) -> (mined: Option<Block>)
        requires
            wallet0.signs(),
        ensures
            mined_as(old(self).transactions@, final(self).transactions@, prev_hash@, *wallet0, miner, little, mined),
            mined matches Some(block) ==> block.prev_hash == prev_hash,
    {
        let mut block = Block::new(prev_hash);
        let mint = "0".to_owned();
        proof {
            reveal_strlit("0");
            assert(mint@ =~= minting_account());
        }
        let tx = Transaction::new(mint, miner, MINING_REWARD);
        let ghost transfer = tx;
        assert(reward_shaped(transfer, miner));
        match wallet0.sign_with_byte_order(tx, little) {
            Some(reward) => {
                self.transactions.push(reward);
                let ghost pooled = self.transactions@;
                block.transactions.append(&mut self.transactions);
                assert(block.transactions@ =~= pooled);
                self.get_pow(&mut block);
                assert(block.transactions@.last() == reward);
                assert(block.transactions@.drop_last() =~= old(self).transactions@);
                Some(block)
            },
            None => {
                assert(reward_shaped(transfer, miner) && wallet0.signature_of(transfer, little) is None);
                None
            },
        }
    }

    /// `mine_with_byte_order` with amounts in this machine's byte order.
    pub fn mine(&mut self, prev_hash: String, wallet0: &Wallet, miner: String) -> (mined: Option<Block>)
        requires
            wallet0.signs(),
        ensures
            mined_as(old(self).transactions@, final(self).transactions@, prev_hash@, *wallet0, miner, true, mined)
                || mined_as(old(self).transactions@, final(self).transactions@, prev_hash@, *wallet0, miner, false, mined),
            mined_as(old(self).transactions@, final(self).transactions@, prev_hash@, *wallet0, miner, machine_little(), mined),
            mined matches Some(block) ==> block.prev_hash == prev_hash,
    {
        let little = native_order_is_little();
        self.mine_with_byte_order(prev_hash, wallet0, miner, little)
    }

    /// A block after the block whose hash is `prev_hash` that takes every
    /// transaction of the pool, in order, with its proof of work done; the
    /// pool is left empty.
    pub fn take_block(&mut self, prev_hash: String) -> (block: Block)
        ensures
            block.prev_hash == prev_hash,
            block.transactions@ == old(self).transactions@,
            block.nonce == 0,
            block.pow_valid(),
            final(self).transactions@.len() == 0,
    {
        let mut block = Block::new(prev_hash);
        block.transactions.append(&mut self.transactions);
        self.get_pow(&mut block);
        block
    }

    /// Raises the block's nonce until its proof of work validates; every
    /// block validates here, so the block stays as it is.
    pub fn get_pow(&self, block: &mut Block)
        ensures
            final(block).prev_hash == old(block).prev_hash,
            final(block).transactions == old(block).transactions,
            final(block).nonce == old(block).nonce,
            final(block).pow_valid(),
    {
        while !block.validate_pow()
            invariant
                *block == *old(block),
            decreases i32::MAX - block.nonce,
        {
            block.increase_nonce();
        }
    }
}

} // verus!
