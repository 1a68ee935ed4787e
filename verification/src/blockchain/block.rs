use vstd::prelude::*;
use crate::hashing::{append_bytes, append_i32_le, append_text, hash_hex, hash_text, i32_le_bytes, machine_little, native_order_is_little, text_bytes};
use super::signed_transaction::SignedTransaction;

verus! {

/// The UTF-8 bytes of the transactions' hash texts, one after another.
pub open spec fn transaction_hashes_bytes(transactions: Seq<SignedTransaction>, little: bool) -> Seq<u8>
    decreases transactions.len(),
{
    if transactions.len() == 0 {
        Seq::empty()
    } else {
        transaction_hashes_bytes(transactions.drop_last(), little) + text_bytes(
            transactions.last().hash_spec(little),
        )
    }
}

/// The UTF-8 bytes of each transaction's hash text, in block order.
pub open spec fn hash_texts_bytes(transactions: Seq<SignedTransaction>, little: bool) -> Seq<Seq<u8>> {
    transactions.map_values(|t: SignedTransaction| text_bytes(t.hash_spec(little)))
}

/// The joined hashes are the transactions' hash texts one after another,
/// the first transaction's first.
pub proof fn lemma_joined_hashes_in_block_order(transactions: Seq<SignedTransaction>, little: bool)
    ensures
        transaction_hashes_bytes(transactions, little) == hash_texts_bytes(transactions, little).flatten(),
    decreases transactions.len(),
{
    let texts = hash_texts_bytes(transactions, little);
    if transactions.len() == 0 {
        assert(texts =~= Seq::<Seq<u8>>::empty());
        assert(texts.flatten() =~= Seq::<u8>::empty());
    } else {
        let rest = transactions.drop_last();
        lemma_joined_hashes_in_block_order(rest, little);
        let last = text_bytes(transactions.last().hash_spec(little));
        assert(texts =~= hash_texts_bytes(rest, little).push(last));
        hash_texts_bytes(rest, little).lemma_flatten_push(last);
    }
}

/// A block: the hash of the block before it, its signed transactions, and
/// the nonce that proof of work varies.
#[derive(Debug)]
pub struct Block {
    pub prev_hash: String,
    pub transactions: Vec<SignedTransaction>,
    pub nonce: i32,
}

/// Copies the transactions one by one.
pub fn copy_transactions(transactions: &Vec<SignedTransaction>) -> (copy: Vec<SignedTransaction>)
    ensures
        copy@ == transactions@,
{
    let mut copy: Vec<SignedTransaction> = Vec::new();
    let mut i: usize = 0;
    while i < transactions.len()
        invariant
            i <= transactions@.len(),
            copy@ =~= transactions@.take(i as int),
        decreases transactions@.len() - i,
    {
        copy.push(transactions[i].clone());
        i = i + 1;
        assert(copy@ =~= transactions@.take(i as int));
    }
    assert(transactions@.take(i as int) =~= transactions@);
    copy
}

impl Clone for Block {
    fn clone(&self) -> (copy: Self)
        ensures
            copy.prev_hash == self.prev_hash,
            copy.transactions@ == self.transactions@,
            copy.nonce == self.nonce,
    {
        Block {
            prev_hash: self.prev_hash.clone(),
            transactions: copy_transactions(&self.transactions),
            nonce: self.nonce,
        }
    }
}

impl Block {
    /// The bytes that are hashed: the previous hash, the transactions' hashes
    /// once joined into one text and once more one by one, then the nonce in
    /// little-endian order.
    pub open spec fn hash_stream(&self, little: bool) -> Seq<u8> {
        text_bytes(self.prev_hash@) + transaction_hashes_bytes(self.transactions@, little)
            + transaction_hashes_bytes(self.transactions@, little) + i32_le_bytes(self.nonce)
    }

    pub open spec fn hash_spec(&self, little: bool) -> Seq<char> {
        hash_text(self.hash_stream(little))
    }

    /// An empty block after the block whose hash is `prev_hash`.
    pub fn new(prev_hash: String) -> (block: Self)
        ensures
            block.prev_hash == prev_hash,
            block.transactions@ == Seq::<SignedTransaction>::empty(),
            block.nonce == 0,
    {
        Block { prev_hash, transactions: Vec::new(), nonce: 0 }
    }

    pub fn increase_nonce(&mut self)
        requires
            old(self).nonce < i32::MAX,
        ensures
            final(self).nonce == old(self).nonce + 1,
            final(self).prev_hash == old(self).prev_hash,
            final(self).transactions == old(self).transactions,
    {
        self.nonce = self.nonce + 1;
    }

    /// Whether the block's proof of work is done. No difficulty target is
    /// set, so every block's is.
    pub open spec fn pow_valid(&self) -> bool {
        true
    }

    /// Whether the block's proof of work is done; every block's is.
    pub fn validate_pow(&self) -> (valid: bool)
        ensures
            valid == self.pow_valid(),
            valid,
    {
        true
    }

    /// The hash text with amounts laid out in the order `little` chooses.
    pub fn hash_with_byte_order(&self, little: bool) -> (hash: String)
        ensures
            hash@ == self.hash_spec(little),
            hash@.len() == 64,
    {
        let mut joined: Vec<u8> = Vec::new();
        let mut i: usize = 0;
        while i < self.transactions.len()
            invariant
                i <= self.transactions@.len(),
                joined@ =~= transaction_hashes_bytes(self.transactions@.take(i as int), little),
            decreases self.transactions@.len() - i,
        {
            let h = self.transactions[i].hash_with_byte_order(little);
            append_text(&mut joined, &h);
            i = i + 1;
            assert(self.transactions@.take(i as int).drop_last() =~= self.transactions@.take(
                i - 1,
            ));
        }
        assert(self.transactions@.take(i as int) =~= self.transactions@);
        let mut data: Vec<u8> = Vec::new();
        append_text(&mut data, &self.prev_hash);
        append_bytes(&mut data, joined.as_slice());
        append_bytes(&mut data, joined.as_slice());
        append_i32_le(&mut data, self.nonce);
        assert(data@ =~= self.hash_stream(little));
        hash_hex(data.as_slice())
    }

    /// The hash text, with amounts in this machine's byte order.
    pub fn get_hash(&self) -> (hash: String)
        ensures
            hash@ == self.hash_spec(true) || hash@ == self.hash_spec(false),
            hash@ == self.hash_spec(machine_little()),
            hash@.len() == 64,
    {
        let little = native_order_is_little();
        self.hash_with_byte_order(little)
    }

    pub fn add_transaction(&mut self, transaction: SignedTransaction)
        ensures
            final(self).transactions@ == old(self).transactions@.push(transaction),
            final(self).prev_hash == old(self).prev_hash,
            final(self).nonce == old(self).nonce,
    {
        self.transactions.push(transaction);
    }
}

/// What hashing a block takes in: the previous hash, then the transactions'
/// hash texts joined into one text in block order, then that same text
/// again, then the nonce's four little-endian bytes.
pub proof fn lemma_block_hash_input(block: Block, little: bool)
    ensures
        block.hash_spec(little) == hash_text(
            text_bytes(block.prev_hash@) + hash_texts_bytes(block.transactions@, little).flatten()
                + hash_texts_bytes(block.transactions@, little).flatten() + i32_le_bytes(block.nonce),
        ),
{
    lemma_joined_hashes_in_block_order(block.transactions@, little);
}

} // verus!
