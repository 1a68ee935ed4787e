use vstd::prelude::*;
use crate::hashing::{append_text, hash_hex, hash_text, machine_little, native_order_is_little, text_bytes};
use super::transaction::Transaction;

verus! {

/// A transaction with the hexadecimal signature of its hash.
#[derive(Debug)]
pub struct SignedTransaction {
    pub transaction: Transaction,
    pub signature: String,
}

impl Clone for SignedTransaction {
    fn clone(&self) -> (copy: Self)
        ensures
            copy == *self,
    {
        SignedTransaction { transaction: self.transaction.clone(), signature: self.signature.clone() }
    }
}

impl SignedTransaction {
    /// The bytes that are hashed: the signature, then the transaction's hash text.
    pub open spec fn hash_stream(&self, little: bool) -> Seq<u8> {
        text_bytes(self.signature@) + text_bytes(self.transaction.hash_spec(little))
    }

    pub open spec fn hash_spec(&self, little: bool) -> Seq<char> {
        hash_text(self.hash_stream(little))
    }

    /// The hash text with amounts laid out in the order `little` chooses.
    pub fn hash_with_byte_order(&self, little: bool) -> (hash: String)
        ensures
            hash@ == self.hash_spec(little),
            hash@.len() == 64,
    {
        let inner = self.transaction.hash_with_byte_order(little);
        let mut data: Vec<u8> = Vec::new();
        append_text(&mut data, &self.signature);
        append_text(&mut data, &inner);
        hash_hex(data.as_slice())
    }

    /// The hash text, with amounts in this machine's byte order.
    pub fn get_hash(&self) -> (hash: String)
        ensures
            hash@ == self.hash_spec(true) || hash@ == self.hash_spec(false),
            hash@ == self.hash_spec(machine_little()),
            hash@.len() == 64,
    {
        let little = native_order_is_little();
        self.hash_with_byte_order(little)
    }
}

} // verus!
