use vstd::prelude::*;
use crate::hashing::{append_text, append_u64, hash_hex, hash_text, machine_little, native_order_is_little, text_bytes, u64_bytes};

verus! {

/// A transfer of `amt` from `sender` to `reciever`, with the signature text
/// that came with it. The amount is a binary64 number held as its bit
/// pattern (`f64::to_bits`).
#[derive(Debug)]
pub struct Transaction {
    pub signature: String,
    pub sender: String,
    pub reciever: String,
    pub amt: u64,
}

impl Transaction {
    /// The bytes that are hashed: signature, sender and receiver as UTF-8, then
    /// the amount's eight bytes in the order that `little` chooses.
    pub open spec fn hash_stream(&self, little: bool) -> Seq<u8> {
        text_bytes(self.signature@) + text_bytes(self.sender@) + text_bytes(self.reciever@)
            + u64_bytes(self.amt, little)
    }

    /// The hash text of the transaction when amounts are laid out in the order `little` chooses.
    pub open spec fn hash_spec(&self, little: bool) -> Seq<char> {
        hash_text(self.hash_stream(little))
    }

    pub fn new(sender: String, reciever: String, amt: u64, signature: String) -> (tx: Self)
        ensures
            tx.sender == sender,
            tx.reciever == reciever,
            tx.amt == amt,
            tx.signature == signature,
    {
        Transaction { signature, sender, reciever, amt }
    }

    /// The hash text with the amount's bytes in the order `little` chooses.
    pub fn hash_with_byte_order(&self, little: bool) -> (hash: String)
        ensures
            hash@ == self.hash_spec(little),
            hash@.len() == 64,
    {
        let mut data: Vec<u8> = Vec::new();
        append_text(&mut data, &self.signature);
        append_text(&mut data, &self.sender);
        append_text(&mut data, &self.reciever);
        append_u64(&mut data, self.amt, little);
        assert(data@ =~= self.hash_stream(little));
        hash_hex(data.as_slice())
    }

    /// The hash text, with the amount's bytes in this machine's byte order.
    pub fn get_hash(&self) -> (hash: String)
        ensures
            hash@ == self.hash_spec(true) || hash@ == self.hash_spec(false),
            hash@ == self.hash_spec(machine_little()),
            hash@.len() == 64,
    {
        let little = native_order_is_little();
        self.hash_with_byte_order(little)
    }
}

} // verus!
