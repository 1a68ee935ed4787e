use vstd::prelude::*;
use crate::hashing::{machine_little, native_order_is_little, text_bytes};
use crate::hex::{from_hex, hex_chars, hex_decode_spec, lemma_hex_round_trip, to_hex};
use crate::keys::{
    accepts_signing_key, derive_public_key, ecdsa_signature, is_signing_key, public_key_of,
    random_signing_key, sign_bytes,
};
use super::signed_transaction::SignedTransaction;
use super::transaction::Transaction;

verus! {

/// A secp256k1 key pair, both keys in lower-case hexadecimal: the private key
/// is the secret scalar's 32 big-endian bytes, the public key the compressed
/// SEC1 point.
#[derive(Debug)]
pub struct Wallet {
    pub private_key: String,
    pub public_key: String,
}

impl Clone for Wallet {
    fn clone(&self) -> (copy: Self)
        ensures
            copy == *self,
    {
        Wallet { private_key: self.private_key.clone(), public_key: self.public_key.clone() }
    }
}

impl Wallet {
    /// The secret bytes that the private key text stands for, if it is hexadecimal.
    pub open spec fn secret(&self) -> Option<Seq<u8>> {
        hex_decode_spec(text_bytes(self.private_key@))
    }

    /// The private key is hexadecimal text of a secret that `k256` accepts.
    pub open spec fn signs(&self) -> bool {
        &&& self.secret() is Some
        &&& is_signing_key(self.secret()->0)
    }

    /// The wallet signs, and its public key belongs to its private key.
    pub open spec fn keys_match(&self) -> bool {
        &&& self.signs()
        &&& self.public_key@ == hex_chars(public_key_of(self.secret()->0), false)
    }

    /// What a freshly made wallet holds: keys that belong together, the
    /// private key as the secret's 64 lower-case hexadecimal digits and the
    /// public key as the 66 digits of its compressed point.
    pub open spec fn fresh_key_pair(&self) -> bool {
        &&& self.keys_match()
        &&& self.private_key@ == hex_chars(self.secret()->0, false)
        &&& self.private_key@.len() == 64
        &&& self.public_key@.len() == 66
    }

    /// The signature bytes that this wallet makes for a transaction whose
    /// hash lays amounts out in the order `little` chooses; `None` where
    /// signing fails.
    pub open spec fn signature_of(&self, transaction: Transaction, little: bool) -> Option<Seq<u8>> {
        ecdsa_signature(self.secret()->0, text_bytes(transaction.hash_spec(little)))
    }

    /// The signature text: the signature bytes in lower-case hexadecimal.
    pub open spec fn signature_text(&self, transaction: Transaction, little: bool) -> Seq<char> {
        hex_chars(self.signature_of(transaction, little)->0, false)
    }

    /// Whether `signed` is what signing `transaction` gives, with amounts laid
    /// out in the order `little` chooses: the transaction with its signature
    /// text, or `None` where signing fails.
    pub open spec fn signed_as(
        &self,
        transaction: Transaction,
        little: bool,
        signed: Option<SignedTransaction>,
    ) -> bool {
        match signed {
            Some(s) => {
                &&& self.signature_of(transaction, little) is Some
                &&& s.transaction == transaction
                &&& s.signature@ == self.signature_text(transaction, little)
                &&& s.signature@.len() == 128
            },
            None => self.signature_of(transaction, little) is None,
        }
    }

    /// A wallet with a fresh random key: the private key is the secret's
    /// lower-case hexadecimal, the public key that of its compressed point.
    pub fn new() -> (wallet: Self)
        ensures
            wallet.fresh_key_pair(),
    {
        let secret = random_signing_key();
        let public = derive_public_key(secret.as_slice());
        let priv_str = to_hex(secret.as_slice(), false);
        let pub_str = to_hex(public.as_slice(), false);
        proof {
            lemma_hex_round_trip(secret@, false);
        }
        Wallet { private_key: priv_str, public_key: pub_str }
    }

    /// Whether this wallet can sign, that is whether its private key is
    /// hexadecimal text of a secret that `k256` accepts.
    pub fn can_sign(&self) -> (ok: bool)
        ensures
            ok == self.signs(),
    {
        match from_hex(self.private_key.as_str().as_bytes()) {
            Some(secret) => accepts_signing_key(secret.as_slice()),
            None => false,
        }
    }

    /// Signs the hash text of `transaction` (its UTF-8 bytes), with amounts
    /// laid out in the order `little` chooses, and attaches the signature in
    /// lower-case hexadecimal; `None` where signing fails.
    pub fn sign_with_byte_order(&self, transaction: Transaction, little: bool) -> (signed: Option<SignedTransaction>)
        requires
            self.signs(),
        ensures
            self.signed_as(transaction, little, signed),
    {
        let secret = from_hex(self.private_key.as_str().as_bytes());
        match secret {
            Some(secret) => {
                let tx_hash = transaction.hash_with_byte_order(little);
                match sign_bytes(secret.as_slice(), tx_hash.as_str().as_bytes()) {
                    Some(sig) => {
                        let sig_str = to_hex(sig.as_slice(), false);
                        Some(SignedTransaction { transaction, signature: sig_str })
                    },
                    None => None,
                }
            },
            None => {
                assert(false);
                None
            },
        }
    }

    /// Signs the hash text of `transaction`, with amounts in this machine's
    /// byte order; `None` where signing fails.
    pub fn sign_transaction(&self, transaction: Transaction) -> (signed: Option<SignedTransaction>)
        requires
            self.signs(),
        ensures
            self.signed_as(transaction, true, signed) || self.signed_as(transaction, false, signed),
            self.signed_as(transaction, machine_little(), signed),
    {
        let little = native_order_is_little();
        self.sign_with_byte_order(transaction, little)
    }

    /// Signs `transaction` when the wallet can sign; `None` otherwise.
    pub fn try_sign_transaction(&self, transaction: Transaction) -> (signed: Option<SignedTransaction>)
        ensures
            !self.signs() ==> signed is None,
            self.signs() ==> self.signed_as(transaction, true, signed) || self.signed_as(
                transaction,
                false,
                signed,
            ),
            self.signs() ==> self.signed_as(transaction, machine_little(), signed),
    {
        if self.can_sign() {
            self.sign_transaction(transaction)
        } else {
            None
        }
    }
}

/// Signing is deterministic: transfers with the same sender, receiver and
/// amount get the same signature from the same wallet.
pub proof fn lemma_signing_is_deterministic(
    wallet: Wallet,
    first: Transaction,
    second: Transaction,
    little: bool,
)
    requires
        first.sender@ == second.sender@,
        first.reciever@ == second.reciever@,
        first.amt == second.amt,
    ensures
        wallet.signature_of(first, little) == wallet.signature_of(second, little),
        wallet.signature_text(first, little) == wallet.signature_text(second, little),
{
    assert(first.hash_stream(little) == second.hash_stream(little));
}

/// Signing has one outcome for a transaction and a byte order: two results
/// that are both what signing gives agree, and a signature is that of the
/// transaction's hash text in that order. So `try_sign_transaction` and
/// `sign_transaction`, which both sign in this machine's byte order, give
/// the same signature.
pub proof fn lemma_signing_has_one_outcome(
    wallet: Wallet,
    transaction: Transaction,
    little: bool,
    first: Option<SignedTransaction>,
    second: Option<SignedTransaction>,
)
    requires
        wallet.signed_as(transaction, little, first),
        wallet.signed_as(transaction, little, second),
    ensures
        first is Some <==> second is Some,
        first matches Some(a) ==> second matches Some(b) && a.transaction == b.transaction
            && a.signature@ == b.signature@,
        first matches Some(a) ==> a.signature@ == hex_chars(
            ecdsa_signature(wallet.secret()->0, text_bytes(transaction.hash_spec(little)))->0,
            false,
        ),
{
}

} // verus!
