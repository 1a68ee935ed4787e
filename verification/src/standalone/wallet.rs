use vstd::prelude::*;
use crate::hashing::{hash_hex, hash_text, text_bytes};

verus! {

/// A key pair: the public key is derived from the private one.
#[derive(Debug)]
pub struct Wallet {
    pub private_key: String,
    pub public_key: String,
}

/// The public key text that belongs to a private key text: the hash of its UTF-8 bytes.
pub open spec fn public_key_text(private_key: Seq<char>) -> Seq<char> {
    hash_text(text_bytes(private_key))
}

impl Wallet {
    /// Whether the public key is the one that belongs to the private key.
    pub open spec fn keys_match(&self) -> bool {
        self.public_key@ == public_key_text(self.private_key@)
    }

    pub fn new(priv_key: String) -> (wallet: Self)
        ensures
            wallet.private_key == priv_key,
            wallet.keys_match(),
            wallet.public_key@.len() == 64,
    {
        let pub_key = priv_to_pub_key(&priv_key);
        Wallet { private_key: priv_key, public_key: pub_key }
    }
}

/// The public key that belongs to a private key: the SHA-256 digest of its
/// UTF-8 bytes in upper-case hexadecimal.
pub fn priv_to_pub_key(priv_key: &String) -> (pub_key: String)
    ensures
        pub_key@ == public_key_text(priv_key@),
        pub_key@.len() == 64,
{
    hash_hex(priv_key.as_str().as_bytes())
}

} // verus!
