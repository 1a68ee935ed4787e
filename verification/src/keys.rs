//! secp256k1 ECDSA keys and signatures, through the `k256` crate.
use vstd::prelude::*;
use k256::ecdsa::signature::Signer;
use k256::ecdsa::{Signature, SigningKey, VerifyingKey};
use rand_core::OsRng;

verus! {

/// The number that `bytes` stand for, most significant byte first.
pub open spec fn be_value(bytes: Seq<u8>) -> nat
    decreases bytes.len(),
{
    if bytes.len() == 0 {
        0
    } else {
        be_value(bytes.drop_last()) * 256 + bytes.last() as nat
    }
}

/// The order n of the secp256k1 group.
pub open spec fn secp256k1_order() -> nat {
    0xFFFFFFFFFFFFFFFFFFFFFFFFFFFFFFFEBAAEDCE6AF48A03BBFD25E8CD0364141nat
}

/// A secret key: 32 big-endian bytes of a number from 1 to n - 1, which is
/// what `k256::ecdsa::SigningKey::from_bytes` accepts.
pub open spec fn is_signing_key(secret: Seq<u8>) -> bool {
    &&& secret.len() == 32
    &&& 0 < be_value(secret) < secp256k1_order()
}

/// The SEC1 compressed encoding of the public key that belongs to `secret`.
pub uninterp spec fn public_key_of(secret: Seq<u8>) -> Seq<u8>;

/// The ECDSA signature that `k256` makes of `message` with `secret`: SHA-256
/// of the message, an RFC 6979 nonce, the bytes r then s; `None` where the
/// signing step yields a zero r or s and `try_sign` fails.
pub uninterp spec fn ecdsa_signature(secret: Seq<u8>, message: Seq<u8>) -> Option<Seq<u8>>;

/// `k256::ecdsa::SigningKey::from_bytes`, asked only whether it succeeds.
/// The contract claims that it succeeds exactly on `is_signing_key(secret)`:
/// `SecretKey::from_be_bytes` wants 32 bytes, a value below n and not zero.
#[verifier::external_body]
pub(crate) fn accepts_signing_key(secret: &[u8]) -> (ok: bool)
    ensures
        ok == is_signing_key(secret@),
{
    SigningKey::from_bytes(secret).is_ok()
}

/// `k256::ecdsa::SigningKey::random` with the operating system's generator,
/// turned into its 32 big-endian bytes. The key is random, so the contract
/// claims only that `from_bytes` would accept the bytes.
#[verifier::external_body]
pub(crate) fn random_signing_key() -> (secret: Vec<u8>)
    ensures
        is_signing_key(secret@),
        secret@.len() == 32,
{
    SigningKey::random(&mut OsRng).to_bytes().to_vec()
}

/// `k256::ecdsa::VerifyingKey::from(&SigningKey)` followed by `to_bytes`:
/// the compressed public key of `secret`, 33 bytes.
#[verifier::external_body]
pub(crate) fn derive_public_key(secret: &[u8]) -> (public: Vec<u8>)
    requires
        is_signing_key(secret@),
    ensures
        public@ == public_key_of(secret@),
        public@.len() == 33,
{
    let key = SigningKey::from_bytes(secret).unwrap();
    VerifyingKey::from(&key).to_bytes().to_vec()
}

/// `<k256::ecdsa::SigningKey as Signer<Signature>>::try_sign` followed by
/// `Signature::to_vec`: the 64-byte signature of `message`, or `None` where
/// signing fails. The secret is turned into a `SigningKey` first, which the
/// requirement makes succeed.
#[verifier::external_body]
pub(crate) fn sign_bytes(secret: &[u8], message: &[u8]) -> (signature: Option<Vec<u8>>)
    requires
        is_signing_key(secret@),
    ensures
        match signature {
            Some(sig) => ecdsa_signature(secret@, message@) == Some(sig@) && sig@.len() == 64,
            None => ecdsa_signature(secret@, message@) is None,
        },
{
    let key = SigningKey::from_bytes(secret).unwrap();
    let signed: Result<Signature, k256::ecdsa::Error> = key.try_sign(message);
    match signed {
        Ok(sig) => Some(sig.to_vec()),
        Err(_) => None,
    }
}

} // verus!
