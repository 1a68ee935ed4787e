//! SHA-256 digests written as upper-case hexadecimal text, and the byte
//! streams that are fed to them.
use vstd::prelude::*;
use vstd::bytes::{spec_u32_to_le_bytes, spec_u64_to_le_bytes, spec_u64_to_le_bytes_to_open, u32_to_le_bytes, u64_to_le_bytes};
use vstd::endian::{endianness, Endian};
use vstd::utf8::encode_utf8;
use sha2::Digest;
use crate::hex::{hex_chars, to_hex};

verus! {

/// What SHA-256 digests `data` to.
pub uninterp spec fn sha256(data: Seq<u8>) -> Seq<u8>;

/// `<sha2::Sha256 as sha2::Digest>::digest`: the SHA-256 digest of `data`, 32 bytes.
/// The contract claims that the result is the digest of exactly `data`, and
/// its length, which `Sha256`'s output size of 32 bytes fixes.
#[verifier::external_body]
fn sha256_digest(data: &[u8]) -> (digest: Vec<u8>)
    ensures
        digest@ == sha256(data@),
        digest@.len() == 32,
{
    sha2::Sha256::digest(data).to_vec()
}

/// The hash text of a byte stream: its SHA-256 digest in upper-case hexadecimal.
pub open spec fn hash_text(data: Seq<u8>) -> Seq<char> {
    hex_chars(sha256(data), true)
}

/// Hashes `data` and writes the digest in upper-case hexadecimal, as
/// `format!("{:X}", Sha256::digest(data))` does.
pub fn hash_hex(data: &[u8]) -> (text: String)
    ensures
        text@ == hash_text(data@),
        text@.len() == 64,
{
    let digest = sha256_digest(data);
    to_hex(digest.as_slice(), true)
}

/// The UTF-8 bytes of a string, which is what a hasher is fed for it.
pub open spec fn text_bytes(s: Seq<char>) -> Seq<u8> {
    encode_utf8(s)
}

/// The eight bytes of `x`, least significant first when `little` holds,
/// most significant first otherwise.
pub open spec fn u64_bytes(x: u64, little: bool) -> Seq<u8> {
    if little {
        spec_u64_to_le_bytes(x)
    } else {
        spec_u64_to_le_bytes(x).reverse()
    }
}

/// The four little-endian bytes of a signed 32-bit value, as `i32::to_le_bytes` gives them.
pub open spec fn i32_le_bytes(x: i32) -> Seq<u8> {
    spec_u32_to_le_bytes(x as u32)
}

/// Whether the machine that runs the program stores integers least
/// significant byte first; `vstd::endian::endianness` stands for that machine.
pub open spec fn machine_little() -> bool {
    endianness() is Little
}

/// `u64::to_ne_bytes`: the bytes of `x` in the byte order of the machine that
/// runs the program, which `vstd::endian::endianness` stands for. The
/// contract claims that the bytes are the little-endian ones on a
/// little-endian machine and the big-endian ones otherwise; which machine
/// runs the program is left unsaid.
#[verifier::external_body]
fn u64_to_native_bytes(x: u64) -> (bytes: [u8; 8])
    ensures
        bytes@ == spec_u64_to_le_bytes(x) || bytes@ == spec_u64_to_le_bytes(x).reverse(),
        bytes@ == u64_bytes(x, machine_little()),
{
    x.to_ne_bytes()
}

/// Whether this machine stores integers least significant byte first, found
/// by looking at how it lays out the number one.
pub fn native_order_is_little() -> (little: bool)
    ensures
        little == machine_little(),
{
    let probe = u64_to_native_bytes(1);
    proof {
        spec_u64_to_le_bytes_to_open(1);
        let one: u64 = 1;
        assert((one & 0xff) as u8 == 1 && ((one >> 56) & 0xff) as u8 == 0) by (bit_vector)
            requires
                one == 1,
        ;
        assert(spec_u64_to_le_bytes(1).reverse()[0] == spec_u64_to_le_bytes(1)[7]);
    }
    probe[0] == 1
}

/// Appends `more` to `out`.
pub fn append_bytes(out: &mut Vec<u8>, more: &[u8])
    ensures
        final(out)@ == old(out)@ + more@,
{
    let mut i: usize = 0;
    while i < more.len()
        invariant
            i <= more@.len(),
            out@ =~= old(out)@ + more@.take(i as int),
        decreases more@.len() - i,
    {
        out.push(more[i]);
        i = i + 1;
        assert(out@ =~= old(out)@ + more@.take(i as int));
    }
    assert(more@.take(i as int) =~= more@);
}

/// Appends the UTF-8 bytes of `s` to `out`.
pub fn append_text(out: &mut Vec<u8>, s: &String)
    ensures
        final(out)@ == old(out)@ + text_bytes(s@),
{
    append_bytes(out, s.as_str().as_bytes());
}

/// Appends the eight bytes of `x` in the order that `little` chooses.
pub fn append_u64(out: &mut Vec<u8>, x: u64, little: bool)
    ensures
        final(out)@ == old(out)@ + u64_bytes(x, little),
{
    let le = u64_to_le_bytes(x);
    if little {
        append_bytes(out, le.as_slice());
    } else {
        let mut i: usize = 8;
        let ghost start = out@;
        while i > 0
            invariant
                le@.len() == 8,
                i <= 8,
                out@ =~= start + le@.reverse().take(8 - i),
            decreases i,
        {
            i = i - 1;
            out.push(le[i]);
            assert(out@ =~= start + le@.reverse().take(8 - i));
        }
        assert(le@.reverse().take(8) =~= le@.reverse());
    }
}

/// Appends the four little-endian bytes of `x`.
pub fn append_i32_le(out: &mut Vec<u8>, x: i32)
    ensures
        final(out)@ == old(out)@ + i32_le_bytes(x),
{
    let le = u32_to_le_bytes(x as u32);
    append_bytes(out, le.as_slice());
}

} // verus!
