//! Hexadecimal text: the upper-case digest form used for hashes and the
//! lower-case form used for keys and signatures.
use vstd::prelude::*;
use vstd::utf8::{encode_utf8, is_ascii_chars, is_ascii_chars_encode_utf8};

verus! {

/// The digit that stands for `nibble` (below 16).
pub open spec fn hex_digit(nibble: u8, upper: bool) -> char {
    if nibble < 10 {
        (nibble + 48) as char
    } else if upper {
        (nibble + 55) as char
    } else {
        (nibble + 87) as char
    }
}

/// Two digits per byte, high nibble first.
pub open spec fn hex_chars(bytes: Seq<u8>, upper: bool) -> Seq<char> {
    Seq::new(
        2 * bytes.len(),
        |i: int|
            if i % 2 == 0 {
                hex_digit(bytes[i / 2] / 16, upper)
            } else {
                hex_digit(bytes[i / 2] % 16, upper)
            },
    )
}

/// The value of one text byte read as a hexadecimal digit of either case.
pub open spec fn hex_value(b: u8) -> Option<u8> {
    if 48 <= b <= 57 {
        Some((b - 48) as u8)
    } else if 65 <= b <= 70 {
        Some((b - 55) as u8)
    } else if 97 <= b <= 102 {
        Some((b - 87) as u8)
    } else {
        None
    }
}

/// Text that decodes: an even number of bytes, each a hexadecimal digit.
pub open spec fn is_hex_text(text: Seq<u8>) -> bool {
    &&& text.len() % 2 == 0
    &&& forall|i: int| 0 <= i < text.len() ==> (#[trigger] hex_value(text[i])) is Some
}

/// The bytes that hexadecimal text stands for, or `None` when it is not such text.
pub open spec fn hex_decode_spec(text: Seq<u8>) -> Option<Seq<u8>> {
    if is_hex_text(text) {
        Some(
            Seq::new(
                text.len() / 2,
                |i: int|
                    (hex_value(text[2 * i])->0 * 16 + hex_value(text[2 * i + 1])->0) as u8,
            ),
        )
    } else {
        None
    }
}

/// `String::push`: appends one character.
#[verifier::external_body]
pub(crate) fn push_char(s: &mut String, c: char)
    ensures
        final(s)@ == old(s)@.push(c),
{
    s.push(c);
}

fn digit_of(nibble: u8, upper: bool) -> (c: char)
    requires
        nibble < 16,
    ensures
        c == hex_digit(nibble, upper),
{
    if nibble < 10 {
        (nibble + 48) as char
    } else if upper {
        (nibble + 55) as char
    } else {
        (nibble + 87) as char
    }
}

/// Writes `bytes` as hexadecimal text, two digits per byte, high nibble first.
pub fn to_hex(bytes: &[u8], upper: bool) -> (text: String)
    ensures
        text@ == hex_chars(bytes@, upper),
{
    let mut text = String::new();
    let mut i: usize = 0;
    while i < bytes.len()
        invariant
            i <= bytes@.len(),
            text@ =~= hex_chars(bytes@.take(i as int), upper),
        decreases bytes@.len() - i,
    {
        let b = bytes[i];
        push_char(&mut text, digit_of(b / 16, upper));
        push_char(&mut text, digit_of(b % 16, upper));
        i = i + 1;
        assert(text@ =~= hex_chars(bytes@.take(i as int), upper));
    }
    assert(bytes@.take(i as int) =~= bytes@);
    text
}

fn value_of(b: u8) -> (v: Option<u8>)
    ensures
        v == hex_value(b),
{
    if 48 <= b && b <= 57 {
        Some(b - 48)
    } else if 65 <= b && b <= 70 {
        Some(b - 55)
    } else if 97 <= b && b <= 102 {
        Some(b - 87)
    } else {
        None
    }
}

/// Reads hexadecimal text of either case; `None` when the text has an odd
/// number of bytes or a byte that is not a hexadecimal digit.
pub fn from_hex(text: &[u8]) -> (bytes: Option<Vec<u8>>)
    ensures
        match bytes {
            Some(b) => hex_decode_spec(text@) == Some(b@),
            None => hex_decode_spec(text@) is None,
        },
{
    if text.len() % 2 != 0 {
        return None;
    }
    let mut out: Vec<u8> = Vec::new();
    let mut i: usize = 0;
    while i < text.len() / 2
        invariant
            text@.len() % 2 == 0,
            i <= text@.len() / 2,
            out@.len() == i,
            forall|j: int| 0 <= j < 2 * i ==> (#[trigger] hex_value(text@[j])) is Some,
            forall|j: int|
                0 <= j < i ==> #[trigger] out@[j] == (hex_value(text@[2 * j])->0 * 16
                    + hex_value(text@[2 * j + 1])->0) as u8,
        decreases text@.len() / 2 - i,
    {
        let hi = value_of(text[2 * i]);
        let lo = value_of(text[2 * i + 1]);
        match (hi, lo) {
            (Some(h), Some(l)) => {
                out.push(h * 16 + l);
            },
            _ => {
                assert(!is_hex_text(text@));
                return None;
            },
        }
        i = i + 1;
    }
    assert(is_hex_text(text@));
    assert(out@ =~= hex_decode_spec(text@)->0);
    Some(out)
}

proof fn lemma_digit_value(nibble: u8, upper: bool)
    requires
        nibble < 16,
    ensures
        (hex_digit(nibble, upper) as u32) < 128,
        hex_value(hex_digit(nibble, upper) as u8) == Some(nibble),
{
}

/// Hexadecimal text is ASCII, so its UTF-8 bytes are its characters.
pub proof fn lemma_hex_chars_ascii(bytes: Seq<u8>, upper: bool)
    ensures
        is_ascii_chars(hex_chars(bytes, upper)),
        encode_utf8(hex_chars(bytes, upper)).len() == 2 * bytes.len(),
        forall|i: int|
            0 <= i < 2 * bytes.len() ==> #[trigger] encode_utf8(hex_chars(bytes, upper))[i]
                == hex_chars(bytes, upper)[i] as u8,
{
    let chars = hex_chars(bytes, upper);
    assert forall|i: int| 0 <= i < chars.len() implies '\0' <= #[trigger] chars[i] <= '\u{7f}' by {
        lemma_digit_value(bytes[i / 2] / 16, upper);
        lemma_digit_value(bytes[i / 2] % 16, upper);
    }
    is_ascii_chars_encode_utf8(chars);
}

/// Reading back the text that `to_hex` writes gives the bytes that were written,
/// in either case.
pub proof fn lemma_hex_round_trip(bytes: Seq<u8>, upper: bool)
    ensures
        hex_decode_spec(encode_utf8(hex_chars(bytes, upper))) == Some(bytes),
{
    let chars = hex_chars(bytes, upper);
    let text = encode_utf8(chars);
    lemma_hex_chars_ascii(bytes, upper);
    assert forall|i: int| 0 <= i < text.len() implies (#[trigger] hex_value(text[i])) is Some by {
        lemma_digit_value(bytes[i / 2] / 16, upper);
        lemma_digit_value(bytes[i / 2] % 16, upper);
    }
    assert forall|j: int| 0 <= j < bytes.len() implies (hex_value(text[2 * j])->0 * 16
        + hex_value(text[2 * j + 1])->0) as u8 == bytes[j] by {
        lemma_digit_value(bytes[j] / 16, upper);
        lemma_digit_value(bytes[j] % 16, upper);
        assert(text[2 * j] == chars[2 * j] as u8);
        assert(text[2 * j + 1] == chars[2 * j + 1] as u8);
        assert((2 * j) / 2 == j);
        assert((2 * j + 1) / 2 == j);
        assert((2 * j) % 2 == 0);
        assert((2 * j + 1) % 2 == 1);
    }
    assert(hex_decode_spec(text)->0 =~= bytes);
}

} // verus!
