//! The UTF-8 encoding of one character.

use vstd::prelude::*;
use vstd::utf8::*;

verus! {

/// The bytes that encode `c` in UTF-8.
pub open spec fn utf8_of(c: char) -> Seq<u8> {
    encode_scalar(c as u32)
}

/// An encoding is one to four bytes long, by the size of the scalar value.
pub proof fn lemma_utf8_len(c: char)
    ensures
        1 <= utf8_of(c).len() <= 4,
        utf8_of(c).len() == (if (c as u32) < 0x80 {
            1nat
        } else if (c as u32) < 0x800 {
            2nat
        } else if (c as u32) < 0x10000 {
            3nat
        } else {
            4nat
        }),
{
}

/// Decoding the encoding of `c` gives `c` back, and nothing else.
pub proof fn lemma_utf8_round_trip(c: char)
    ensures
        valid_utf8(utf8_of(c)),
        decode_utf8(utf8_of(c)) == seq![c],
{
    let chars = seq![c];
    reveal_with_fuel(encode_utf8, 2);
    assert(chars.drop_first() =~= Seq::<char>::empty());
    assert(encode_utf8(chars) =~= utf8_of(c));
    encode_utf8_valid_utf8(chars);
    encode_utf8_decode_utf8(chars);
}

/// How many bytes the UTF-8 encoding of `c` has.
pub fn len_utf8(c: char) -> (len: usize)
    ensures
        len == utf8_of(c).len(),
        1 <= len <= 4,
{
    let n: u32 = c as u32;
    if n < 0x80 {
        1
    } else if n < 0x800 {
        2
    } else if n < 0x10000 {
        3
    } else {
        4
    }
}

/// Encodes `c` in UTF-8.
pub fn encode_utf8_char(c: char) -> (bytes: Vec<u8>)
    ensures
        bytes@ == utf8_of(c),
{
    let n: u32 = c as u32;
    let mut bytes: Vec<u8> = Vec::new();
    if n < 0x80 {
        assert((n & 0x7F) < 0x100) by (bit_vector);
        bytes.push((n & 0x7F) as u8);
    } else if n < 0x800 {
        assert(((n >> 6) & 0x1F) < 0x100 && (n & 0x3F) < 0x100) by (bit_vector);
        bytes.push(0xC0 | ((n >> 6) & 0x1F) as u8);
        bytes.push(0x80 | (n & 0x3F) as u8);
    } else if n < 0x10000 {
        assert(((n >> 12) & 0x0F) < 0x100 && ((n >> 6) & 0x3F) < 0x100 && (n & 0x3F) < 0x100)
            by (bit_vector);
        bytes.push(0xE0 | ((n >> 12) & 0x0F) as u8);
        bytes.push(0x80 | ((n >> 6) & 0x3F) as u8);
        bytes.push(0x80 | (n & 0x3F) as u8);
    } else {
        assert(((n >> 18) & 0x7) < 0x100 && ((n >> 12) & 0x3F) < 0x100 && ((n >> 6) & 0x3F)
            < 0x100 && (n & 0x3F) < 0x100) by (bit_vector);
        bytes.push(0xF0 | ((n >> 18) & 0x7) as u8);
        bytes.push(0x80 | ((n >> 12) & 0x3F) as u8);
        bytes.push(0x80 | ((n >> 6) & 0x3F) as u8);
        bytes.push(0x80 | (n & 0x3F) as u8);
    }
    assert(bytes@ =~= utf8_of(c));
    bytes
}

} // verus!
