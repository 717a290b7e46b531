//! The bytes of a character's encoding, written in hexadecimal.

use vstd::prelude::*;
use vstd::utf8::*;
use crate::encoding::{encode_utf8_char, lemma_utf8_len, lemma_utf8_round_trip, utf8_of};

verus! {

/// The lower-case character that stands for the hexadecimal digit `d`.
pub open spec fn hex_digit_char(d: nat) -> char
    recommends
        d < 16,
{
    if d < 10 {
        ((d + 0x30) as u8) as char
    } else {
        ((d + 0x57) as u8) as char
    }
}

/// One byte as two hexadecimal digits, the high one first.
pub open spec fn hex_pair(b: u8) -> Seq<char> {
    seq![hex_digit_char((b / 16) as nat), hex_digit_char((b % 16) as nat)]
}

/// Bytes as pairs of hexadecimal digits with one space between two pairs:
/// nothing before the first pair and nothing after the last.
pub open spec fn hex_text(bytes: Seq<u8>) -> Seq<char>
    decreases bytes.len(),
{
    if bytes.len() == 0 {
        Seq::empty()
    } else if bytes.len() == 1 {
        hex_pair(bytes[0])
    } else {
        hex_text(bytes.drop_last()) + seq![' '] + hex_pair(bytes.last())
    }
}

/// The encoding of `c` in hexadecimal.
pub open spec fn bytes_text(c: char) -> Seq<char> {
    hex_text(utf8_of(c))
}

/// What a hexadecimal digit is worth; a character that is no digit counts
/// as zero.
pub open spec fn hex_digit_value(c: char) -> nat {
    if 0x30 <= (c as u32) && (c as u32) <= 0x39 {
        ((c as u32) - 0x30) as nat
    } else if 0x61 <= (c as u32) && (c as u32) <= 0x66 {
        ((c as u32) - 0x57) as nat
    } else {
        0
    }
}

/// The byte that two hexadecimal digits stand for.
pub open spec fn hex_pair_value(high: char, low: char) -> u8 {
    (hex_digit_value(high) * 16 + hex_digit_value(low)) as u8
}

/// Reads a text of hexadecimal pairs with one character between two pairs
/// back into bytes.
pub open spec fn parse_hex_text(text: Seq<char>) -> Seq<u8>
    decreases text.len(),
{
    if text.len() < 2 {
        Seq::empty()
    } else if text.len() < 5 {
        seq![hex_pair_value(text[0], text[1])]
    } else {
        parse_hex_text(text.take(text.len() - 3)).push(
            hex_pair_value(text[text.len() - 2], text[text.len() - 1]),
        )
    }
}

/// `n` bytes take `3n - 1` characters.
pub proof fn lemma_hex_text_len(bytes: Seq<u8>)
    ensures
        bytes.len() == 0 ==> hex_text(bytes).len() == 0,
        bytes.len() > 0 ==> hex_text(bytes).len() == 3 * bytes.len() - 1,
    decreases bytes.len(),
{
    if bytes.len() > 1 {
        lemma_hex_text_len(bytes.drop_last());
    }
}

/// A pair of digits stands for the byte it was written from.
pub proof fn lemma_hex_pair_value(b: u8)
    ensures
        hex_pair_value(hex_pair(b)[0], hex_pair(b)[1]) == b,
{
    let high = (b / 16) as nat;
    let low = (b % 16) as nat;
    assert(hex_digit_value(hex_digit_char(high)) == high);
    assert(hex_digit_value(hex_digit_char(low)) == low);
}

/// Reading back what `hex_text` wrote gives the same bytes.
pub proof fn lemma_parse_hex_text(bytes: Seq<u8>)
    ensures
        parse_hex_text(hex_text(bytes)) == bytes,
    decreases bytes.len(),
{
    let text = hex_text(bytes);
    lemma_hex_text_len(bytes);
    if bytes.len() == 0 {
        assert(parse_hex_text(text) =~= bytes);
    } else if bytes.len() == 1 {
        lemma_hex_pair_value(bytes[0]);
        assert(parse_hex_text(text) =~= bytes);
    } else {
        let front = bytes.drop_last();
        lemma_hex_text_len(front);
        lemma_parse_hex_text(front);
        lemma_hex_pair_value(bytes.last());
        assert(text.take(text.len() - 3) =~= hex_text(front));
        assert(text[text.len() - 2] == hex_pair(bytes.last())[0]);
        assert(text[text.len() - 1] == hex_pair(bytes.last())[1]);
        assert(parse_hex_text(text) =~= bytes);
    }
}

/// The hexadecimal text of a character leads back to that character: read
/// as bytes and decoded as UTF-8 it gives the character, alone.
pub proof fn lemma_bytes_text_round_trip(c: char)
    ensures
        parse_hex_text(bytes_text(c)) == utf8_of(c),
        valid_utf8(parse_hex_text(bytes_text(c))),
        decode_utf8(parse_hex_text(bytes_text(c))) == seq![c],
{
    lemma_parse_hex_text(utf8_of(c));
    lemma_utf8_round_trip(c);
}

/// The hexadecimal digit `d` as a character.
pub fn hex_digit(d: u8) -> (c: char)
    requires
        d < 16,
    ensures
        c == hex_digit_char(d as nat),
{
    if d < 10 {
        (d + 0x30) as char
    } else {
        (d + 0x57) as char
    }
}

/// Appends the two hexadecimal digits of `b` to `s`.
pub fn push_hex_pair(s: &mut String, b: u8)
    ensures
        final(s)@ == old(s)@ + hex_pair(b),
{
    s.push(hex_digit(b / 16));
    s.push(hex_digit(b % 16));
    assert(s@ =~= old(s)@ + hex_pair(b));
}

/// A character shown as the bytes of its UTF-8 encoding.
#[derive(Clone, Copy, Debug)]
pub struct NumDisplay(pub char);

impl NumDisplay {
    /// The bytes of the encoding in lower-case hexadecimal, two digits
    /// each, separated by single spaces.
    pub fn render(&self) -> (s: String)
        ensures
            s@ == bytes_text(self.0),
            s@.len() == 3 * utf8_of(self.0).len() - 1,
    {
        let bytes = encode_utf8_char(self.0);
        let mut s = String::new();
        proof {
            lemma_utf8_len(self.0);
            lemma_hex_text_len(bytes@);
        }
        push_hex_pair(&mut s, bytes[0]);
        assert(bytes@.take(1) =~= seq![bytes@[0]]);
        assert(s@ =~= hex_text(bytes@.take(1)));
        let mut index: usize = 1;
        while index < bytes.len()
            invariant
                1 <= index <= bytes.len(),
                s@ == hex_text(bytes@.take(index as int)),
            decreases bytes.len() - index,
        {
            s.push(' ');
            push_hex_pair(&mut s, bytes[index]);
            proof {
                let next = bytes@.take(index + 1);
                assert(next.drop_last() =~= bytes@.take(index as int));
                assert(s@ =~= hex_text(next));
            }
            index = index + 1;
        }
        assert(bytes@.take(index as int) =~= bytes@);
        s
    }
}

} // verus!
