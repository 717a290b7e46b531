//! A character shown as a glyph that cannot disturb the line it is printed
//! on.

use vstd::prelude::*;
use unicode_width::UnicodeWidthChar;
use crate::category::is_combining;
use crate::text::{decimal, push_decimal};

verus! {

/// The number of terminal columns that `unicode_width` gives `c`, or `None`
/// where it gives none.
pub uninterp spec fn display_width(c: char) -> Option<usize>;

/// `UnicodeWidthChar::width` of `unicode_width`: the displayed width of a
/// character, read from the crate's tables. The result depends on the
/// character alone.
#[verifier::external_body]
pub(crate) fn char_width(c: char) -> (width: Option<usize>)
    ensures
        width == display_width(c),
{
    UnicodeWidthChar::width(c)
}

/// The glyph of `c`, where `width` is its displayed width.
///
/// The first thirty-two control codes are written as numbers, the first ten
/// with a space behind them. Every other character stands between single
/// quotes: a combining mark after a space for it to attach to, a character
/// one column wide after a space that holds the column, and any other
/// character with nothing before it.
pub open spec fn glyph_text(c: char, width: Option<usize>) -> Seq<char> {
    let number = c as u32;
    if number <= 9 {
        seq![' ', '#'] + decimal(number as nat) + seq![' ']
    } else if number <= 31 {
        seq![' ', '#'] + decimal(number as nat)
    } else if is_combining(c) {
        seq![' ', '\'', ' ', c, '\'']
    } else if width == Some(1usize) {
        seq![' ', '\'', c, '\'']
    } else {
        seq!['\'', c, '\'']
    }
}

/// A character shown as a glyph.
#[derive(Clone, Copy, Debug)]
pub struct CharDisplay(pub char);

impl CharDisplay {
    /// The glyph of the character, given its displayed width.
    pub fn render_with_width(&self, width: Option<usize>) -> (s: String)
        ensures
            s@ == glyph_text(self.0, width),
    {
        let c = self.0;
        let number: u32 = c as u32;
        let mut s = String::new();
        if number <= 9 {
            s.push(' ');
            s.push('#');
            push_decimal(&mut s, number as u64);
            s.push(' ');
        } else if number <= 31 {
            s.push(' ');
            s.push('#');
            push_decimal(&mut s, number as u64);
        } else if number >= 0x300 && number < 0x370 {
            s.push(' ');
            s.push('\'');
            s.push(' ');
            s.push(c);
            s.push('\'');
        } else if is_one(width) {
            s.push(' ');
            s.push('\'');
            s.push(c);
            s.push('\'');
        } else {
            s.push('\'');
            s.push(c);
            s.push('\'');
        }
        assert(s@ =~= glyph_text(c, width));
        s
    }

    /// The glyph of the character, with the width that `unicode_width`
    /// gives it.
    pub fn render(&self) -> (s: String)
        ensures
            s@ == glyph_text(self.0, display_width(self.0)),
    {
        self.render_with_width(char_width(self.0))
    }
}

/// Whether `width` is exactly one column.
fn is_one(width: Option<usize>) -> (b: bool)
    ensures
        b == (width == Some(1usize)),
{
    match width {
        Some(w) => w == 1,
        None => false,
    }
}

} // verus!
