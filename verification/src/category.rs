//! The category of a character, and the colour its record is shown in.

use vstd::prelude::*;

verus! {

/// What kind of character a scalar value is.
#[derive(Clone, Copy, Debug, PartialEq, Eq, Structural)]
pub enum CharType {
    Normal,
    Combining,
    Control,
}

/// A foreground colour of the terminal.
#[derive(Clone, Copy, Debug, PartialEq, Eq, Structural)]
pub enum Color {
    Green,
    Magenta,
}

/// The control characters: C0, DELETE and C1 (general category Cc).
pub open spec fn is_control(c: char) -> bool {
    (c as u32) <= 0x1f || (0x7f <= (c as u32) && (c as u32) <= 0x9f)
}

/// The block of combining diacritical marks, U+0300 to U+036F.
pub open spec fn is_combining(c: char) -> bool {
    0x300 <= (c as u32) && (c as u32) < 0x370
}

/// The category of `c`: control characters first, then combining marks.
pub open spec fn category_of(c: char) -> CharType {
    if is_control(c) {
        CharType::Control
    } else if is_combining(c) {
        CharType::Combining
    } else {
        CharType::Normal
    }
}

/// The colour that a record of category `t` is shown in, if any.
pub open spec fn color_of(t: CharType) -> Option<Color> {
    match t {
        CharType::Control => Some(Color::Green),
        CharType::Combining => Some(Color::Magenta),
        CharType::Normal => None,
    }
}

/// Every character has exactly one category. The control characters and
/// the combining marks have no character in common, and every code below
/// U+0020 is a control character.
pub proof fn lemma_category_is_exclusive(c: char)
    ensures
        !(is_control(c) && is_combining(c)),
        category_of(c) == CharType::Control <==> is_control(c),
        category_of(c) == CharType::Combining <==> is_combining(c),
        category_of(c) == CharType::Normal <==> !is_control(c) && !is_combining(c),
        (c as u32) < 0x20 ==> category_of(c) == CharType::Control,
{
}

impl CharType {
    /// Classifies `c`.
    pub fn of(c: char) -> (t: CharType)
        ensures
            t == category_of(c),
            (c as u32) < 0x20 ==> t == CharType::Control,
    {
        let num: u32 = c as u32;
        if num <= 0x1f || (0x7f <= num && num <= 0x9f) {
            CharType::Control
        } else if num >= 0x300 && num < 0x370 {
            CharType::Combining
        } else {
            CharType::Normal
        }
    }

    /// The colour to switch the terminal to before a record of this category
    /// is written; `None` asks for no styling at all.
    pub fn color(&self) -> (k: Option<Color>)
        ensures
            k == color_of(*self),
            k is None <==> *self == CharType::Normal,
    {
        match self {
            CharType::Control => Some(Color::Green),
            CharType::Combining => Some(Color::Magenta),
            CharType::Normal => None,
        }
    }
}

} // verus!
