//! The record that is written for one character, and the line it makes.

use vstd::prelude::*;
use crate::category::{category_of, color_of, CharType, Color};
use crate::glyph::{glyph_text, CharDisplay};
use crate::hex::{bytes_text, NumDisplay};
use crate::text::{decimal, pad_left, push_padded_decimal};

verus! {

/// The width of the field that the ordinal is right-aligned in.
pub const ORDINAL_WIDTH: usize = 5;

/// What is known of one character.
#[derive(Clone, Debug, PartialEq, Eq)]
pub struct InspectionRecord {
    /// The counter before this character was counted.
    pub ordinal: u64,
    /// The character as a glyph.
    pub glyph: String,
    /// The bytes of its encoding, in hexadecimal.
    pub byte_hex: String,
    /// Its Unicode name, where names are shown and it has one.
    pub name: Option<String>,
    /// Its category.
    pub category: CharType,
}

/// What an `InspectionRecord` holds.
pub struct RecordView {
    pub ordinal: nat,
    pub glyph: Seq<char>,
    pub byte_hex: Seq<char>,
    pub name: Option<Seq<char>>,
    pub category: CharType,
}

/// What an optional string holds.
pub open spec fn name_view(name: Option<String>) -> Option<Seq<char>> {
    match name {
        Some(text) => Some(text@),
        None => None,
    }
}

impl View for InspectionRecord {
    type V = RecordView;

    open spec fn view(&self) -> RecordView {
        RecordView {
            ordinal: self.ordinal as nat,
            glyph: self.glyph@,
            byte_hex: self.byte_hex@,
            name: name_view(self.name),
            category: self.category,
        }
    }
}

/// The record of the character `c` at the counter value `ordinal`, where
/// `width` is the displayed width of `c` and `name` its name, if it is
/// shown and known.
pub open spec fn record_of(ordinal: nat, c: char, width: Option<usize>, name: Option<Seq<char>>)
    -> RecordView {
    RecordView {
        ordinal,
        glyph: glyph_text(c, width),
        byte_hex: bytes_text(c),
        name,
        category: category_of(c),
    }
}

/// The line of a record: the ordinal right-aligned in five columns, a
/// colon, the glyph, an equals sign between spaces, the bytes and, where
/// there is a name, the name in parentheses after a space.
pub open spec fn record_line(record: RecordView) -> Seq<char> {
    let head = pad_left(decimal(record.ordinal), ORDINAL_WIDTH as nat) + seq![':', ' ']
        + record.glyph + seq![' ', '=', ' '] + record.byte_hex;
    match record.name {
        Some(name) => head + seq![' ', '('] + name + seq![')'],
        None => head,
    }
}

impl InspectionRecord {
    /// The record of `c` at the counter value `ordinal`, given the
    /// displayed width of `c` and the name to show.
    pub fn new(ordinal: u64, c: char, width: Option<usize>, name: Option<String>) -> (record:
        InspectionRecord)
        ensures
            record@ == record_of(ordinal as nat, c, width, name_view(name)),
    {
        InspectionRecord {
            ordinal,
            glyph: CharDisplay(c).render_with_width(width),
            byte_hex: NumDisplay(c).render(),
            name,
            category: CharType::of(c),
        }
    }

    /// The line that this record is written as, without the end of line.
    pub fn line(&self) -> (text: String)
        ensures
            text@ == record_line(self@),
    {
        let mut text = String::new();
        push_padded_decimal(&mut text, self.ordinal, ORDINAL_WIDTH);
        text.push(':');
        text.push(' ');
        text.append(self.glyph.as_str());
        text.push(' ');
        text.push('=');
        text.push(' ');
        text.append(self.byte_hex.as_str());
        match &self.name {
            Some(name) => {
                text.push(' ');
                text.push('(');
                text.append(name.as_str());
                text.push(')');
            },
            None => {},
        }
        assert(text@ =~= record_line(self@));
        text
    }

    /// The colour to write this record in; `None` asks for no styling.
    pub fn color(&self) -> (color: Option<Color>)
        ensures
            color == color_of(self.category),
            color is None <==> self.category == CharType::Normal,
    {
        self.category.color()
    }
}

} // verus!
