//! Character inspection: for every character of a text, a record with its
//! ordinal, a glyph that is safe to print, the bytes of its UTF-8 encoding in
//! hexadecimal and, on request, its Unicode name.

pub mod category;
pub mod emission;
pub mod encoding;
pub mod glyph;
pub mod hex;
pub mod inspector;
pub mod options;
pub mod parser;
pub mod record;
pub mod text;
