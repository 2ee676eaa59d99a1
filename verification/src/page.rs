//! What the readers of the portal's pages share: the text of a cell, the
//! numbers in it, and the narrowing of a number to the width of a field.

use crate::html::{joined, join_texts, Cell, CellView};
use crate::text::{first_occurrence, find_from, replace_all, replaced, string_of, chars_of};
use crate::utils::{parse_u32, parsed_u32};
use vstd::prelude::*;

verus! {

/// The text of a cell: the texts of its text nodes, put together.
pub open spec fn text_in(cell: CellView) -> Seq<char> {
    joined(cell.texts)
}

/// The text of a cell.
pub fn cell_chars(cell: &Cell) -> (text: Vec<char>)
    ensures
        text@ == text_in(cell@),
{
    join_texts(&cell.texts)
}

/// The number that a text writes, and 0 for a text that writes none.
pub open spec fn number_in(text: Seq<char>) -> u32 {
    match parsed_u32(text) {
        Some(n) => n,
        None => 0,
    }
}

/// Reads the number that a text writes.
pub fn number_of(text: &Vec<char>) -> (number: u32)
    ensures
        number == number_in(text@),
{
    match parse_u32(string_of(text).as_str()) {
        Some(n) => n,
        None => 0,
    }
}

/// The lowest eight bits of a number.
pub open spec fn low_byte(n: u32) -> u8 {
    (n % 256) as u8
}

/// The lowest sixteen bits of a number.
pub open spec fn low_word(n: u32) -> u16 {
    (n % 65536) as u16
}

pub fn narrow_u8(n: u32) -> (low: u8)
    ensures
        low == low_byte(n),
{
    (n % 256) as u8
}

pub fn narrow_u16(n: u32) -> (low: u16)
    ensures
        low == low_word(n),
{
    (n % 65536) as u16
}

/// A text without its spaces and its line breaks, of either kind.
pub open spec fn squeezed(text: Seq<char>) -> Seq<char> {
    replaced(replaced(replaced(text, " "@, ""@), "\r\n"@, ""@), "\n"@, ""@)
}

/// Takes the spaces and the line breaks out of a text.
pub fn squeeze(text: &Vec<char>) -> (out: Vec<char>)
    ensures
        out@ == squeezed(text@),
{
    let empty = chars_of("");
    let out = replace_all(text, &chars_of(" "), &empty);
    let out = replace_all(&out, &chars_of("\r\n"), &empty);
    replace_all(&out, &chars_of("\n"), &empty)
}

/// Whether `pat` stands in `text` somewhere.
pub open spec fn holds(text: Seq<char>, pat: Seq<char>) -> bool {
    first_occurrence(text, pat, 0) is Some
}

/// Tells whether `pat` stands in `text` somewhere.
pub fn contains(text: &Vec<char>, pat: &Vec<char>) -> (held: bool)
    ensures
        held == holds(text@, pat@),
{
    find_from(text, pat, 0).is_some()
}

} // verus!
