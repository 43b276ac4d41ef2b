//! UTF-16 and UTF-32 code units of a text, and their little-endian bytes.

use vstd::prelude::*;

verus! {

/// The UTF-16 code units of one character: the character itself below
/// U+10000, a high and a low surrogate from there on.
pub open spec fn char_utf16(c: char) -> Seq<u16> {
    let v = c as int;
    if v < 0x10000 {
        seq![v as u16]
    } else {
        seq![(0xD800 + (v - 0x10000) / 0x400) as u16, (0xDC00 + (v - 0x10000) % 0x400) as u16]
    }
}

/// The UTF-16 code units of a text, character after character.
pub open spec fn utf16_code_units(text: Seq<char>) -> Seq<u16>
    decreases text.len(),
{
    if text.len() == 0 {
        Seq::empty()
    } else {
        utf16_code_units(text.drop_last()) + char_utf16(text.last())
    }
}

/// The UTF-32 code units of a text: the scalar value of each character.
pub open spec fn utf32_code_units(text: Seq<char>) -> Seq<u32> {
    Seq::new(text.len(), |i: int| text[i] as u32)
}

/// Byte `k` (0 is the least significant) of a non-negative number.
pub open spec fn le_byte(value: int, k: int) -> u8 {
    if k == 0 {
        (value % 0x100) as u8
    } else if k == 1 {
        ((value / 0x100) % 0x100) as u8
    } else if k == 2 {
        ((value / 0x1_0000) % 0x100) as u8
    } else {
        ((value / 0x100_0000) % 0x100) as u8
    }
}

/// Each 16-bit unit as two bytes, least significant first.
pub open spec fn u16_le_bytes(units: Seq<u16>) -> Seq<u8> {
    Seq::new(2 * units.len(), |i: int| le_byte(units[i / 2] as int, i % 2))
}

/// Each 32-bit unit as four bytes, least significant first.
pub open spec fn u32_le_bytes(units: Seq<u32>) -> Seq<u8> {
    Seq::new(4 * units.len(), |i: int| le_byte(units[i / 4] as int, i % 4))
}

/// A text encoded as UTF-16LE.
pub open spec fn utf16_le_bytes(text: Seq<char>) -> Seq<u8> {
    u16_le_bytes(utf16_code_units(text))
}

/// A text encoded as UTF-32LE.
pub open spec fn utf32_le_bytes(text: Seq<char>) -> Seq<u8> {
    u32_le_bytes(utf32_code_units(text))
}

/// Calls `widestring::encode_utf16` on the characters of `text` and collects
/// the iterator it returns. Trusted: the units are those of `utf16_code_units`,
/// which is what `char::encode_utf16`, used by that iterator for each
/// character, is documented to produce.
#[verifier::external_body]
fn encode_utf16(text: &str) -> (units: Vec<u16>)
    ensures
        units@ == utf16_code_units(text@),
{
    widestring::encode_utf16(text.chars()).collect()
}

/// Calls `widestring::encode_utf32` on the characters of `text` and collects
/// the iterator it returns. Trusted: each unit is the scalar value of the
/// character at the same place, the cast that the iterator performs.
#[verifier::external_body]
fn encode_utf32(text: &str) -> (units: Vec<u32>)
    ensures
        units@ == utf32_code_units(text@),
{
    widestring::encode_utf32(text.chars()).collect()
}

/// Lays 16-bit units out as bytes, least significant byte first.
pub fn u16s_to_le_bytes(units: &Vec<u16>) -> (bytes: Vec<u8>)
    ensures
        bytes@ == u16_le_bytes(units@),
{
    let mut bytes: Vec<u8> = Vec::new();
    let mut i: usize = 0;
    while i < units.len()
        invariant
            i <= units.len(),
            bytes@.len() == 2 * i,
            forall|k: int| 0 <= k < 2 * i ==> bytes@[k] == u16_le_bytes(units@)[k],
        decreases units.len() - i,
    {
        let unit: u16 = units[i];
        bytes.push((unit % 0x100) as u8);
        bytes.push((unit / 0x100) as u8);
        i += 1;
    }
    bytes
}

/// Lays 32-bit units out as bytes, least significant byte first.
pub fn u32s_to_le_bytes(units: &Vec<u32>) -> (bytes: Vec<u8>)
    ensures
        bytes@ == u32_le_bytes(units@),
{
    let mut bytes: Vec<u8> = Vec::new();
    let mut i: usize = 0;
    while i < units.len()
        invariant
            i <= units.len(),
            bytes@.len() == 4 * i,
            forall|k: int| 0 <= k < 4 * i ==> bytes@[k] == u32_le_bytes(units@)[k],
        decreases units.len() - i,
    {
        let unit: u32 = units[i];
        bytes.push((unit % 0x100) as u8);
        bytes.push(((unit / 0x100) % 0x100) as u8);
        bytes.push(((unit / 0x1_0000) % 0x100) as u8);
        bytes.push(((unit / 0x100_0000) % 0x100) as u8);
        i += 1;
    }
    bytes
}

/// Encodes a text as UTF-16LE.
pub fn utf16_le(text: &str) -> (bytes: Vec<u8>)
    ensures
        bytes@ == utf16_le_bytes(text@),
{
    let units = encode_utf16(text);
    u16s_to_le_bytes(&units)
}

/// Encodes a text as UTF-32LE.
pub fn utf32_le(text: &str) -> (bytes: Vec<u8>)
    ensures
        bytes@ == utf32_le_bytes(text@),
{
    let units = encode_utf32(text);
    u32s_to_le_bytes(&units)
}

} // verus!
