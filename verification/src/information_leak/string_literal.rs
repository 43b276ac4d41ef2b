//! From a string literal as it is written in a source file to the bytes that
//! a compiler stores for it.

use super::escape::{process_escape_sequences, unescape};
use super::wide_encoding::{utf16_le, utf16_le_bytes, utf32_le, utf32_le_bytes};
use std::borrow::Cow;
use vstd::prelude::*;
use vstd::utf8::encode_utf8;

verus! {

/// Kind of wide chars to use when encoding wide strings
#[derive(Debug, Clone, Copy, PartialEq, Eq, Structural)]
pub enum WideCharMode {
    /// Wide strings are encoded as UTF-16LE
    Windows,
    /// Wide strings are encoded as UTF-32LE
    Unix,
}

/// Describes the string encoding specified for a string literal
#[derive(Debug, Clone, Copy, PartialEq, Eq, Structural)]
pub enum StringLiteralEncoding {
    /// No encoding specified (i.e., typical "*" string)
    Unspecified,
    /// Wide string encoding specified (i.e., L"*" string)
    Wide,
    /// UTF-8 encoding (i.e., u8"*" string)
    Utf8,
    /// UTF-16LE encoding (i.e., u"*" string)
    Utf16,
    /// UTF-32LE encoding (i.e., U"*" string)
    Utf32,
}

/// Why a text could not be decoded as a string literal.
#[derive(Debug, Clone, Copy, PartialEq, Eq, Structural)]
pub enum LiteralError {
    /// The text is empty.
    Empty,
    /// The text starts with `u` and has fewer than three characters.
    Invalid,
    /// The text starts with none of `"`, `L`, `U` and `u`.
    UnknownPrefix,
    /// The text ends before the payload that its prefix announces.
    Truncated,
    /// The payload holds an escape sequence that cannot be decoded.
    BadEscapeSequence,
}

/// The payload of a literal whose prefix and opening quote take `start`
/// characters: what stands between them and the last character.
pub open spec fn payload_after(
    literal: Seq<char>,
    encoding: StringLiteralEncoding,
    start: int,
) -> Result<(StringLiteralEncoding, Seq<char>), LiteralError> {
    if start <= literal.len() - 1 {
        Ok((encoding, literal.subrange(start, literal.len() - 1)))
    } else {
        Err(LiteralError::Truncated)
    }
}

/// The encoding that the prefix of a literal names, and the literal's payload.
pub open spec fn parse_literal(literal: Seq<char>) -> Result<
    (StringLiteralEncoding, Seq<char>),
    LiteralError,
> {
    if literal.len() == 0 {
        Err(LiteralError::Empty)
    } else if literal[0] == '"' {
        payload_after(literal, StringLiteralEncoding::Unspecified, 1)
    } else if literal[0] == 'L' {
        payload_after(literal, StringLiteralEncoding::Wide, 2)
    } else if literal[0] == 'U' {
        payload_after(literal, StringLiteralEncoding::Utf32, 2)
    } else if literal[0] == 'u' {
        if literal.len() < 3 {
            Err(LiteralError::Invalid)
        } else if literal[1] == '8' && literal[2] == '"' {
            payload_after(literal, StringLiteralEncoding::Utf8, 3)
        } else {
            payload_after(literal, StringLiteralEncoding::Utf16, 2)
        }
    } else {
        Err(LiteralError::UnknownPrefix)
    }
}

/// The wide character mode that stands for none given: that of Unix-like
/// platforms.
pub open spec fn wide_char_mode_or_default(mode: Option<WideCharMode>) -> WideCharMode {
    match mode {
        Some(mode) => mode,
        None => WideCharMode::Unix,
    }
}

/// The bytes of a decoded text in the encoding that the literal's prefix
/// names. Wide literals take the encoding of the wide character mode.
pub open spec fn encoded_text(
    encoding: StringLiteralEncoding,
    mode: WideCharMode,
    text: Seq<char>,
) -> Seq<u8> {
    match encoding {
        StringLiteralEncoding::Unspecified => encode_utf8(text),
        StringLiteralEncoding::Utf8 => encode_utf8(text),
        StringLiteralEncoding::Utf16 => utf16_le_bytes(text),
        StringLiteralEncoding::Utf32 => utf32_le_bytes(text),
        StringLiteralEncoding::Wide => match mode {
            WideCharMode::Windows => utf16_le_bytes(text),
            WideCharMode::Unix => utf32_le_bytes(text),
        },
    }
}

/// The bytes that stand in a binary for a literal written as `literal`.
pub open spec fn literal_bytes(literal: Seq<char>, mode: WideCharMode) -> Result<
    Seq<u8>,
    LiteralError,
> {
    match parse_literal(literal) {
        Err(e) => Err(e),
        Ok((encoding, payload)) => match unescape(payload) {
            None => Err(LiteralError::BadEscapeSequence),
            Some(text) => Ok(encoded_text(encoding, mode, text)),
        },
    }
}

impl LiteralError {
    /// The sentence that says what is wrong with the literal.
    pub open spec fn message_text(&self) -> Seq<char> {
        match self {
            LiteralError::Empty => "Empty string literal"@,
            LiteralError::Invalid => "Invalid string literal"@,
            LiteralError::UnknownPrefix => "Invalid string literal or a new string literal prefix introduced in the standard."@,
            LiteralError::Truncated => "String literal ends before its payload"@,
            LiteralError::BadEscapeSequence => "Failed to process escape sequences"@,
        }
    }

    /// A sentence that says what is wrong with the literal.
    pub fn message(&self) -> (text: &'static str)
        ensures
            text@ == self.message_text(),
    {
        match self {
            LiteralError::Empty => "Empty string literal",
            LiteralError::Invalid => "Invalid string literal",
            LiteralError::UnknownPrefix => "Invalid string literal or a new string literal prefix introduced in the standard.",
            LiteralError::Truncated => "String literal ends before its payload",
            LiteralError::BadEscapeSequence => "Failed to process escape sequences",
        }
    }
}

/// The payload of `string_literal` after the `start` characters of its
/// prefix and opening quote, without its last character.
fn payload_of(
    string_literal: &str,
    encoding: StringLiteralEncoding,
    start: usize,
    len: usize,
) -> (result: Result<(StringLiteralEncoding, &str), LiteralError>)
    requires
        len == string_literal@.len(),
        len > 0,
    ensures
        match result {
            Ok((found, payload)) => payload_after(string_literal@, encoding, start as int) == Ok::<
                (StringLiteralEncoding, Seq<char>),
                LiteralError,
            >((found, payload@)),
            Err(e) => payload_after(string_literal@, encoding, start as int) == Err::<
                (StringLiteralEncoding, Seq<char>),
                LiteralError,
            >(e),
        },
{
    if start <= len - 1 {
        Ok((encoding, string_literal.substring_char(start, len - 1)))
    } else {
        Err(LiteralError::Truncated)
    }
}

/// Takes in a string literal (e.g., "str", L"str") and returns the specified
/// encoding (extracted from the prefix) and the actual content of the string.
pub fn parse_string_literal(string_literal: &str) -> (result: Result<
    (StringLiteralEncoding, &str),
    LiteralError,
>)
    ensures
        match result {
            Ok((encoding, payload)) => parse_literal(string_literal@) == Ok::<
                (StringLiteralEncoding, Seq<char>),
                LiteralError,
            >((encoding, payload@)),
            Err(e) => parse_literal(string_literal@) == Err::<
                (StringLiteralEncoding, Seq<char>),
                LiteralError,
            >(e),
        },
{
    let len = string_literal.unicode_len();
    if len == 0 {
        return Err(LiteralError::Empty);
    }
    let first_char = string_literal.get_char(0);
    if first_char == '"' {
        // Ordinary string (we assume it'll be encoded to ASCII)
        payload_of(string_literal, StringLiteralEncoding::Unspecified, 1, len)
    } else if first_char == 'L' {
        // Wide string
        payload_of(string_literal, StringLiteralEncoding::Wide, 2, len)
    } else if first_char == 'U' {
        // UTF-32LE string
        payload_of(string_literal, StringLiteralEncoding::Utf32, 2, len)
    } else if first_char == 'u' {
        // UTF-8 or UTF-16LE string
        if len < 3 {
            return Err(LiteralError::Invalid);
        }
        let second_char = string_literal.get_char(1);
        let third_char = string_literal.get_char(2);
        if second_char == '8' && third_char == '"' {
            payload_of(string_literal, StringLiteralEncoding::Utf8, 3, len)
        } else {
            payload_of(string_literal, StringLiteralEncoding::Utf16, 2, len)
        }
    } else {
        Err(LiteralError::UnknownPrefix)
    }
}

/// Encodes a decoded text as the literal's prefix asks.
pub fn encode_text(encoding: StringLiteralEncoding, mode: WideCharMode, text: &str) -> (bytes: Vec<
    u8,
>)
    ensures
        bytes@ == encoded_text(encoding, mode, text@),
{
    match encoding {
        // Unspecified (ASCII assumed)
        StringLiteralEncoding::Unspecified => text.as_bytes_vec(),
        // Wide
        StringLiteralEncoding::Wide => match mode {
            // Encode as UTF-16LE on Windows
            WideCharMode::Windows => utf16_le(text),
            // Encode as UTF-32LE on Unix platforms
            WideCharMode::Unix => utf32_le(text),
        },
        // UTF-8
        StringLiteralEncoding::Utf8 => text.as_bytes_vec(),
        // UTF-16LE
        StringLiteralEncoding::Utf16 => utf16_le(text),
        // UTF-32LE
        StringLiteralEncoding::Utf32 => utf32_le(text),
    }
}

/// Decodes a string literal, written as in a source file, to the bytes that
/// stand for it in a binary. Without a wide character mode, wide literals are
/// encoded as on Unix-like platforms.
pub fn string_literal_to_bytes(string_literal: &str, wide_char_mode: Option<WideCharMode>) -> (result:
    Result<Vec<u8>, LiteralError>)
    ensures
        match result {
            Ok(bytes) => literal_bytes(
                string_literal@,
                wide_char_mode_or_default(wide_char_mode),
            ) == Ok::<Seq<u8>, LiteralError>(bytes@),
            Err(e) => literal_bytes(string_literal@, wide_char_mode_or_default(wide_char_mode))
                == Err::<Seq<u8>, LiteralError>(e),
        },
{
    let mode = match wide_char_mode {
        Some(mode) => mode,
        None => WideCharMode::Unix,
    };
    let (string_encoding, string_content) = match parse_string_literal(string_literal) {
        Ok(parsed) => parsed,
        Err(e) => {
            return Err(e);
        },
    };
    match process_escape_sequences(string_content) {
        None => Err(LiteralError::BadEscapeSequence),
        Some(Cow::Borrowed(text)) => Ok(encode_text(string_encoding, mode, text)),
        Some(Cow::Owned(text)) => Ok(encode_text(string_encoding, mode, text.as_str())),
    }
}

} // verus!
