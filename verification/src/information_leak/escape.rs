//! Escape sequences of C and C++ string literals.

use std::borrow::Cow;
use vstd::prelude::*;

verus! {

/// Whether `c` is one of the digits `0` to `7`.
pub open spec fn is_octal_digit(c: char) -> bool {
    '0' <= c && c <= '7'
}

/// The value of an octal digit.
pub open spec fn octal_digit_value(c: char) -> int {
    c as int - '0' as int
}

/// How many digits the octal escape whose first digit stands at `first`
/// takes: that digit and up to two more that directly follow it.
pub open spec fn octal_escape_len(s: Seq<char>, first: int) -> int {
    if first + 1 < s.len() && is_octal_digit(s[first + 1]) {
        if first + 2 < s.len() && is_octal_digit(s[first + 2]) {
            3
        } else {
            2
        }
    } else {
        1
    }
}

/// The number that the `len` octal digits from `first` on denote.
pub open spec fn octal_escape_value(s: Seq<char>, first: int, len: int) -> int
    decreases len,
{
    if len <= 0 {
        0
    } else {
        8 * octal_escape_value(s, first, len - 1) + octal_digit_value(s[first + len - 1])
    }
}

/// What a backslash followed by the single character `c` stands for: one of
/// the seven control characters, or `c` itself.
pub open spec fn simple_escape(c: char) -> char {
    if c == 'a' {
        '\x07'
    } else if c == 'b' {
        '\x08'
    } else if c == 't' {
        '\t'
    } else if c == 'n' {
        '\n'
    } else if c == 'v' {
        '\x0b'
    } else if c == 'f' {
        '\x0c'
    } else if c == 'r' {
        '\r'
    } else {
        c
    }
}

/// `first` in front of `rest`, where there is a rest.
pub open spec fn prepend(first: char, rest: Option<Seq<char>>) -> Option<Seq<char>> {
    match rest {
        Some(tail) => Some(seq![first] + tail),
        None => None,
    }
}

/// The text that `s` denotes from position `at` on, or `None` where an escape
/// sequence cannot be decoded: a backslash that ends the text, or an octal
/// escape above 255.
pub open spec fn unescape_from(s: Seq<char>, at: int) -> Option<Seq<char>>
    decreases s.len() - at,
{
    if at < 0 || at >= s.len() {
        Some(Seq::empty())
    } else if s[at] != '\\' {
        prepend(s[at], unescape_from(s, at + 1))
    } else if at + 1 >= s.len() {
        None
    } else if is_octal_digit(s[at + 1]) {
        let len = octal_escape_len(s, at + 1);
        let value = octal_escape_value(s, at + 1, len);
        if value > 255 {
            None
        } else {
            prepend(value as char, unescape_from(s, at + 1 + len))
        }
    } else {
        prepend(simple_escape(s[at + 1]), unescape_from(s, at + 2))
    }
}

/// The text that a literal's payload denotes once its escape sequences are
/// replaced, or `None` where one of them cannot be decoded.
pub open spec fn unescape(s: Seq<char>) -> Option<Seq<char>> {
    unescape_from(s, 0)
}

/// `done` followed by `rest`, where there is a rest.
pub open spec fn followed_by(done: Seq<char>, rest: Option<Seq<char>>) -> Option<Seq<char>> {
    match rest {
        Some(tail) => Some(done + tail),
        None => None,
    }
}

/// Whether a backslash occurs in `s`.
pub open spec fn has_backslash(s: Seq<char>) -> bool {
    exists|i: int| 0 <= i < s.len() && s[i] == '\\'
}

/// Appending a character to what is decoded so far and prepending it to what
/// is still to come give the same text.
proof fn lemma_followed_by_prepend(done: Seq<char>, c: char, rest: Option<Seq<char>>)
    ensures
        followed_by(done, prepend(c, rest)) == followed_by(done.push(c), rest),
{
}

/// A text without a backslash denotes itself.
pub proof fn lemma_unescape_plain(s: Seq<char>, at: int)
    requires
        0 <= at <= s.len(),
        forall|i: int| at <= i < s.len() ==> s[i] != '\\',
    ensures
        unescape_from(s, at) == Some(s.skip(at)),
    decreases s.len() - at,
{
    if at < s.len() {
        lemma_unescape_plain(s, at + 1);
    }
}

/// `String::push` appends one character to the text.
pub assume_specification[ String::push ](text: &mut String, c: char)
    ensures
        final(text)@ == old(text)@.push(c),
;

/// The characters of a text, in a vector.
pub fn chars_of(text: &str) -> (chars: Vec<char>)
    ensures
        chars@ == text@,
{
    broadcast use vstd::string::group_string_axioms;

    let mut chars: Vec<char> = Vec::new();
    for c in it: text.chars()
        invariant
            it.seq() == text@,
            chars@ == text@.take(it.index()),
    {
        chars.push(c);
    }
    chars
}

fn is_octal(c: char) -> (r: bool)
    ensures
        r == is_octal_digit(c),
{
    '0' <= c && c <= '7'
}

fn octal_digit(c: char) -> (d: u32)
    requires
        is_octal_digit(c),
    ensures
        d == octal_digit_value(c),
        d < 8,
{
    c as u32 - '0' as u32
}

fn escaped_char(c: char) -> (r: char)
    ensures
        r == simple_escape(c),
{
    if c == 'a' {
        '\x07'
    } else if c == 'b' {
        '\x08'
    } else if c == 't' {
        '\t'
    } else if c == 'n' {
        '\n'
    } else if c == 'v' {
        '\x0b'
    } else if c == 'f' {
        '\x0c'
    } else if c == 'r' {
        '\r'
    } else {
        c
    }
}

fn contains_backslash(chars: &Vec<char>) -> (found: bool)
    ensures
        found == has_backslash(chars@),
{
    let mut i: usize = 0;
    while i < chars.len()
        invariant
            i <= chars.len(),
            forall|k: int| 0 <= k < i ==> chars@[k] != '\\',
        decreases chars.len() - i,
    {
        if chars[i] == '\\' {
            return true;
        }
        i += 1;
    }
    false
}

/// Replaces the escape sequences of a literal's payload by the characters
/// they stand for. A payload without a backslash is handed back as it is,
/// borrowed. `None` is returned for a backslash that ends the payload and
/// for an octal escape above 255.
pub fn process_escape_sequences(string: &str) -> (result: Option<Cow<'_, str>>)
    ensures
        match result {
            Some(text) => unescape(string@) == Some(text@),
            None => unescape(string@) is None,
        },
        result matches Some(text) ==> (text is Borrowed <==> !has_backslash(string@)),
{
    let chars = chars_of(string);
    if !contains_backslash(&chars) {
        proof {
            lemma_unescape_plain(string@, 0);
        }
        return Some(Cow::Borrowed(string));
    }
    let n = chars.len();
    let mut owned = String::new();
    let mut i: usize = 0;
    while i < n
        invariant
            n == chars.len(),
            chars@ == string@,
            i <= n,
            unescape(string@) == followed_by(owned@, unescape_from(string@, i as int)),
        decreases n - i,
    {
        let c = chars[i];
        if c != '\\' {
            proof {
                lemma_followed_by_prepend(owned@, c, unescape_from(string@, i + 1));
            }
            owned.push(c);
            i += 1;
        } else if i + 1 >= n {
            return None;
        } else {
            let escaped = chars[i + 1];
            if is_octal(escaped) {
                let mut value: u32 = octal_digit(escaped);
                let mut end: usize = i + 2;
                if end < n && is_octal(chars[end]) {
                    value = value * 8 + octal_digit(chars[end]);
                    end += 1;
                    if end < n && is_octal(chars[end]) {
                        value = value * 8 + octal_digit(chars[end]);
                        end += 1;
                    }
                }
                proof {
                    reveal_with_fuel(octal_escape_value, 4);
                }
                if value > 255 {
                    return None;
                }
                let decoded = value as u8 as char;
                proof {
                    lemma_followed_by_prepend(owned@, decoded, unescape_from(string@, end as int));
                }
                owned.push(decoded);
                i = end;
            } else {
                let decoded = escaped_char(escaped);
                proof {
                    lemma_followed_by_prepend(owned@, decoded, unescape_from(string@, i + 2));
                }
                owned.push(decoded);
                i += 2;
            }
        }
    }
    Some(Cow::Owned(owned))
}

} // verus!
