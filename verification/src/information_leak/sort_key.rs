//! The keys by which confirmed leaks are sorted and told apart.

use crate::byte_order::{
    bytes_less, lemma_bytes_less_asymmetric, lemma_bytes_less_total, lemma_bytes_less_transitive,
    KeyOrder,
};
use vstd::prelude::*;

verus! {

/// What a confirmed leak is sorted by: a byte string, a number, a second byte
/// string and a second number, compared in this order.
pub struct SortKey {
    pub text: Seq<u8>,
    pub line: int,
    pub path: Seq<u8>,
    pub offset: int,
}

/// Whether the key `a` stands before the key `b`.
pub open spec fn key_less(a: SortKey, b: SortKey) -> bool {
    ||| bytes_less(a.text, b.text)
    ||| a.text == b.text && a.line < b.line
    ||| a.text == b.text && a.line == b.line && bytes_less(a.path, b.path)
    ||| a.text == b.text && a.line == b.line && a.path == b.path && a.offset < b.offset
}

/// How the key `a` stands to the key `b`.
pub open spec fn key_order(a: SortKey, b: SortKey) -> KeyOrder {
    if key_less(a, b) {
        KeyOrder::Less
    } else if a == b {
        KeyOrder::Equal
    } else {
        KeyOrder::Greater
    }
}

/// No key stands before itself, and of two keys at most one stands before
/// the other.
pub proof fn lemma_key_less_asymmetric(a: SortKey, b: SortKey)
    ensures
        !(key_less(a, b) && key_less(b, a)),
        a == b ==> !key_less(a, b),
{
    lemma_bytes_less_asymmetric(a.text, b.text);
    lemma_bytes_less_asymmetric(a.path, b.path);
}

/// Any two keys are equal, or one of them stands before the other.
pub proof fn lemma_key_less_total(a: SortKey, b: SortKey)
    ensures
        key_less(a, b) || a == b || key_less(b, a),
{
    lemma_bytes_less_total(a.text, b.text);
    lemma_bytes_less_total(a.path, b.path);
}

/// A key that stands before a key that stands before a third stands before
/// the third.
pub proof fn lemma_key_less_transitive(a: SortKey, b: SortKey, c: SortKey)
    requires
        key_less(a, b),
        key_less(b, c),
    ensures
        key_less(a, c),
{
    if bytes_less(a.text, b.text) && bytes_less(b.text, c.text) {
        lemma_bytes_less_transitive(a.text, b.text, c.text);
    }
    if bytes_less(a.path, b.path) && bytes_less(b.path, c.path) {
        lemma_bytes_less_transitive(a.path, b.path, c.path);
    }
}

} // verus!
