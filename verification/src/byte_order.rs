//! The lexicographic order of byte strings, by which texts and paths are
//! sorted: a text stands before another where its UTF-8 bytes do.

use vstd::prelude::*;
use vstd::utf8::{encode_utf8, encode_utf8_decode_utf8};

verus! {

/// How one sort key stands to another.
#[derive(Debug, Clone, Copy, PartialEq, Eq, Structural)]
pub enum KeyOrder {
    /// The first stands before the second.
    Less,
    /// Neither stands before the other.
    Equal,
    /// The first stands after the second.
    Greater,
}

/// Whether `a` and `b` agree on their first `k` bytes.
pub open spec fn agree_up_to(a: Seq<u8>, b: Seq<u8>, k: int) -> bool {
    &&& 0 <= k <= a.len()
    &&& k <= b.len()
    &&& forall|i: int| 0 <= i < k ==> a[i] == b[i]
}

/// Whether `a` stands before `b` at position `k`: `a` ends there and `b`
/// goes on, or `a` has the smaller byte there.
pub open spec fn less_at(a: Seq<u8>, b: Seq<u8>, k: int) -> bool {
    &&& agree_up_to(a, b, k)
    &&& k < b.len()
    &&& k < a.len() ==> a[k] < b[k]
}

/// Whether `a` stands before `b` in lexicographic order.
pub open spec fn bytes_less(a: Seq<u8>, b: Seq<u8>) -> bool {
    exists|k: int| less_at(a, b, k)
}

/// How `a` stands to `b` in lexicographic order.
pub open spec fn bytes_order(a: Seq<u8>, b: Seq<u8>) -> KeyOrder {
    if bytes_less(a, b) {
        KeyOrder::Less
    } else if a == b {
        KeyOrder::Equal
    } else {
        KeyOrder::Greater
    }
}

/// Two byte strings that agree up to `k` and differ in what follows cannot
/// both stand before each other.
proof fn lemma_less_at_excludes(a: Seq<u8>, b: Seq<u8>, k: int, m: int)
    ensures
        !(less_at(a, b, k) && less_at(b, a, m)),
{
    if less_at(a, b, k) && less_at(b, a, m) {
        if k < m {
            assert(b[k] == a[k]);
        } else if m < k {
            assert(a[m] == b[m]);
        }
    }
}

/// No byte string stands before itself, and of two byte strings at most one
/// stands before the other.
pub proof fn lemma_bytes_less_asymmetric(a: Seq<u8>, b: Seq<u8>)
    ensures
        !(bytes_less(a, b) && bytes_less(b, a)),
        a == b ==> !bytes_less(a, b),
{
    if bytes_less(a, b) && bytes_less(b, a) {
        let k = choose|k: int| less_at(a, b, k);
        let m = choose|m: int| less_at(b, a, m);
        lemma_less_at_excludes(a, b, k, m);
    }
    if a == b && bytes_less(a, b) {
        let k = choose|k: int| less_at(a, b, k);
        lemma_less_at_excludes(a, b, k, k);
    }
}

/// Of two byte strings that agree up to `k`, one stands before the other or
/// they are equal.
proof fn lemma_bytes_total_from(a: Seq<u8>, b: Seq<u8>, k: int)
    requires
        agree_up_to(a, b, k),
    ensures
        bytes_less(a, b) || a == b || bytes_less(b, a),
    decreases a.len() - k,
{
    if k == a.len() {
        if k == b.len() {
            assert(a =~= b);
        } else {
            assert(less_at(a, b, k));
        }
    } else if k == b.len() {
        assert(agree_up_to(b, a, k));
        assert(less_at(b, a, k));
    } else if a[k] < b[k] {
        assert(less_at(a, b, k));
    } else if b[k] < a[k] {
        assert(agree_up_to(b, a, k));
        assert(less_at(b, a, k));
    } else {
        lemma_bytes_total_from(a, b, k + 1);
    }
}

/// Any two byte strings are equal, or one of them stands before the other.
pub proof fn lemma_bytes_less_total(a: Seq<u8>, b: Seq<u8>)
    ensures
        bytes_less(a, b) || a == b || bytes_less(b, a),
{
    lemma_bytes_total_from(a, b, 0);
}

/// What stands before a byte string that stands before a third stands
/// before the third.
pub proof fn lemma_bytes_less_transitive(a: Seq<u8>, b: Seq<u8>, c: Seq<u8>)
    requires
        bytes_less(a, b),
        bytes_less(b, c),
    ensures
        bytes_less(a, c),
{
    let k = choose|k: int| less_at(a, b, k);
    let m = choose|m: int| less_at(b, c, m);
    if k <= m {
        assert(less_at(a, c, k));
    } else {
        assert(less_at(a, c, m));
    }
}

/// Compares two byte strings in lexicographic order.
pub fn compare_bytes(a: &[u8], b: &[u8]) -> (order: KeyOrder)
    ensures
        order == bytes_order(a@, b@),
{
    let mut i: usize = 0;
    while i < a.len() && i < b.len()
        invariant
            agree_up_to(a@, b@, i as int),
        decreases a.len() - i,
    {
        if a[i] < b[i] {
            assert(less_at(a@, b@, i as int));
            return KeyOrder::Less;
        }
        if a[i] > b[i] {
            proof {
                lemma_bytes_less_asymmetric(a@, b@);
            }
            return KeyOrder::Greater;
        }
        i += 1;
    }
    if i < b.len() {
        assert(less_at(a@, b@, i as int));
        KeyOrder::Less
    } else if i < a.len() {
        proof {
            lemma_bytes_less_asymmetric(a@, b@);
        }
        KeyOrder::Greater
    } else {
        proof {
            assert(a@ =~= b@);
            lemma_bytes_less_asymmetric(a@, b@);
        }
        KeyOrder::Equal
    }
}

/// How the text `a` stands to the text `b`: as their UTF-8 bytes do.
pub open spec fn text_order(a: Seq<char>, b: Seq<char>) -> KeyOrder {
    bytes_order(encode_utf8(a), encode_utf8(b))
}

/// Texts with the same UTF-8 bytes are the same text.
pub proof fn lemma_utf8_injective(a: Seq<char>, b: Seq<char>)
    requires
        encode_utf8(a) == encode_utf8(b),
    ensures
        a == b,
{
    encode_utf8_decode_utf8(a);
    encode_utf8_decode_utf8(b);
}

/// Two texts are in the order `Equal` exactly when they are the same text.
pub proof fn lemma_text_order_equal(a: Seq<char>, b: Seq<char>)
    ensures
        text_order(a, b) == KeyOrder::Equal <==> a == b,
{
    lemma_bytes_less_asymmetric(encode_utf8(a), encode_utf8(b));
    if encode_utf8(a) == encode_utf8(b) {
        lemma_utf8_injective(a, b);
    }
}

/// Compares two texts by their UTF-8 bytes.
pub fn compare_text(a: &str, b: &str) -> (order: KeyOrder)
    ensures
        order == text_order(a@, b@),
{
    compare_bytes(a.as_bytes(), b.as_bytes())
}

/// Whether the text `a` stands before the text `b`: as their UTF-8 bytes do.
pub open spec fn text_less(a: Seq<char>, b: Seq<char>) -> bool {
    bytes_less(encode_utf8(a), encode_utf8(b))
}

/// Of two texts exactly one holds: the first stands before the second, they
/// are the same text, or the second stands before the first.
pub proof fn lemma_text_less_trichotomy(a: Seq<char>, b: Seq<char>)
    ensures
        text_less(a, b) || a == b || text_less(b, a),
        !(text_less(a, b) && text_less(b, a)),
        a == b ==> !text_less(a, b),
{
    lemma_bytes_less_total(encode_utf8(a), encode_utf8(b));
    lemma_bytes_less_asymmetric(encode_utf8(a), encode_utf8(b));
    if encode_utf8(a) == encode_utf8(b) {
        lemma_utf8_injective(a, b);
    }
}

/// A text that stands before a text that stands before a third stands
/// before the third.
pub proof fn lemma_text_less_transitive(a: Seq<char>, b: Seq<char>, c: Seq<char>)
    requires
        text_less(a, b),
        text_less(b, c),
    ensures
        text_less(a, c),
{
    lemma_bytes_less_transitive(encode_utf8(a), encode_utf8(b), encode_utf8(c));
}

/// The texts of a sequence of strings.
pub open spec fn texts(strings: Seq<String>) -> Seq<Seq<char>> {
    Seq::new(strings.len(), |i: int| strings[i]@)
}

} // verus!
