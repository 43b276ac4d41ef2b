//! What holds of every report of a scan: it stands in the binary, it holds
//! no duplicates, and there is only one.

use crate::binary_scanner::{
    confirmed, first_found, first_found_at, is_match, is_range_scan_result, is_scan_result,
};
use crate::information_leak::confirmed_leak::{ConfirmedLeakView, SortedConfirmedLeak};
use crate::information_leak::leak_set::{
    has_key, is_merge, lemma_sorted_has_no_duplicates, strictly_sorted,
};
use crate::information_leak::potential_leak::PotentialLeak;
use crate::information_leak::sort_key::lemma_key_less_asymmetric;
use vstd::prelude::*;

verus! {

/// Every leak that a scan reports stands in the binary: at its offset the
/// binary holds, byte for byte, the pattern of a candidate with the data,
/// the kind and the source location of the leak.
pub proof fn lemma_reported_leak_occurs_in_binary<L: SortedConfirmedLeak>(
    binary: Seq<u8>,
    candidates: Seq<PotentialLeak>,
    binary_file: Seq<char>,
    leaks: Seq<ConfirmedLeakView>,
    i: int,
)
    requires
        binary.len() <= u64::MAX,
        is_scan_result::<L>(binary, candidates, binary_file, leaks),
        0 <= i < leaks.len(),
    ensures
        exists|j: int|
            {
                let offset = leaks[i].location.binary.offset as int;
                let candidate = (#[trigger] candidates[j])@;
                &&& 0 <= j < candidates.len()
                &&& candidate.data == leaks[i].data
                &&& candidate.data_type == leaks[i].data_type
                &&& candidate.declaration_metadata == leaks[i].location.source
                &&& offset + candidate.bytes.len() <= binary.len()
                &&& binary.subrange(offset, offset + candidate.bytes.len()) == candidate.bytes
            },
        leaks[i].location.binary.file == binary_file,
{
}

/// No two leaks that a scan reports have the same key: the report holds no
/// duplicate under the equality that `L` selects.
pub proof fn lemma_reported_leaks_are_unique<L: SortedConfirmedLeak>(
    binary: Seq<u8>,
    candidates: Seq<PotentialLeak>,
    binary_file: Seq<char>,
    leaks: Seq<ConfirmedLeakView>,
    i: int,
    j: int,
)
    requires
        is_scan_result::<L>(binary, candidates, binary_file, leaks),
        0 <= i < leaks.len(),
        0 <= j < leaks.len(),
        i != j,
    ensures
        L::sort_key(leaks[i]) != L::sort_key(leaks[j]),
{
    lemma_sorted_has_no_duplicates::<L>(leaks, i, j);
}

/// Two strictly sorted sequences with the same leaks are the same sequence.
proof fn lemma_sorted_with_same_leaks_are_equal<L: SortedConfirmedLeak>(
    a: Seq<ConfirmedLeakView>,
    b: Seq<ConfirmedLeakView>,
)
    requires
        strictly_sorted::<L>(a),
        strictly_sorted::<L>(b),
        forall|i: int| 0 <= i < a.len() ==> b.contains(#[trigger] a[i]),
        forall|k: int| 0 <= k < b.len() ==> a.contains(#[trigger] b[k]),
    ensures
        a == b,
    decreases a.len(),
{
    if a.len() > 0 {
        // The last leak of each sequence has the greatest key, and is a leak of
        // the other: the two are the same leak
        let x = a.last();
        let y = b.last();
        lemma_key_less_asymmetric(L::sort_key(x), L::sort_key(y));
        let shorter_a = a.drop_last();
        let shorter_b = b.drop_last();
        assert forall|i: int| 0 <= i < shorter_a.len() implies shorter_b.contains(
            #[trigger] shorter_a[i],
        ) by {
            let m = choose|m: int| 0 <= m < b.len() && b[m] == a[i];
            lemma_key_less_asymmetric(L::sort_key(a[i]), L::sort_key(a[a.len() - 1]));
            assert(shorter_b[m] == a[i]);
        }
        assert forall|m: int| 0 <= m < shorter_b.len() implies shorter_a.contains(
            #[trigger] shorter_b[m],
        ) by {
            let i = choose|i: int| 0 <= i < a.len() && a[i] == b[m];
            lemma_key_less_asymmetric(L::sort_key(b[m]), L::sort_key(b[b.len() - 1]));
            assert(shorter_a[i] == b[m]);
        }
        lemma_sorted_with_same_leaks_are_equal::<L>(shorter_a, shorter_b);
        assert(a =~= shorter_a.push(x));
    }
}

/// A scan of a range of offsets has one report: what is said of the report
/// is met by a single sequence of leaks.
pub proof fn lemma_range_scan_result_is_unique<L: SortedConfirmedLeak>(
    binary: Seq<u8>,
    candidates: Seq<PotentialLeak>,
    binary_file: Seq<char>,
    a: Seq<ConfirmedLeakView>,
    b: Seq<ConfirmedLeakView>,
    start: int,
    end: int,
)
    requires
        is_range_scan_result::<L>(binary, candidates, binary_file, a, start, end),
        is_range_scan_result::<L>(binary, candidates, binary_file, b, start, end),
    ensures
        a == b,
{
    lemma_sorted_with_same_leaks_are_equal::<L>(a, b);
}

/// A scan has one report: what is said of the report of a scan is met by a
/// single sequence of leaks.
pub proof fn lemma_scan_result_is_unique<L: SortedConfirmedLeak>(
    binary: Seq<u8>,
    candidates: Seq<PotentialLeak>,
    binary_file: Seq<char>,
    a: Seq<ConfirmedLeakView>,
    b: Seq<ConfirmedLeakView>,
)
    requires
        is_scan_result::<L>(binary, candidates, binary_file, a),
        is_scan_result::<L>(binary, candidates, binary_file, b),
    ensures
        a == b,
{
    lemma_range_scan_result_is_unique::<L>(
        binary,
        candidates,
        binary_file,
        a,
        b,
        0,
        binary.len() as int,
    );
}

/// The scans of two ranges of offsets that follow each other make up the
/// scan of the whole range: where the report of the second is added to the
/// report of the first, the report of the whole range comes out.
pub proof fn lemma_adjacent_scans_merge<L: SortedConfirmedLeak>(
    binary: Seq<u8>,
    candidates: Seq<PotentialLeak>,
    binary_file: Seq<char>,
    first: Seq<ConfirmedLeakView>,
    second: Seq<ConfirmedLeakView>,
    merged: Seq<ConfirmedLeakView>,
    start: int,
    mid: int,
    end: int,
)
    requires
        start <= mid <= end,
        is_range_scan_result::<L>(binary, candidates, binary_file, first, start, mid),
        is_range_scan_result::<L>(binary, candidates, binary_file, second, mid, end),
        is_merge::<L>(first, second, merged),
    ensures
        is_range_scan_result::<L>(binary, candidates, binary_file, merged, start, end),
{
    assert forall|m: int| 0 <= m < merged.len() implies first_found::<L>(
        binary,
        candidates,
        binary_file,
        #[trigger] merged[m],
        start,
        end,
    ) by {
        let leak = merged[m];
        if !first.contains(leak) {
            // No leak of the first range has the key: the leak is the first of
            // the second range and so of both
            let (offset, j) = choose|offset: int, j: int|
                #[trigger] first_found_at::<L>(binary, candidates, binary_file, leak, mid, offset, j)
                    && offset < end;
            assert(first_found_at::<L>(binary, candidates, binary_file, leak, start, offset, j)
                && offset < end);
        }
    }
}

/// The scan of a range without offsets reports nothing.
pub proof fn lemma_empty_range_scan<L: SortedConfirmedLeak>(
    binary: Seq<u8>,
    candidates: Seq<PotentialLeak>,
    binary_file: Seq<char>,
    start: int,
    end: int,
)
    requires
        end <= start,
    ensures
        is_range_scan_result::<L>(
            binary,
            candidates,
            binary_file,
            Seq::<ConfirmedLeakView>::empty(),
            start,
            end,
        ),
{
}

/// Every place where the pattern of a candidate stands in the binary is
/// reported, by the leak of that candidate there or by an earlier one with the
/// same key.
pub proof fn lemma_every_match_is_reported<L: SortedConfirmedLeak>(
    binary: Seq<u8>,
    candidates: Seq<PotentialLeak>,
    binary_file: Seq<char>,
    leaks: Seq<ConfirmedLeakView>,
    offset: int,
    j: int,
)
    requires
        is_scan_result::<L>(binary, candidates, binary_file, leaks),
        is_match(binary, candidates, offset, j),
    ensures
        has_key::<L>(leaks, L::sort_key(confirmed(candidates[j]@, binary_file, offset))),
{
}

} // verus!
