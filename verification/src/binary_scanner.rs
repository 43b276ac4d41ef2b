//! The search of a binary for the byte patterns of potential leaks, with an
//! index of the patterns by their first byte.

use crate::information_leak::confirmed_leak::{
    ConfirmedLeak, ConfirmedLeakView, SortedConfirmedLeak,
};
use crate::information_leak::leak_location::{
    share, BinaryLocation, BinaryLocationView, LeakLocation, LeakLocationView,
};
use crate::information_leak::leak_set::{has_key, strictly_sorted, ConfirmedLeakSet};
use crate::information_leak::potential_leak::{PotentialLeak, PotentialLeakView};
use std::collections::HashMap;
use std::sync::Arc;
use vstd::prelude::*;

verus! {

broadcast use vstd::std_specs::hash::group_hash_axioms;

/// Whether the non-empty `pattern` stands in `binary` at `offset`.
pub open spec fn occurs_at(binary: Seq<u8>, offset: int, pattern: Seq<u8>) -> bool {
    &&& pattern.len() > 0
    &&& 0 <= offset
    &&& offset + pattern.len() <= binary.len()
    &&& binary.subrange(offset, offset + pattern.len()) == pattern
}

/// Whether the pattern of candidate `j` stands in `binary` at `offset`.
pub open spec fn is_match(
    binary: Seq<u8>,
    candidates: Seq<PotentialLeak>,
    offset: int,
    j: int,
) -> bool {
    0 <= j < candidates.len() && occurs_at(binary, offset, candidates[j]@.bytes)
}

/// The leak that is confirmed when `candidate` is found at `offset` of the
/// binary file `binary_file`.
pub open spec fn confirmed(
    candidate: PotentialLeakView,
    binary_file: Seq<char>,
    offset: int,
) -> ConfirmedLeakView {
    ConfirmedLeakView {
        data_type: candidate.data_type,
        data: candidate.data,
        location: LeakLocationView {
            source: candidate.declaration_metadata,
            binary: BinaryLocationView { file: binary_file, offset: offset as u64 },
        },
    }
}

/// The order of the scan: offset after offset, and at one offset candidate
/// after candidate.
pub open spec fn scanned_before(offset1: int, j1: int, offset2: int, j2: int) -> bool {
    offset1 < offset2 || (offset1 == offset2 && j1 < j2)
}

/// Whether `leak` is what a scan from `start` on confirms for candidate `j`
/// at `offset`, and no match that this scan meets earlier has the key of
/// `leak`.
pub open spec fn first_found_at<L: SortedConfirmedLeak>(
    binary: Seq<u8>,
    candidates: Seq<PotentialLeak>,
    binary_file: Seq<char>,
    leak: ConfirmedLeakView,
    start: int,
    offset: int,
    j: int,
) -> bool {
    &&& start <= offset
    &&& is_match(binary, candidates, offset, j)
    &&& leak == confirmed(candidates[j]@, binary_file, offset)
    &&& forall|offset2: int, j2: int|
        #[trigger] is_match(binary, candidates, offset2, j2) && start <= offset2 && scanned_before(
            offset2,
            j2,
            offset,
            j,
        ) ==> L::sort_key(confirmed(candidates[j2]@, binary_file, offset2)) != L::sort_key(leak)
}

/// Whether `leak` is the first that a scan of the offsets from `start` up to
/// `end` confirms with its key.
pub open spec fn first_found<L: SortedConfirmedLeak>(
    binary: Seq<u8>,
    candidates: Seq<PotentialLeak>,
    binary_file: Seq<char>,
    leak: ConfirmedLeakView,
    start: int,
    end: int,
) -> bool {
    exists|offset: int, j: int|
        #[trigger] first_found_at::<L>(binary, candidates, binary_file, leak, start, offset, j)
            && offset < end
}

/// Whether `leaks` holds a leak with the key of every match that a scan from
/// `start` on meets before it comes to candidate `j` at `offset`.
pub open spec fn covers_up_to<L: SortedConfirmedLeak>(
    binary: Seq<u8>,
    candidates: Seq<PotentialLeak>,
    binary_file: Seq<char>,
    leaks: Seq<ConfirmedLeakView>,
    start: int,
    offset: int,
    j: int,
) -> bool {
    forall|offset2: int, j2: int|
        #[trigger] is_match(binary, candidates, offset2, j2) && start <= offset2 && scanned_before(
            offset2,
            j2,
            offset,
            j,
        ) ==> has_key::<L>(leaks, L::sort_key(confirmed(candidates[j2]@, binary_file, offset2)))
}

/// Whether every one of `leaks` is the first that a scan of the offsets from
/// `start` up to `end` confirms with its key.
pub open spec fn all_first_found<L: SortedConfirmedLeak>(
    binary: Seq<u8>,
    candidates: Seq<PotentialLeak>,
    binary_file: Seq<char>,
    leaks: Seq<ConfirmedLeakView>,
    start: int,
    end: int,
) -> bool {
    forall|i: int|
        0 <= i < leaks.len() ==> first_found::<L>(
            binary,
            candidates,
            binary_file,
            #[trigger] leaks[i],
            start,
            end,
        )
}

/// Whether `leaks` is what a scan of the offsets from `start` up to `end`
/// reports: the leaks are sorted by key without duplicates, each of them is
/// the first match with its key in the order of the scan, and every match at
/// one of these offsets has its key among them.
pub open spec fn is_range_scan_result<L: SortedConfirmedLeak>(
    binary: Seq<u8>,
    candidates: Seq<PotentialLeak>,
    binary_file: Seq<char>,
    leaks: Seq<ConfirmedLeakView>,
    start: int,
    end: int,
) -> bool {
    &&& strictly_sorted::<L>(leaks)
    &&& all_first_found::<L>(binary, candidates, binary_file, leaks, start, end)
    &&& covers_up_to::<L>(binary, candidates, binary_file, leaks, start, end, 0)
}

/// Whether `leaks` is what a scan of the whole of `binary` for `candidates`
/// reports.
pub open spec fn is_scan_result<L: SortedConfirmedLeak>(
    binary: Seq<u8>,
    candidates: Seq<PotentialLeak>,
    binary_file: Seq<char>,
    leaks: Seq<ConfirmedLeakView>,
) -> bool {
    is_range_scan_result::<L>(binary, candidates, binary_file, leaks, 0, binary.len() as int)
}

/// Whether the pattern of `candidate` starts with `byte`.
pub open spec fn starts_with_byte(candidate: PotentialLeak, byte: u8) -> bool {
    candidate@.bytes.len() > 0 && candidate@.bytes[0] == byte
}

/// Whether `bucket` lists, in increasing order, exactly those of the first
/// `n` candidates whose pattern starts with `byte`.
pub open spec fn is_bucket(
    bucket: Seq<usize>,
    candidates: Seq<PotentialLeak>,
    byte: u8,
    n: int,
) -> bool {
    &&& forall|k: int|
        0 <= k < bucket.len() ==> (#[trigger] bucket[k]) < n && starts_with_byte(
            candidates[bucket[k] as int],
            byte,
        )
    &&& forall|k1: int, k2: int|
        0 <= k1 < k2 < bucket.len() ==> (#[trigger] bucket[k1]) < (#[trigger] bucket[k2])
    &&& forall|j: int|
        0 <= j < n && #[trigger] starts_with_byte(candidates[j], byte) ==> exists|k: int|
            0 <= k < bucket.len() && #[trigger] bucket[k] == j
}

/// The candidate up to which a scan has come at one offset when it stands
/// before place `k` of that offset's bucket.
pub open spec fn bucket_bound(bucket: Seq<usize>, k: int, n: int) -> int {
    if 0 <= k < bucket.len() {
        bucket[k] as int
    } else {
        n
    }
}

/// Between two neighbours of a bucket, before its first and behind its last
/// entry, no candidate matches at an offset where the bucket's byte stands.
proof fn lemma_no_match_outside_bucket(
    binary: Seq<u8>,
    candidates: Seq<PotentialLeak>,
    bucket: Seq<usize>,
    offset: int,
    k: int,
)
    requires
        0 <= offset < binary.len(),
        is_bucket(bucket, candidates, binary[offset], candidates.len() as int),
        0 <= k <= bucket.len(),
    ensures
        forall|j: int|
            (if k == 0 {
                0
            } else {
                bucket[k - 1] + 1
            }) <= j < bucket_bound(bucket, k, candidates.len() as int) ==> !#[trigger] is_match(
                binary,
                candidates,
                offset,
                j,
            ),
{
    let low = if k == 0 {
        0
    } else {
        bucket[k - 1] + 1
    };
    let high = bucket_bound(bucket, k, candidates.len() as int);
    assert forall|j: int| low <= j < high implies !#[trigger] is_match(
        binary,
        candidates,
        offset,
        j,
    ) by {
        if is_match(binary, candidates, offset, j) {
            // The candidate starts with the byte at the offset: the bucket lists
            // it, at a place that is neither before `k` nor from `k` on
            assert(starts_with_byte(candidates[j], binary[offset]));
        }
    }
}

/// A key that a sequence of leaks holds is still held after another leak is
/// put in.
proof fn lemma_has_key_after_insert<L: SortedConfirmedLeak>(
    leaks: Seq<ConfirmedLeakView>,
    pos: int,
    leak: ConfirmedLeakView,
)
    requires
        0 <= pos <= leaks.len(),
    ensures
        has_key::<L>(leaks.insert(pos, leak), L::sort_key(leak)),
        forall|key| has_key::<L>(leaks, key) ==> has_key::<L>(leaks.insert(pos, leak), key),
{
    let after = leaks.insert(pos, leak);
    assert(after[pos] == leak);
    assert forall|key| has_key::<L>(leaks, key) implies has_key::<L>(after, key) by {
        let i = choose|i: int| 0 <= i < leaks.len() && L::sort_key(#[trigger] leaks[i]) == key;
        if i < pos {
            assert(after[i] == leaks[i]);
        } else {
            assert(after[i + 1] == leaks[i]);
        }
    }
}

/// The places of the candidates that `buckets` lists under `byte`.
pub open spec fn bucket_in(buckets: Map<u8, Vec<usize>>, byte: u8) -> Seq<usize> {
    if buckets.contains_key(byte) {
        buckets[byte]@
    } else {
        Seq::empty()
    }
}

/// Whether `buckets` lists the first `n` of `candidates`: under each byte, in
/// increasing order, those whose pattern starts with it.
pub open spec fn lists(
    buckets: Map<u8, Vec<usize>>,
    candidates: Seq<PotentialLeak>,
    n: int,
) -> bool {
    forall|byte: u8| is_bucket(#[trigger] bucket_in(buckets, byte), candidates, byte, n)
}

/// The candidates of a scan, listed by the first byte of their pattern.
pub struct FirstByteIndex {
    candidates: Vec<PotentialLeak>,
    buckets: HashMap<u8, Vec<usize>>,
}

impl FirstByteIndex {
    /// The index lists all its candidates at all times.
    #[verifier::type_invariant]
    spec fn lists_all(&self) -> bool {
        lists(self.buckets@, self.candidates@, self.candidates@.len() as int)
    }

    /// The candidates that the index was built for.
    pub closed spec fn candidates(&self) -> Seq<PotentialLeak> {
        self.candidates@
    }

    /// The places, in the list of candidates, of those listed under `byte`.
    pub closed spec fn bucket(&self, byte: u8) -> Seq<usize> {
        bucket_in(self.buckets@, byte)
    }

    /// Builds the index of `candidates`: under each byte it lists, in their
    /// order, the candidates whose pattern starts with that byte. A candidate
    /// with an empty pattern is listed nowhere.
    pub fn build(candidates: Vec<PotentialLeak>) -> (index: Self)
        ensures
            index.candidates() == candidates@,
            forall|byte: u8|
                is_bucket(
                    #[trigger] index.bucket(byte),
                    candidates@,
                    byte,
                    candidates@.len() as int,
                ),
    {
        let mut buckets: HashMap<u8, Vec<usize>> = HashMap::new();
        let mut j: usize = 0;
        while j < candidates.len()
            invariant
                j <= candidates.len(),
                lists(buckets@, candidates@, j as int),
            decreases candidates.len() - j,
        {
            let ghost before = buckets@;
            if candidates[j].bytes.len() > 0 {
                let key: u8 = candidates[j].bytes[0];
                let mut bucket = match buckets.remove(&key) {
                    Some(bucket) => bucket,
                    None => Vec::new(),
                };
                bucket.push(j);
                buckets.insert(key, bucket);
                proof {
                    assert forall|byte: u8| is_bucket(
                        #[trigger] bucket_in(buckets@, byte),
                        candidates@,
                        byte,
                        j + 1,
                    ) by {
                        let old_bucket = bucket_in(before, byte);
                        let new_bucket = bucket_in(buckets@, byte);
                        if byte == key {
                            assert forall|i: int|
                                0 <= i < j + 1 && #[trigger] starts_with_byte(
                                    candidates@[i],
                                    byte,
                                ) implies exists|k: int|
                                0 <= k < new_bucket.len() && #[trigger] new_bucket[k] == i by {
                                if i < j {
                                    let k = choose|k: int|
                                        0 <= k < old_bucket.len() && #[trigger] old_bucket[k] == i;
                                    assert(new_bucket[k] == i);
                                } else {
                                    assert(new_bucket[old_bucket.len() as int] == i);
                                }
                            }
                        }
                    }
                }
            }
            j += 1;
        }
        FirstByteIndex { candidates, buckets }
    }

    /// The candidates that the index was built for.
    pub fn potential_leaks(&self) -> (leaks: &Vec<PotentialLeak>)
        ensures
            leaks@ == self.candidates(),
    {
        &self.candidates
    }

    /// The candidates listed under `byte`, where there are any: the places,
    /// in increasing order, of those whose pattern starts with `byte`.
    pub fn candidates_starting_with(&self, byte: u8) -> (bucket: Option<&Vec<usize>>)
        ensures
            is_bucket(self.bucket(byte), self.candidates(), byte, self.candidates().len() as int),
            match bucket {
                Some(listed) => listed@ == self.bucket(byte),
                None => self.bucket(byte).len() == 0,
            },
    {
        proof {
            use_type_invariant(self);
        }
        self.buckets.get(&byte)
    }

    /// Goes through the bytes of the binary from offset `start` up to offset
    /// `end`, and confirms every candidate whose pattern stands at one of
    /// them. The leaks are told apart and sorted as `L` says; of several with
    /// one key, the first that the scan meets is kept.
    pub fn scan_range<L: SortedConfirmedLeak>(
        &self,
        binary_file_path: &Arc<String>,
        bin_data: &[u8],
        start: usize,
        end: usize,
    ) -> (confirmed_leaks: ConfirmedLeakSet<L>)
        ensures
            is_range_scan_result::<L>(
                bin_data@,
                self.candidates(),
                binary_file_path@,
                confirmed_leaks@,
                start as int,
                end as int,
            ),
    {
        let mut confirmed_leaks: ConfirmedLeakSet<L> = ConfirmedLeakSet::new();
        let ghost binary = bin_data@;
        let ghost candidates = self.candidates();
        let ghost file = binary_file_path@;
        let ghost n = self.candidates().len() as int;
        let ghost from = start as int;
        let ghost to = end as int;

        let mut i: usize = start;
        while i < end && i < bin_data.len()
            invariant
                start <= i,
                binary == bin_data@,
                candidates == self.candidates(),
                file == binary_file_path@,
                n == self.candidates().len(),
                from == start,
                to == end,
                strictly_sorted::<L>(confirmed_leaks@),
                all_first_found::<L>(binary, candidates, file, confirmed_leaks@, from, to),
                covers_up_to::<L>(binary, candidates, file, confirmed_leaks@, from, i as int, 0),
            decreases bin_data.len() - i,
        {
            let byte_value = bin_data[i];
            match self.candidates_starting_with(byte_value) {
                Some(potential_leaks) => {
                    let ghost bucket = potential_leaks@;
                    proof {
                        lemma_no_match_outside_bucket(binary, candidates, bucket, i as int, 0);
                    }
                    // Go through each candidate
                    let mut k: usize = 0;
                    while k < potential_leaks.len()
                        invariant
                            start <= i < end,
                            i < bin_data@.len(),
                            k <= potential_leaks@.len(),
                            binary == bin_data@,
                            candidates == self.candidates(),
                            file == binary_file_path@,
                            n == self.candidates().len(),
                            from == start,
                            to == end,
                            bucket == potential_leaks@,
                            is_bucket(bucket, candidates, binary[i as int], n),
                            strictly_sorted::<L>(confirmed_leaks@),
                            all_first_found::<L>(
                                binary,
                                candidates,
                                file,
                                confirmed_leaks@,
                                from,
                                to,
                            ),
                            covers_up_to::<L>(
                                binary,
                                candidates,
                                file,
                                confirmed_leaks@,
                                from,
                                i as int,
                                bucket_bound(bucket, k as int, n),
                            ),
                        decreases potential_leaks.len() - k,
                    {
                        let j = potential_leaks[k];
                        let leak = &self.potential_leaks()[j];
                        let ghost before = confirmed_leaks@;
                        if pattern_occurs_at(bin_data, i, &leak.bytes) {
                            // Bytes match, the leak is confirmed
                            let confirmed_leak = ConfirmedLeak {
                                data_type: leak.data_type,
                                data: share(&leak.data),
                                location: LeakLocation {
                                    source: share(&leak.declaration_metadata),
                                    binary: BinaryLocation {
                                        file: share(binary_file_path),
                                        offset: i as u64,
                                    },
                                },
                            };
                            let ghost found = confirmed(candidates[j as int]@, file, i as int);
                            let inserted = confirmed_leaks.insert(L::from_leak(confirmed_leak));
                            proof {
                                let after = confirmed_leaks@;
                                if inserted {
                                    let pos = choose|pos: int|
                                        0 <= pos <= before.len() && after
                                            == #[trigger] before.insert(pos, found);
                                    lemma_has_key_after_insert::<L>(before, pos, found);
                                    assert(first_found_at::<L>(
                                        binary,
                                        candidates,
                                        file,
                                        found,
                                        from,
                                        i as int,
                                        j as int,
                                    ));
                                }
                            }
                        }
                        proof {
                            lemma_no_match_outside_bucket(
                                binary,
                                candidates,
                                bucket,
                                i as int,
                                k + 1,
                            );
                        }
                        k += 1;
                    }
                },
                None => {
                    proof {
                        lemma_no_match_outside_bucket(
                            binary,
                            candidates,
                            self.bucket(byte_value),
                            i as int,
                            0,
                        );
                    }
                },
            }
            i += 1;
        }
        confirmed_leaks
    }
}

/// Whether `pattern` stands in `binary` at `offset`, byte for byte. An empty
/// pattern stands nowhere.
pub fn pattern_occurs_at(binary: &[u8], offset: usize, pattern: &Vec<u8>) -> (found: bool)
    ensures
        found == occurs_at(binary@, offset as int, pattern@),
{
    // Check bounds
    if pattern.len() == 0 || offset > binary.len() || pattern.len() > binary.len() - offset {
        return false;
    }
    let ghost window = binary@.subrange(offset as int, offset + pattern@.len());
    let mut i: usize = 0;
    while i < pattern.len()
        invariant
            i <= pattern@.len(),
            offset + pattern@.len() <= binary@.len() <= usize::MAX,
            window == binary@.subrange(offset as int, offset + pattern@.len()),
            forall|k: int| 0 <= k < i ==> window[k] == pattern@[k],
        decreases pattern.len() - i,
    {
        if binary[offset + i] != pattern[i] {
            return false;
        }
        i += 1;
    }
    assert(window =~= pattern@);
    true
}

/// Goes through the binary byte by byte and confirms every potential leak
/// whose pattern stands there. The leaks are told apart and sorted as `L`
/// says; of several with one key, the first that the scan meets is kept.
pub fn find_leaks_in_binary_file<L: SortedConfirmedLeak>(
    binary_file_path: &str,
    bin_data: &[u8],
    leak_desc: Vec<PotentialLeak>,
) -> (confirmed_leaks: ConfirmedLeakSet<L>)
    ensures
        is_scan_result::<L>(bin_data@, leak_desc@, binary_file_path@, confirmed_leaks@),
{
    // Build a map that allows to lookup "leaks' first byte -> leaks"
    let byte_to_leaks = FirstByteIndex::build(leak_desc);

    // Go through the binary file byte by byte and try to match leaks that start
    // with each byte
    let shared_binary_file_path = Arc::new(binary_file_path.to_owned());
    byte_to_leaks.scan_range(&shared_binary_file_path, bin_data, 0, bin_data.len())
}

} // verus!
