//! An ordered set of confirmed leaks without duplicates.

use super::confirmed_leak::{
    lemma_location_key_equal, lemma_value_key_equal, ConfirmedLeakView,
    ConfirmedLeakWithUniqueLocation, ConfirmedLeakWithUniqueValue, SortedConfirmedLeak,
};
use super::sort_key::{
    key_less, lemma_key_less_asymmetric, lemma_key_less_total, lemma_key_less_transitive, SortKey,
};
use crate::byte_order::KeyOrder;
use vstd::prelude::*;

verus! {

/// Whether the keys of `leaks` strictly increase: the leaks are sorted, and
/// no two of them have the same key.
pub open spec fn strictly_sorted<L: SortedConfirmedLeak>(leaks: Seq<ConfirmedLeakView>) -> bool {
    forall|i: int, j: int|
        0 <= i < j < leaks.len() ==> key_less(
            L::sort_key(#[trigger] leaks[i]),
            L::sort_key(#[trigger] leaks[j]),
        )
}

/// Whether one of `leaks` has the key `key`.
pub open spec fn has_key<L: SortedConfirmedLeak>(
    leaks: Seq<ConfirmedLeakView>,
    key: SortKey,
) -> bool {
    exists|i: int| 0 <= i < leaks.len() && L::sort_key(#[trigger] leaks[i]) == key
}

/// Whether `merged` is what comes of adding the leaks of `second` to the set
/// `first`: it is sorted without duplicates, and it holds the leaks of
/// `first` and those of `second` whose key no leak of `first` has, and no
/// others.
pub open spec fn is_merge<L: SortedConfirmedLeak>(
    first: Seq<ConfirmedLeakView>,
    second: Seq<ConfirmedLeakView>,
    merged: Seq<ConfirmedLeakView>,
) -> bool {
    &&& strictly_sorted::<L>(merged)
    &&& forall|i: int| 0 <= i < first.len() ==> merged.contains(#[trigger] first[i])
    &&& forall|k: int|
        0 <= k < second.len() ==> has_key::<L>(first, L::sort_key(#[trigger] second[k]))
            || merged.contains(second[k])
    &&& forall|m: int|
        0 <= m < merged.len() ==> first.contains(#[trigger] merged[m]) || (second.contains(
            merged[m],
        ) && !has_key::<L>(first, L::sort_key(merged[m])))
}

/// The leaks of a vector as plain values.
pub open spec fn leak_views<L: SortedConfirmedLeak>(leaks: Seq<L>) -> Seq<ConfirmedLeakView> {
    Seq::new(leaks.len(), |i: int| leaks[i]@)
}

/// A set of confirmed leaks, sorted by the key of `L`. Of the leaks with one
/// key that were inserted, the set holds the one that came first.
pub struct ConfirmedLeakSet<L: SortedConfirmedLeak> {
    leaks: Vec<L>,
}

impl<L: SortedConfirmedLeak> View for ConfirmedLeakSet<L> {
    type V = Seq<ConfirmedLeakView>;

    closed spec fn view(&self) -> Seq<ConfirmedLeakView> {
        leak_views(self.leaks@)
    }
}

/// In a strictly sorted sequence no two leaks at different places have the
/// same key.
pub proof fn lemma_sorted_has_no_duplicates<L: SortedConfirmedLeak>(
    leaks: Seq<ConfirmedLeakView>,
    i: int,
    j: int,
)
    requires
        strictly_sorted::<L>(leaks),
        0 <= i < leaks.len(),
        0 <= j < leaks.len(),
        i != j,
    ensures
        L::sort_key(leaks[i]) != L::sort_key(leaks[j]),
{
    lemma_key_less_asymmetric(L::sort_key(leaks[i]), L::sort_key(leaks[j]));
    lemma_key_less_asymmetric(L::sort_key(leaks[j]), L::sort_key(leaks[i]));
}

/// A sorted sequence of leaks that are told apart by location holds no two
/// leaks with the same source and binary locations.
pub proof fn lemma_unique_locations(leaks: Seq<ConfirmedLeakView>, i: int, j: int)
    requires
        strictly_sorted::<ConfirmedLeakWithUniqueLocation>(leaks),
        0 <= i < leaks.len(),
        0 <= j < leaks.len(),
        i != j,
    ensures
        leaks[i].location != leaks[j].location,
{
    lemma_sorted_has_no_duplicates::<ConfirmedLeakWithUniqueLocation>(leaks, i, j);
    lemma_location_key_equal(leaks[i], leaks[j]);
}

/// A sorted sequence of leaks that are told apart by value holds no two
/// leaks with the same data.
pub proof fn lemma_unique_values(leaks: Seq<ConfirmedLeakView>, i: int, j: int)
    requires
        strictly_sorted::<ConfirmedLeakWithUniqueValue>(leaks),
        0 <= i < leaks.len(),
        0 <= j < leaks.len(),
        i != j,
    ensures
        leaks[i].data != leaks[j].data,
{
    lemma_sorted_has_no_duplicates::<ConfirmedLeakWithUniqueValue>(leaks, i, j);
    lemma_value_key_equal(leaks[i], leaks[j]);
}

impl<L: SortedConfirmedLeak> ConfirmedLeakSet<L> {
    /// The leaks of a set are strictly sorted by key at all times.
    #[verifier::type_invariant]
    spec fn in_order(&self) -> bool {
        strictly_sorted::<L>(leak_views(self.leaks@))
    }

    /// A set without leaks.
    pub fn new() -> (set: Self)
        ensures
            set@ == Seq::<ConfirmedLeakView>::empty(),
    {
        let set = ConfirmedLeakSet { leaks: Vec::new() };
        set
    }

    /// The number of leaks in the set.
    pub fn len(&self) -> (n: usize)
        ensures
            n == self@.len(),
    {
        self.leaks.len()
    }

    /// Whether the set holds no leak.
    pub fn is_empty(&self) -> (empty: bool)
        ensures
            empty == (self@.len() == 0),
    {
        self.leaks.len() == 0
    }

    /// The leak at place `index` of the sorted set, where the set has as
    /// many leaks.
    pub fn get(&self, index: usize) -> (leak: Option<&L>)
        ensures
            match leak {
                Some(found) => index < self@.len() && found@ == self@[index as int],
                None => index >= self@.len(),
            },
    {
        if index < self.leaks.len() {
            Some(&self.leaks[index])
        } else {
            None
        }
    }

    /// The place of the first leak whose key does not stand before that of
    /// `leak`.
    fn lower_bound(&self, leak: &L) -> (pos: usize)
        ensures
            pos <= self@.len(),
            forall|i: int|
                0 <= i < pos ==> key_less(L::sort_key(#[trigger] self@[i]), L::sort_key(leak@)),
            forall|i: int|
                pos <= i < self@.len() ==> !key_less(
                    L::sort_key(#[trigger] self@[i]),
                    L::sort_key(leak@),
                ),
    {
        proof {
            use_type_invariant(self);
        }
        let mut low: usize = 0;
        let mut high: usize = self.leaks.len();
        while low < high
            invariant
                strictly_sorted::<L>(self@),
                low <= high <= self@.len(),
                self@.len() == self.leaks.len(),
                forall|i: int|
                    0 <= i < low ==> key_less(L::sort_key(#[trigger] self@[i]), L::sort_key(leak@)),
                forall|i: int|
                    high <= i < self@.len() ==> !key_less(
                        L::sort_key(#[trigger] self@[i]),
                        L::sort_key(leak@),
                    ),
            decreases high - low,
        {
            let mid = low + (high - low) / 2;
            let order = self.leaks[mid].compare(leak);
            match order {
                KeyOrder::Less => {
                    assert forall|i: int| 0 <= i < mid + 1 implies key_less(
                        L::sort_key(#[trigger] self@[i]),
                        L::sort_key(leak@),
                    ) by {
                        if i < mid {
                            lemma_key_less_transitive(
                                L::sort_key(self@[i]),
                                L::sort_key(self@[mid as int]),
                                L::sort_key(leak@),
                            );
                        }
                    }
                    low = mid + 1;
                },
                _ => {
                    assert forall|i: int| mid <= i < self@.len() implies !key_less(
                        L::sort_key(#[trigger] self@[i]),
                        L::sort_key(leak@),
                    ) by {
                        if mid < i && key_less(L::sort_key(self@[i]), L::sort_key(leak@)) {
                            lemma_key_less_transitive(
                                L::sort_key(self@[mid as int]),
                                L::sort_key(self@[i]),
                                L::sort_key(leak@),
                            );
                        }
                    }
                    high = mid;
                },
            }
        }
        low
    }

    /// Adds a leak to the set, unless the set already holds one with the same
    /// key: then the set stays as it is. Returns whether the leak was added.
    pub fn insert(&mut self, leak: L) -> (inserted: bool)
        ensures
            strictly_sorted::<L>(final(self)@),
            inserted == !has_key::<L>(old(self)@, L::sort_key(leak@)),
            inserted ==> exists|pos: int|
                0 <= pos <= old(self)@.len() && final(self)@ == #[trigger] old(self)@.insert(
                    pos,
                    leak@,
                ),
            !inserted ==> final(self)@ == old(self)@,
    {
        proof {
            use_type_invariant(&*self);
        }
        let pos = self.lower_bound(&leak);
        let ghost before = self@;
        let ghost key = L::sort_key(leak@);
        if pos < self.leaks.len() {
            let order = self.leaks[pos].compare(&leak);
            assert(self.leaks[pos as int]@ == before[pos as int]);
            if order == KeyOrder::Equal {
                return false;
            }
        }
        proof {
            assert forall|i: int| pos <= i < before.len() implies key_less(
                key,
                L::sort_key(#[trigger] before[i]),
            ) by {
                lemma_key_less_total(key, L::sort_key(before[i]));
            }
        }
        let mut leaks: Vec<L> = Vec::new();
        std::mem::swap(&mut self.leaks, &mut leaks);
        leaks.insert(pos, leak);
        proof {
            let after = leak_views(leaks@);
            assert(after =~= before.insert(pos as int, leak@));
        }
        self.leaks = leaks;
        true
    }

    /// Adds the leaks of `other` to the set. Where both sets hold a leak with
    /// one key, the leak of this set stays.
    pub fn extend(&mut self, other: Self)
        ensures
            is_merge::<L>(old(self)@, other@, final(self)@),
    {
        proof {
            use_type_invariant(&*self);
            use_type_invariant(&other);
        }
        let ghost first = self@;
        let ghost second = other@;
        let added = other.leaks;
        let ghost given = added@;
        for leak in it: added
            invariant
                it.seq() == given,
                second == leak_views(given),
                strictly_sorted::<L>(second),
                is_merge::<L>(first, second.take(it.index()), self@),
        {
            let ghost before = self@;
            let ghost done = second.take(it.index());
            let ghost next = second.take(it.index() + 1);
            let ghost view = leak@;
            let inserted = self.insert(leak);
            proof {
                let after = self@;
                assert(next[it.index()] == view);
                if inserted {
                    let pos = choose|pos: int|
                        0 <= pos <= before.len() && after == #[trigger] before.insert(pos, view);
                    assert(after[pos] == view);
                    assert forall|i: int| 0 <= i < first.len() implies after.contains(
                        #[trigger] first[i],
                    ) by {
                        let m = choose|m: int| 0 <= m < before.len() && before[m] == first[i];
                        if m < pos {
                            assert(after[m] == first[i]);
                        } else {
                            assert(after[m + 1] == first[i]);
                        }
                    }
                    assert forall|k: int| 0 <= k < next.len() implies has_key::<L>(
                        first,
                        L::sort_key(#[trigger] next[k]),
                    ) || after.contains(next[k]) by {
                        if k < it.index() {
                            if before.contains(next[k]) {
                                let m = choose|m: int|
                                    0 <= m < before.len() && before[m] == next[k];
                                if m < pos {
                                    assert(after[m] == next[k]);
                                } else {
                                    assert(after[m + 1] == next[k]);
                                }
                            }
                        }
                    }
                } else {
                    // The set holds a leak with the key: it is one of `first`, as
                    // no two leaks of `second` have the same key
                    let b = choose|b: int|
                        0 <= b < before.len() && L::sort_key(#[trigger] before[b]) == L::sort_key(
                            view,
                        );
                    if !first.contains(before[b]) {
                        let k = choose|k: int| 0 <= k < done.len() && done[k] == before[b];
                        lemma_sorted_has_no_duplicates::<L>(second, k, it.index());
                    }
                }
            }
        }
        assert(second.take(second.len() as int) =~= second);
    }

    /// Hands out the leaks of the set, in order: they are strictly sorted by
    /// key, so that no two of them have the same key.
    pub fn into_vec(self) -> (leaks: Vec<L>)
        ensures
            leak_views(leaks@) == self@,
            strictly_sorted::<L>(self@),
    {
        proof {
            use_type_invariant(&self);
        }
        self.leaks
    }
}

} // verus!
