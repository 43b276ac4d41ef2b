//! Data that was found in a binary file, and the two ways to tell such
//! findings apart: by where they are, or by what they are.

use super::leak_location::{LeakLocation, LeakLocationView};
use super::sort_key::{key_order, SortKey};
use super::LeakedDataType;
use crate::byte_order::{
    compare_text, lemma_bytes_less_asymmetric, lemma_utf8_injective, KeyOrder,
};
use std::cmp::Ordering;
use std::ops::Deref;
use std::sync::Arc;
use vstd::prelude::*;
use vstd::utf8::encode_utf8;

verus! {

/// Struct containing information on a piece of data that has leaked into a
/// binary file.
#[derive(Debug)]
pub struct ConfirmedLeak {
    /// Type of data leaked
    pub data_type: LeakedDataType,
    /// Leaked data, as represented in the source code
    pub data: Arc<String>,
    /// Information on where the leaked data is declared in the source code as
    /// well as found in in the target binary
    pub location: LeakLocation,
}

/// A confirmed leak as plain values.
pub struct ConfirmedLeakView {
    pub data_type: LeakedDataType,
    pub data: Seq<char>,
    pub location: LeakLocationView,
}

impl View for ConfirmedLeak {
    type V = ConfirmedLeakView;

    open spec fn view(&self) -> ConfirmedLeakView {
        ConfirmedLeakView {
            data_type: self.data_type,
            data: self.data@,
            location: self.location@,
        }
    }
}

/// The key of a leak that is told apart by its location: the source file,
/// the line, the binary file and the offset.
pub open spec fn location_key(leak: ConfirmedLeakView) -> SortKey {
    SortKey {
        text: encode_utf8(leak.location.source.file),
        line: leak.location.source.line as int,
        path: encode_utf8(leak.location.binary.file),
        offset: leak.location.binary.offset as int,
    }
}

/// The key of a leak that is told apart by its value: the leaked data.
pub open spec fn value_key(leak: ConfirmedLeakView) -> SortKey {
    SortKey { text: encode_utf8(leak.data), line: 0, path: Seq::empty(), offset: 0 }
}

/// Two leaks have the same location key exactly when they have the same
/// source and binary locations.
pub proof fn lemma_location_key_equal(a: ConfirmedLeakView, b: ConfirmedLeakView)
    ensures
        location_key(a) == location_key(b) <==> a.location == b.location,
{
    if location_key(a) == location_key(b) {
        lemma_utf8_injective(a.location.source.file, b.location.source.file);
        lemma_utf8_injective(a.location.binary.file, b.location.binary.file);
    }
}

/// Two leaks have the same value key exactly when their data is the same
/// text.
pub proof fn lemma_value_key_equal(a: ConfirmedLeakView, b: ConfirmedLeakView)
    ensures
        value_key(a) == value_key(b) <==> a.data == b.data,
{
    if value_key(a) == value_key(b) {
        lemma_utf8_injective(a.data, b.data);
    }
}

/// A confirmed leak together with the way it is sorted and told apart from
/// others in a set of leaks.
pub trait SortedConfirmedLeak: Sized + View<V = ConfirmedLeakView> {
    /// The key by which leaks of this kind are sorted. Two of them are the
    /// same finding where their keys are equal.
    spec fn sort_key(leak: ConfirmedLeakView) -> SortKey;

    /// Wraps a confirmed leak.
    fn from_leak(leak: ConfirmedLeak) -> (sorted: Self)
        ensures
            sorted@ == leak@,
    ;

    /// Hands the confirmed leak out.
    fn into_leak(self) -> (leak: ConfirmedLeak)
        ensures
            leak@ == self@,
    ;

    /// The confirmed leak inside.
    fn leak(&self) -> (leak: &ConfirmedLeak)
        ensures
            leak@ == self@,
    ;

    /// How this leak stands to another by their keys.
    fn compare(&self, other: &Self) -> (order: KeyOrder)
        ensures
            order == key_order(Self::sort_key(self@), Self::sort_key(other@)),
    ;
}

/// Compares two leaks by source file, line, binary file and offset.
pub fn compare_by_location(a: &ConfirmedLeak, b: &ConfirmedLeak) -> (order: KeyOrder)
    ensures
        order == key_order(location_key(a@), location_key(b@)),
{
    proof {
        lemma_bytes_less_asymmetric(
            encode_utf8(a@.location.source.file),
            encode_utf8(b@.location.source.file),
        );
        lemma_bytes_less_asymmetric(
            encode_utf8(a@.location.binary.file),
            encode_utf8(b@.location.binary.file),
        );
    }
    let source_a = &a.location.source;
    let source_b = &b.location.source;
    match compare_text(source_a.file.as_str(), source_b.file.as_str()) {
        KeyOrder::Less => KeyOrder::Less,
        KeyOrder::Greater => KeyOrder::Greater,
        KeyOrder::Equal => {
            if source_a.line < source_b.line {
                KeyOrder::Less
            } else if source_a.line > source_b.line {
                KeyOrder::Greater
            } else {
                match compare_text(a.location.binary.file.as_str(), b.location.binary.file.as_str()) {
                    KeyOrder::Less => KeyOrder::Less,
                    KeyOrder::Greater => KeyOrder::Greater,
                    KeyOrder::Equal => {
                        if a.location.binary.offset < b.location.binary.offset {
                            KeyOrder::Less
                        } else if a.location.binary.offset > b.location.binary.offset {
                            KeyOrder::Greater
                        } else {
                            KeyOrder::Equal
                        }
                    },
                }
            }
        },
    }
}

/// Compares two leaks by their data.
pub fn compare_by_value(a: &ConfirmedLeak, b: &ConfirmedLeak) -> (order: KeyOrder)
    ensures
        order == key_order(value_key(a@), value_key(b@)),
{
    proof {
        lemma_bytes_less_asymmetric(encode_utf8(a@.data), encode_utf8(b@.data));
        lemma_bytes_less_asymmetric(Seq::<u8>::empty(), Seq::<u8>::empty());
    }
    compare_text(a.data.as_str(), b.data.as_str())
}

/// Wrapper struct used to deduplicate `ConfirmedLeak`s in sets of leaks based
/// on the value of the `location` field.
#[derive(Debug)]
pub struct ConfirmedLeakWithUniqueLocation(ConfirmedLeak);

/// Wrapper struct used to deduplicate `ConfirmedLeak`s in sets of leaks based
/// on the value of the `data` field.
#[derive(Debug)]
pub struct ConfirmedLeakWithUniqueValue(ConfirmedLeak);

impl View for ConfirmedLeakWithUniqueLocation {
    type V = ConfirmedLeakView;

    closed spec fn view(&self) -> ConfirmedLeakView {
        self.0@
    }
}

impl View for ConfirmedLeakWithUniqueValue {
    type V = ConfirmedLeakView;

    closed spec fn view(&self) -> ConfirmedLeakView {
        self.0@
    }
}

impl SortedConfirmedLeak for ConfirmedLeakWithUniqueLocation {
    open spec fn sort_key(leak: ConfirmedLeakView) -> SortKey {
        location_key(leak)
    }

    fn from_leak(leak: ConfirmedLeak) -> (sorted: Self) {
        ConfirmedLeakWithUniqueLocation(leak)
    }

    fn into_leak(self) -> (leak: ConfirmedLeak) {
        self.0
    }

    fn leak(&self) -> (leak: &ConfirmedLeak) {
        &self.0
    }

    fn compare(&self, other: &Self) -> (order: KeyOrder) {
        compare_by_location(&self.0, &other.0)
    }
}

impl SortedConfirmedLeak for ConfirmedLeakWithUniqueValue {
    open spec fn sort_key(leak: ConfirmedLeakView) -> SortKey {
        value_key(leak)
    }

    fn from_leak(leak: ConfirmedLeak) -> (sorted: Self) {
        ConfirmedLeakWithUniqueValue(leak)
    }

    fn into_leak(self) -> (leak: ConfirmedLeak) {
        self.0
    }

    fn leak(&self) -> (leak: &ConfirmedLeak) {
        &self.0
    }

    fn compare(&self, other: &Self) -> (order: KeyOrder) {
        compare_by_value(&self.0, &other.0)
    }
}

/// The order of the standard library that stands for an order of keys.
fn to_std_order(order: KeyOrder) -> (r: Ordering)
    ensures
        r == std_order(order),
{
    match order {
        KeyOrder::Less => Ordering::Less,
        KeyOrder::Equal => Ordering::Equal,
        KeyOrder::Greater => Ordering::Greater,
    }
}

/// The order of the standard library that stands for an order of keys.
pub open spec fn std_order(order: KeyOrder) -> Ordering {
    match order {
        KeyOrder::Less => Ordering::Less,
        KeyOrder::Equal => Ordering::Equal,
        KeyOrder::Greater => Ordering::Greater,
    }
}

impl From<ConfirmedLeakWithUniqueLocation> for ConfirmedLeak {
    fn from(leak: ConfirmedLeakWithUniqueLocation) -> (r: Self) {
        leak.0
    }
}

impl vstd::std_specs::convert::FromSpecImpl<ConfirmedLeakWithUniqueLocation> for ConfirmedLeak {
    open spec fn obeys_from_spec() -> bool {
        true
    }

    closed spec fn from_spec(leak: ConfirmedLeakWithUniqueLocation) -> Self {
        leak.0
    }
}

impl From<ConfirmedLeakWithUniqueValue> for ConfirmedLeak {
    fn from(leak: ConfirmedLeakWithUniqueValue) -> (r: Self) {
        leak.0
    }
}

impl vstd::std_specs::convert::FromSpecImpl<ConfirmedLeakWithUniqueValue> for ConfirmedLeak {
    open spec fn obeys_from_spec() -> bool {
        true
    }

    closed spec fn from_spec(leak: ConfirmedLeakWithUniqueValue) -> Self {
        leak.0
    }
}

impl From<ConfirmedLeak> for ConfirmedLeakWithUniqueLocation {
    fn from(leak: ConfirmedLeak) -> (r: Self) {
        ConfirmedLeakWithUniqueLocation(leak)
    }
}

impl vstd::std_specs::convert::FromSpecImpl<ConfirmedLeak> for ConfirmedLeakWithUniqueLocation {
    open spec fn obeys_from_spec() -> bool {
        true
    }

    closed spec fn from_spec(leak: ConfirmedLeak) -> Self {
        ConfirmedLeakWithUniqueLocation(leak)
    }
}

impl From<ConfirmedLeak> for ConfirmedLeakWithUniqueValue {
    fn from(leak: ConfirmedLeak) -> (r: Self) {
        ConfirmedLeakWithUniqueValue(leak)
    }
}

impl vstd::std_specs::convert::FromSpecImpl<ConfirmedLeak> for ConfirmedLeakWithUniqueValue {
    open spec fn obeys_from_spec() -> bool {
        true
    }

    closed spec fn from_spec(leak: ConfirmedLeak) -> Self {
        ConfirmedLeakWithUniqueValue(leak)
    }
}

impl Deref for ConfirmedLeakWithUniqueLocation {
    type Target = ConfirmedLeak;

    fn deref(&self) -> (leak: &ConfirmedLeak)
        ensures
            leak@ == self@,
    {
        &self.0
    }
}

impl Deref for ConfirmedLeakWithUniqueValue {
    type Target = ConfirmedLeak;

    fn deref(&self) -> (leak: &ConfirmedLeak)
        ensures
            leak@ == self@,
    {
        &self.0
    }
}

impl PartialEq for ConfirmedLeakWithUniqueLocation {
    fn eq(&self, other: &Self) -> (r: bool) {
        match compare_by_location(&self.0, &other.0) {
            KeyOrder::Equal => true,
            _ => false,
        }
    }
}

impl vstd::std_specs::cmp::PartialEqSpecImpl for ConfirmedLeakWithUniqueLocation {
    open spec fn obeys_eq_spec() -> bool {
        true
    }

    open spec fn eq_spec(&self, other: &Self) -> bool {
        key_order(location_key(self@), location_key(other@)) == KeyOrder::Equal
    }
}

impl Eq for ConfirmedLeakWithUniqueLocation {

}

impl PartialOrd for ConfirmedLeakWithUniqueLocation {
    fn partial_cmp(&self, other: &Self) -> (r: Option<Ordering>) {
        Some(to_std_order(compare_by_location(&self.0, &other.0)))
    }
}

impl vstd::std_specs::cmp::PartialOrdSpecImpl for ConfirmedLeakWithUniqueLocation {
    open spec fn obeys_partial_cmp_spec() -> bool {
        true
    }

    open spec fn partial_cmp_spec(&self, other: &Self) -> Option<Ordering> {
        Some(std_order(key_order(location_key(self@), location_key(other@))))
    }
}

impl PartialEq for ConfirmedLeakWithUniqueValue {
    fn eq(&self, other: &Self) -> (r: bool) {
        match compare_by_value(&self.0, &other.0) {
            KeyOrder::Equal => true,
            _ => false,
        }
    }
}

impl vstd::std_specs::cmp::PartialEqSpecImpl for ConfirmedLeakWithUniqueValue {
    open spec fn obeys_eq_spec() -> bool {
        true
    }

    open spec fn eq_spec(&self, other: &Self) -> bool {
        key_order(value_key(self@), value_key(other@)) == KeyOrder::Equal
    }
}

impl Eq for ConfirmedLeakWithUniqueValue {

}

impl PartialOrd for ConfirmedLeakWithUniqueValue {
    fn partial_cmp(&self, other: &Self) -> (r: Option<Ordering>) {
        Some(to_std_order(compare_by_value(&self.0, &other.0)))
    }
}

impl vstd::std_specs::cmp::PartialOrdSpecImpl for ConfirmedLeakWithUniqueValue {
    open spec fn obeys_partial_cmp_spec() -> bool {
        true
    }

    open spec fn partial_cmp_spec(&self, other: &Self) -> Option<Ordering> {
        Some(std_order(key_order(value_key(self@), value_key(other@))))
    }
}

} // verus!
