//! Where leaked data is declared, and where it was found.

use std::sync::Arc;
use vstd::prelude::*;

verus! {

/// Where a piece of data is declared in the source code.
#[derive(Debug, PartialEq, Eq, Hash, PartialOrd, Ord)]
pub struct SourceLocation {
    /// Canonical path of the source file
    pub file: String,
    /// Line of the declaration, counted from 1
    pub line: u64,
}

/// Where a piece of data was found in the binary file.
#[derive(Debug, PartialEq, Eq, Hash, PartialOrd, Ord)]
pub struct BinaryLocation {
    /// Canonical path of the binary file, shared by all the leaks found in it
    pub file: Arc<String>,
    /// Offset of the first byte of the data
    pub offset: u64,
}

/// Struct containing the source and binary locations of leaked data
#[derive(Debug, PartialEq, Eq, Hash, PartialOrd, Ord)]
pub struct LeakLocation {
    pub source: Arc<SourceLocation>,
    pub binary: BinaryLocation,
}

/// A source location as plain values.
pub struct SourceLocationView {
    pub file: Seq<char>,
    pub line: u64,
}

/// A binary location as plain values.
pub struct BinaryLocationView {
    pub file: Seq<char>,
    pub offset: u64,
}

/// A leak's two locations as plain values.
pub struct LeakLocationView {
    pub source: SourceLocationView,
    pub binary: BinaryLocationView,
}

impl View for SourceLocation {
    type V = SourceLocationView;

    open spec fn view(&self) -> SourceLocationView {
        SourceLocationView { file: self.file@, line: self.line }
    }
}

impl View for BinaryLocation {
    type V = BinaryLocationView;

    open spec fn view(&self) -> BinaryLocationView {
        BinaryLocationView { file: self.file@, offset: self.offset }
    }
}

impl View for LeakLocation {
    type V = LeakLocationView;

    open spec fn view(&self) -> LeakLocationView {
        LeakLocationView { source: self.source@, binary: self.binary@ }
    }
}

/// Calls `Arc::clone`: another handle to the same value.
#[verifier::external_body]
pub(crate) fn share<T>(handle: &Arc<T>) -> (shared: Arc<T>)
    ensures
        shared == *handle,
{
    Arc::clone(handle)
}

} // verus!
