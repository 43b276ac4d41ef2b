//! The artifacts that may leak, how they are decoded, and where they are found.

pub mod confirmed_leak;
pub mod escape;
pub mod leak_location;
pub mod leak_set;
pub mod potential_leak;
pub mod sort_key;
pub mod string_literal;
pub mod wide_encoding;

pub use confirmed_leak::{
    ConfirmedLeak, ConfirmedLeakWithUniqueLocation, ConfirmedLeakWithUniqueValue,
    SortedConfirmedLeak,
};
pub use leak_location::{BinaryLocation, LeakLocation, SourceLocation};
pub use leak_set::ConfirmedLeakSet;
pub use potential_leak::{ConversionError, PotentialLeak};
pub use string_literal::{LiteralError, WideCharMode};

use vstd::prelude::*;

verus! {

/// Describes the kind of data that's leaked
#[derive(Debug, Clone, Copy, PartialEq, Eq, Structural)]
pub enum LeakedDataType {
    /// Data comes from a string literal
    StringLiteral,
    /// Data represents the name of a C/C++ struct
    StructName,
    /// Data represents the name of a C++ class
    ClassName,
}

} // verus!
