//! Detection of information leaking from C and C++ sources into a compiled
//! binary: string literals, struct names and class names that a source tree
//! declares are decoded to the bytes a compiler emits for them, and every
//! place where those bytes occur in a binary is confirmed and reported.

pub mod binary_scanner;
pub mod byte_order;
pub mod cli;
pub mod compilation_database;
pub mod compilation_db;
pub mod extraction;
pub mod information_leak;
pub mod reporting;
pub mod scan_laws;
pub mod suppressions;
pub mod translation_unit;
