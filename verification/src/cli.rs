//! The options of a run.

use vstd::prelude::*;

verus! {

/// The size below which a leak is not reported, where no other is asked for.
pub const DEFAULT_MINIMUM_LEAK_SIZE: usize = 4;

/// An information leak detector for C and C++ code bases
#[derive(Debug)]
pub struct CpplumberOptions {
    /// Path to the output binary to scan for leaked information.
    pub binary_file_path: String,
    /// Additional include directories.
    /// Only used when project files aren't used.
    pub include_directories: Vec<String>,
    /// Additional preprocessor definitions.
    /// Only used when project files aren't used.
    pub compile_definitions: Vec<String>,
    /// Compilation database.
    pub project_file_path: Option<String>,
    /// Path to a file containing rules to prevent certain errors from being
    /// generated.
    pub suppressions_list: Option<String>,
    /// Report leaked values only once, even when found in multiple locations.
    pub ignore_multiple_locations: bool,
    /// Report leaks for data declared in system headers
    pub report_system_headers: bool,
    /// Ignore string literals when looking for leaks.
    pub ignore_string_literals: bool,
    /// Ignore struct and class names when looking for leaks.
    pub ignore_struct_names: bool,
    /// Minimum required size in bytes, for a leak to be reported. Defaults to 4.
    /// Warning: Setting this to a lower value might greatly increase resource
    /// consumption and reports' sizes.
    pub minimum_leak_size: Option<usize>,
    /// Generate output as JSON.
    pub json_output: bool,
    /// List of source files to scan for (can be glob expressions).
    pub source_path_globs: Vec<String>,
}

impl CpplumberOptions {
    /// The minimum size of a leak that the options ask for.
    pub open spec fn minimum_size(&self) -> usize {
        match self.minimum_leak_size {
            Some(size) => size,
            None => DEFAULT_MINIMUM_LEAK_SIZE,
        }
    }

    /// The minimum size in bytes for a leak to be reported: the one that was
    /// asked for, or 4.
    pub fn effective_minimum_leak_size(&self) -> (size: usize)
        ensures
            size == self.minimum_size(),
    {
        match self.minimum_leak_size {
            Some(size) => size,
            None => DEFAULT_MINIMUM_LEAK_SIZE,
        }
    }

    /// Whether artifacts that are declared in system headers are passed
    /// over.
    pub fn ignores_system_headers(&self) -> (ignore: bool)
        ensures
            ignore == !self.report_system_headers,
    {
        !self.report_system_headers
    }

    /// Whether the project is described by a compilation database, and not
    /// by source globs, include directories and definitions.
    pub fn uses_compilation_database(&self) -> (uses: bool)
        ensures
            uses == self.project_file_path is Some,
    {
        self.project_file_path.is_some()
    }
}

} // verus!
