use vstd::prelude::*;

verus! {

/// The configuration for one sweep: where to search, which files match,
/// and whether matches are previewed or removed.
///
/// An empty `extension` list matches any extension. A `name_contains` of
/// `None` matches any name. When `ignore_case` is set, the name filter
/// compares lowercased filename and pattern. `dry_run` takes precedence
/// over `delete` for the removal action, but either flag triggers the scan.
pub struct Args {
    /// Root directory of the search.
    pub path: String,
    /// Extensions (without the leading dot) that a file may have; empty
    /// means no restriction.
    pub extension: Vec<String>,
    /// Substring that the filename must contain, if set.
    pub name_contains: Option<String>,
    /// Compare filename and pattern case-insensitively.
    pub ignore_case: bool,
    /// Remove the matched files.
    pub delete: bool,
    /// Only report the matched files, never remove them.
    pub dry_run: bool,
}

} // verus!
