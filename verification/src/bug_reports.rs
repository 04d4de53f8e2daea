//! Stored bug reports.
use vstd::prelude::*;

verus! {

/// The store of bug reports. Its one query, the latest hundred reports,
/// newest first, runs against the database outside this library.
pub struct BugReportsDb;

} // verus!
