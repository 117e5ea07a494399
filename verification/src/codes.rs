//! The codes by which the classification of the working tree is reported.

use vstd::prelude::*;

verus! {

/// A status line whose code stands for neither a modification nor an
/// untracked entry. Only the fallback for sparse checkouts reports it.
pub const UNCLASSIFIED: i32 = 0;

/// No repository was found, or no label could be resolved.
pub const FATAL: i32 = 1;

/// The working tree has no changes.
pub const CLEAN: i32 = 5;

/// The working tree has staged, modified or conflicted entries.
pub const MODIFIED: i32 = 6;

/// The working tree has an untracked entry.
pub const UNTRACKED: i32 = 7;

/// The status could not be computed.
pub const FAILED: i32 = 8;

/// File tracking was switched off through the environment.
pub const DISABLED: i32 = 9;

} // verus!
