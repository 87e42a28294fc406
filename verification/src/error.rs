//! The failures the library distinguishes.

use vstd::prelude::*;

verus! {

/// How an operation on the filesystem can fail.
///
/// Non-existence of a path is not an error: it is a valid metadata result.
#[derive(Debug, Clone, Copy, PartialEq, Eq, Structural)]
pub enum FsError {
    /// Reading directory entries or metadata failed while an existing path
    /// was being inspected or traversed, or a directory's total size does
    /// not fit in an unsigned 64-bit byte count.  No partial result is
    /// reported.
    Filesystem,
    /// The native file-manager process could not be launched.  Produced by
    /// the caller that performs the spawn; the library only defines the
    /// variant so that both failure kinds share one type.
    ProcessSpawn,
}

} // verus!
