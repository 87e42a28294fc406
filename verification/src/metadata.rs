//! The metadata service: existence, kind and size of one path.

use vstd::prelude::*;

use crate::error::FsError;
use crate::fs_tree::{node_clean, node_size, FsNode};
use crate::size::get_dir_size;

verus! {

/// What a metadata query reports for one path.
///
/// If `is_exist` is false all other fields are zero or false; when it is
/// true, `is_dir` and `is_file` are mutually exclusive.
#[derive(Debug, Clone, Copy, PartialEq, Eq, Structural)]
pub struct Metadata {
    /// Byte length of a regular file, or the total size of all regular
    /// files transitively contained in a directory.
    pub size: u64,
    /// Whether the path is a directory.
    pub is_dir: bool,
    /// Whether the path is a regular file.
    pub is_file: bool,
    /// Whether the path exists at all.
    pub is_exist: bool,
}

/// Whether a metadata query succeeds on a path whose snapshot is `stat`
/// (`None` stands for a path that does not exist).  A missing path is not a
/// failure; an existing one fails exactly when it cannot be inspected, when
/// an entry below it cannot be, when it is neither a regular file nor a
/// directory, or when a directory's total does not fit in 64 bits.
pub open spec fn metadata_ok(stat: Option<FsNode>) -> bool {
    match stat {
        None => true,
        Some(node) => match node {
            FsNode::File { .. } => true,
            FsNode::Dir { .. } => node_clean(node) && node_size(node) <= u64::MAX,
            FsNode::Denied => false,
            FsNode::Other => false,
        },
    }
}

/// The record a successful metadata query reports.  Only inputs satisfying
/// [`metadata_ok`] ever report a record, so the remaining arms are never
/// reached through [`metadata`].
pub open spec fn spec_metadata(stat: Option<FsNode>) -> Metadata {
    match stat {
        None => Metadata { size: 0, is_dir: false, is_file: false, is_exist: false },
        Some(node) => match node {
            FsNode::File { size } => Metadata {
                size,
                is_dir: false,
                is_file: true,
                is_exist: true,
            },
            FsNode::Dir { .. } => Metadata {
                size: node_size(node) as u64,
                is_dir: true,
                is_file: false,
                is_exist: true,
            },
            _ => Metadata { size: 0, is_dir: false, is_file: false, is_exist: true },
        },
    }
}

/// The full contract of [`metadata`]: it succeeds exactly on the inputs
/// [`metadata_ok`] admits, reports exactly [`spec_metadata`] then, and every
/// failure is a filesystem failure.
pub open spec fn metadata_post(stat: Option<FsNode>, r: Result<Metadata, FsError>) -> bool {
    &&& r is Ok <==> metadata_ok(stat)
    &&& r is Ok ==> r->Ok_0 == spec_metadata(stat)
    &&& r is Err ==> r->Err_0 == FsError::Filesystem
}

/// Reports whether the queried path exists, whether it is a regular file or
/// a directory, and its size: a file's byte length, or the recursively
/// aggregated size of a directory.
///
/// `stat` is the snapshot of what the filesystem reports for the path:
/// `None` for a path that does not exist.  A missing path yields the
/// all-zero, all-false record and never an error; an existing path that
/// cannot be inspected or traversed yields a filesystem error, never a
/// partial result.
pub fn metadata(stat: Option<FsNode>) -> (r: Result<Metadata, FsError>)
    ensures
        metadata_post(stat, r),
{
    match stat {
        None => Ok(Metadata { size: 0, is_dir: false, is_file: false, is_exist: false }),
        Some(node) => match node {
            FsNode::File { size } => Ok(
                Metadata { size, is_dir: false, is_file: true, is_exist: true },
            ),
            FsNode::Denied => Err(FsError::Filesystem),
            FsNode::Other => Err(FsError::Filesystem),
            dir => match get_dir_size(dir) {
                Ok(size) => Ok(Metadata { size, is_dir: true, is_file: false, is_exist: true }),
                Err(e) => Err(e),
            },
        },
    }
}

/// Every record a query reports is well formed: for a path that does not
/// exist all other fields are zero or false, and an existing path is a
/// directory or a regular file, never both and never neither.
pub proof fn lemma_metadata_well_formed(stat: Option<FsNode>, r: Result<Metadata, FsError>)
    requires
        metadata_post(stat, r),
        r is Ok,
    ensures
        !r->Ok_0.is_exist ==> r->Ok_0.size == 0 && !r->Ok_0.is_dir && !r->Ok_0.is_file,
        r->Ok_0.is_exist ==> (r->Ok_0.is_dir <==> !r->Ok_0.is_file),
{
}

/// A query on a path that does not exist reports the all-zero, all-false
/// record, and never fails.
pub proof fn lemma_metadata_missing(r: Result<Metadata, FsError>)
    requires
        metadata_post(None, r),
    ensures
        r is Ok,
        r->Ok_0 == (Metadata { size: 0, is_dir: false, is_file: false, is_exist: false }),
{
}

/// A query on an existing regular file reports the file's byte length as its
/// size and classifies it as a file, not a directory.
pub proof fn lemma_metadata_file(size: u64, r: Result<Metadata, FsError>)
    requires
        metadata_post(Some(FsNode::File { size }), r),
    ensures
        r is Ok,
        r->Ok_0 == (Metadata { size, is_dir: false, is_file: true, is_exist: true }),
{
}

/// A successful query on an existing directory reports the sum of the sizes
/// of all regular files transitively under it, whatever the nesting depth,
/// and classifies it as a directory.
pub proof fn lemma_metadata_dir(node: FsNode, r: Result<Metadata, FsError>)
    requires
        node is Dir,
        metadata_post(Some(node), r),
        r is Ok,
    ensures
        r->Ok_0.size as nat == node_size(node),
        r->Ok_0.is_dir,
        !r->Ok_0.is_file,
        r->Ok_0.is_exist,
{
}

/// Metadata queries are idempotent: any two results for the same snapshot of
/// an unmodified path are identical.
pub proof fn lemma_metadata_idempotent(
    stat: Option<FsNode>,
    r1: Result<Metadata, FsError>,
    r2: Result<Metadata, FsError>,
)
    requires
        metadata_post(stat, r1),
        metadata_post(stat, r2),
    ensures
        r1 == r2,
{
}

/// Additivity: for a directory whose listing yields exactly two
/// subdirectories and nothing else, the reported size is the sum of the
/// sizes the two subdirectories report on their own.
pub proof fn lemma_metadata_additive(
    a: FsNode,
    b: FsNode,
    d: FsNode,
    rd: Result<Metadata, FsError>,
    ra: Result<Metadata, FsError>,
    rb: Result<Metadata, FsError>,
)
    requires
        a is Dir,
        b is Dir,
        d matches FsNode::Dir { entries } && entries@ == seq![a, b],
        metadata_post(Some(d), rd),
        metadata_post(Some(a), ra),
        metadata_post(Some(b), rb),
        rd is Ok,
    ensures
        ra is Ok,
        rb is Ok,
        rd->Ok_0.size == ra->Ok_0.size + rb->Ok_0.size,
{
    assert(seq![a] + seq![b] =~= seq![a, b]);
    crate::fs_tree::lemma_forest_concat(seq![a], seq![b]);
    crate::fs_tree::lemma_forest_singleton(a);
    crate::fs_tree::lemma_forest_singleton(b);
    assert(node_size(d) == node_size(a) + node_size(b));
    assert(node_clean(a) && node_clean(b));
}

} // verus!
