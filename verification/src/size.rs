//! Recursive size aggregation over a directory snapshot.

use vstd::prelude::*;

use crate::error::FsError;
use crate::fs_tree::{
    forest_clean, forest_count, forest_size, lemma_forest_concat, lemma_forest_singleton,
    node_clean, node_count, node_size, FsNode,
};

verus! {

/// Sum of the byte sizes of all regular files transitively contained in the
/// directory `dir`.  Directories themselves contribute no intrinsic size,
/// and entries that are neither regular files nor directories contribute
/// zero.
///
/// The traversal uses an explicit stack of pending entries instead of native
/// call-stack recursion, so its memory use is bounded by the entries still
/// to be visited rather than by the nesting depth of the tree.
///
/// Any entry that cannot be inspected aborts the whole computation: no
/// partial or best-effort sum is ever reported.  A total that does not fit
/// in an unsigned 64-bit count is likewise reported as a failure rather than
/// as a wrong sum.
#[verifier::loop_isolation(false)]
pub fn get_dir_size(dir: FsNode) -> (r: Result<u64, FsError>)
    requires
        dir is Dir,
    ensures
        r is Ok <==> node_clean(dir) && node_size(dir) <= u64::MAX,
        r is Ok ==> r->Ok_0 as nat == node_size(dir),
        r is Err ==> r->Err_0 == FsError::Filesystem,
{
    let ghost root = dir;
    let mut total: u64 = 0;
    let mut stack: Vec<FsNode> = Vec::new();
    stack.push(dir);
    proof {
        lemma_forest_singleton(root);
        assert(stack@ =~= seq![root]);
    }
    while stack.len() > 0
        invariant
            total as nat + forest_size(stack@) == node_size(root),
            forest_clean(stack@) <==> node_clean(root),
        decreases forest_count(stack@),
    {
        let ghost prev = stack@;
        let node = stack.pop().unwrap();
        proof {
            assert(stack@ == prev.subrange(0, prev.len() - 1));
            assert(node == prev[prev.len() - 1]);
            assert(forest_size(prev) == forest_size(stack@) + node_size(node));
            assert(forest_clean(prev) == (forest_clean(stack@) && node_clean(node)));
            assert(forest_count(prev) == forest_count(stack@) + node_count(node));
        }
        match node {
            FsNode::File { size } => {
                if size > u64::MAX - total {
                    return Err(FsError::Filesystem);
                }
                total = total + size;
            },
            FsNode::Dir { mut entries } => {
                proof {
                    lemma_forest_concat(stack@, entries@);
                }
                stack.append(&mut entries);
            },
            FsNode::Denied => {
                return Err(FsError::Filesystem);
            },
            FsNode::Other => {},
        }
    }
    Ok(total)
}

} // verus!
