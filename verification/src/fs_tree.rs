//! An in-memory model of a filesystem subtree.
//!
//! A [`FsNode`] records, for one entry, exactly what the size-aggregation
//! logic reads from the operating system: the kind of the entry, the byte
//! length of a regular file, the listed entries of a directory, and whether
//! inspecting the entry fails.  Entry names play no role in size
//! aggregation, so the model does not carry them.

use vstd::prelude::*;

verus! {

/// A snapshot of one filesystem entry, as the operating system reports it.
#[derive(Debug)]
pub enum FsNode {
    /// A regular file and its byte length.
    File { size: u64 },
    /// A directory together with the entries that listing it yields.
    Dir { entries: Vec<FsNode> },
    /// An entry that cannot be inspected: reading its metadata fails, or it
    /// is a directory whose listing fails (permission denied, removed while
    /// being traversed, an I/O error).
    Denied,
    /// An entry that is neither a regular file nor a directory (a symbolic
    /// link, socket or device); it contributes no bytes to a directory's
    /// size.
    Other,
}

/// Total byte size of `n`: a file's length, the sum over a directory's
/// entries, and zero for everything else.  Directories themselves contribute
/// no intrinsic size.
pub open spec fn node_size(n: FsNode) -> nat
    decreases n,
{
    match n {
        FsNode::File { size } => size as nat,
        FsNode::Dir { entries } => forest_size(entries@),
        FsNode::Denied => 0,
        FsNode::Other => 0,
    }
}

/// Sum of [`node_size`] over a sequence of entries.
pub open spec fn forest_size(s: Seq<FsNode>) -> nat
    decreases s,
{
    if s.len() == 0 {
        0
    } else {
        forest_size(s.subrange(0, s.len() - 1)) + node_size(s[s.len() - 1])
    }
}

/// Whether every entry of the subtree rooted at `n` can be inspected:
/// traversing `n` succeeds exactly when this holds.
pub open spec fn node_clean(n: FsNode) -> bool
    decreases n,
{
    match n {
        FsNode::File { .. } => true,
        FsNode::Dir { entries } => forest_clean(entries@),
        FsNode::Denied => false,
        FsNode::Other => true,
    }
}

/// Whether [`node_clean`] holds of every entry of the sequence.
pub open spec fn forest_clean(s: Seq<FsNode>) -> bool
    decreases s,
{
    if s.len() == 0 {
        true
    } else {
        forest_clean(s.subrange(0, s.len() - 1)) && node_clean(s[s.len() - 1])
    }
}

/// Number of entries in the subtree rooted at `n`, the root included; a
/// measure for traversals of the tree.
pub open spec fn node_count(n: FsNode) -> nat
    decreases n,
{
    match n {
        FsNode::Dir { entries } => 1 + forest_count(entries@),
        _ => 1,
    }
}

/// Sum of [`node_count`] over a sequence of entries.
pub open spec fn forest_count(s: Seq<FsNode>) -> nat
    decreases s,
{
    if s.len() == 0 {
        0
    } else {
        forest_count(s.subrange(0, s.len() - 1)) + node_count(s[s.len() - 1])
    }
}

/// Size, cleanness and entry count all distribute over concatenation of
/// entry sequences.
pub proof fn lemma_forest_concat(a: Seq<FsNode>, b: Seq<FsNode>)
    ensures
        forest_size(a + b) == forest_size(a) + forest_size(b),
        forest_clean(a + b) == (forest_clean(a) && forest_clean(b)),
        forest_count(a + b) == forest_count(a) + forest_count(b),
    decreases b.len(),
{
    if b.len() == 0 {
        assert(a + b =~= a);
    } else {
        let b0 = b.subrange(0, b.len() - 1);
        lemma_forest_concat(a, b0);
        assert((a + b).subrange(0, (a + b).len() - 1) =~= a + b0);
        assert((a + b)[(a + b).len() - 1] == b[b.len() - 1]);
    }
}

/// Removing one entry from a sequence removes exactly its size from the sum.
pub proof fn lemma_forest_size_remove(s: Seq<FsNode>, i: int)
    requires
        0 <= i < s.len(),
    ensures
        forest_size(s.remove(i)) + node_size(s[i]) == forest_size(s),
{
    let a = s.subrange(0, i);
    let m = seq![s[i]];
    let b = s.subrange(i + 1, s.len() as int);
    assert(s =~= (a + m) + b);
    assert(s.remove(i) =~= a + b);
    lemma_forest_concat(a + m, b);
    lemma_forest_concat(a, m);
    lemma_forest_concat(a, b);
    lemma_forest_singleton(s[i]);
}

/// The aggregate size of a sequence of entries does not depend on their
/// order: two listings that yield the same entries, as a multiset, sum to
/// the same total.
pub proof fn lemma_forest_size_permutation(s1: Seq<FsNode>, s2: Seq<FsNode>)
    requires
        s1.to_multiset() == s2.to_multiset(),
    ensures
        forest_size(s1) == forest_size(s2),
    decreases s1.len(),
{
    broadcast use vstd::seq_lib::group_to_multiset_ensures;

    if s1.len() == 0 {
        assert(s2.to_multiset().len() == 0);
        assert(forest_size(s2) == 0);
    } else {
        let last = s1.len() - 1;
        let x = s1[last];
        assert(s1.contains(x));
        assert(s2.to_multiset().count(x) > 0);
        assert(s2.contains(x));
        let i2 = choose|i: int| 0 <= i < s2.len() && s2[i] == x;
        let s1r = s1.remove(last);
        let s2r = s2.remove(i2);
        assert(s1r.to_multiset() == s1.to_multiset().remove(x));
        assert(s2r.to_multiset() == s2.to_multiset().remove(x));
        lemma_forest_size_permutation(s1r, s2r);
        lemma_forest_size_remove(s1, last);
        lemma_forest_size_remove(s2, i2);
    }
}

/// A directory's aggregate size does not depend on the order in which its
/// listing yields the entries.
pub proof fn lemma_node_size_order_independent(d1: FsNode, d2: FsNode)
    requires
        d1 is Dir,
        d2 is Dir,
        d1->entries@.to_multiset() == d2->entries@.to_multiset(),
    ensures
        node_size(d1) == node_size(d2),
{
    lemma_forest_size_permutation(d1->entries@, d2->entries@);
}

/// On a single entry the three sums reduce to the entry's own measures.
pub proof fn lemma_forest_singleton(n: FsNode)
    ensures
        forest_size(seq![n]) == node_size(n),
        forest_clean(seq![n]) == node_clean(n),
        forest_count(seq![n]) == node_count(n),
{
    reveal_with_fuel(forest_size, 2);
    reveal_with_fuel(forest_clean, 2);
    reveal_with_fuel(forest_count, 2);
    assert(seq![n].subrange(0, 0) =~= Seq::<FsNode>::empty());
}

} // verus!
