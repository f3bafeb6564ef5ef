//! The hierarchy the wheel visualizes.
//!
//! The layout is defined for a tree with exactly three levels below the
//! root: depth-1 category nodes, depth-2 subcategory nodes, and depth-3
//! leaves.  Children are kept in stable left-to-right order; the layout
//! only ever reads names, children, and the per-depth node counts.

use vstd::prelude::*;

verus! {

/// A named node, with its children in left-to-right order.
pub struct Node {
    pub name: String,
    pub children: Vec<Node>,
}

/// A depth-3 node must be a leaf: no children.
pub open spec fn leaf_ok(n: Node) -> bool {
    n.children@.len() == 0
}

/// A depth-2 node must have at least one child, all of them leaves.
pub open spec fn d2_ok(n: Node) -> bool {
    &&& n.children@.len() > 0
    &&& forall|i: int| 0 <= i < n.children@.len() ==> leaf_ok(#[trigger] n.children@[i])
}

/// A depth-1 node must have at least one child, all of them well-formed
/// depth-2 nodes.
pub open spec fn d1_ok(n: Node) -> bool {
    &&& n.children@.len() > 0
    &&& forall|i: int| 0 <= i < n.children@.len() ==> d2_ok(#[trigger] n.children@[i])
}

/// The tree has exactly three levels below its root.  A root with no
/// children is vacuously well formed and renders as an empty wheel.
pub open spec fn tree_ok(root: Node) -> bool {
    forall|i: int| 0 <= i < root.children@.len() ==> d1_ok(#[trigger] root.children@[i])
}

/// The total number of children directly below the given nodes.  Applied
/// to the root's children this counts the depth-2 nodes; applied to one
/// category's children it counts that category's leaves.
pub open spec fn child_count(s: Seq<Node>) -> int
    decreases s.len(),
{
    if s.len() == 0 {
        0
    } else {
        s[0].children@.len() + child_count(s.skip(1))
    }
}

/// The total number of grandchildren below the given nodes.  Applied to
/// the root's children this counts the depth-3 leaves of the whole tree.
pub open spec fn leaf_count(s: Seq<Node>) -> int
    decreases s.len(),
{
    if s.len() == 0 {
        0
    } else {
        child_count(s[0].children@) + leaf_count(s.skip(1))
    }
}

/// A sum of lengths is never negative.
pub proof fn lemma_child_count_nonneg(s: Seq<Node>)
    ensures
        child_count(s) >= 0,
    decreases s.len(),
{
    if s.len() > 0 {
        lemma_child_count_nonneg(s.skip(1));
    }
}

/// Both counts are sums of lengths, so they are never negative.
pub proof fn lemma_counts_nonneg(s: Seq<Node>)
    ensures
        child_count(s) >= 0,
        leaf_count(s) >= 0,
    decreases s.len(),
{
    lemma_child_count_nonneg(s);
    if s.len() > 0 {
        lemma_child_count_nonneg(s[0].children@);
        lemma_counts_nonneg(s.skip(1));
    }
}

/// Peeling one node off the front of a suffix.
pub proof fn lemma_counts_skip_unfold(s: Seq<Node>, i: int)
    requires
        0 <= i < s.len(),
    ensures
        child_count(s.skip(i)) == s[i].children@.len() + child_count(s.skip(i + 1)),
        leaf_count(s.skip(i)) == child_count(s[i].children@) + leaf_count(s.skip(i + 1)),
{
    assert(s.skip(i).skip(1) =~= s.skip(i + 1));
    assert(s.skip(i)[0] == s[i]);
}

/// Nodes that all have at least one child contribute at least one each.
pub proof fn lemma_child_count_lower(s: Seq<Node>)
    requires
        forall|i: int| 0 <= i < s.len() ==> (#[trigger] s[i]).children@.len() > 0,
    ensures
        child_count(s) >= s.len(),
    decreases s.len(),
{
    if s.len() > 0 {
        assert(forall|i: int|
            0 <= i < s.skip(1).len() ==> (#[trigger] s.skip(1)[i]).children@.len() > 0);
        lemma_child_count_lower(s.skip(1));
    }
}

/// Whether the tree has exactly three levels below the root, checked
/// exactly as [`tree_ok`] states it.
pub fn validate(root: &Node) -> (b: bool)
    ensures
        b == tree_ok(*root),
{
    let mut i: usize = 0;
    while i < root.children.len()
        invariant
            i <= root.children@.len(),
            forall|p: int| 0 <= p < i ==> d1_ok(#[trigger] root.children@[p]),
        decreases root.children@.len() - i,
    {
        let d1 = &root.children[i];
        if d1.children.len() == 0 {
            return false;
        }
        let mut j: usize = 0;
        while j < d1.children.len()
            invariant
                j <= d1.children@.len(),
                d1 == root.children@[i as int],
                i < root.children@.len(),
                forall|q: int| 0 <= q < j ==> d2_ok(#[trigger] d1.children@[q]),
            decreases d1.children@.len() - j,
        {
            let d2 = &d1.children[j];
            if d2.children.len() == 0 {
                return false;
            }
            let mut k: usize = 0;
            while k < d2.children.len()
                invariant
                    k <= d2.children@.len(),
                    d2 == d1.children@[j as int],
                    j < d1.children@.len(),
                    d1 == root.children@[i as int],
                    i < root.children@.len(),
                    forall|t: int| 0 <= t < k ==> leaf_ok(#[trigger] d2.children@[t]),
                decreases d2.children@.len() - k,
            {
                if d2.children[k].children.len() > 0 {
                    proof {
                        assert(!leaf_ok(d2.children@[k as int]));
                        assert(!d2_ok(d1.children@[j as int]));
                        assert(!d1_ok(root.children@[i as int]));
                    }
                    return false;
                }
                k += 1;
            }
            j += 1;
        }
        i += 1;
    }
    true
}

/// The number of depth-2 nodes and of depth-3 leaves below the root, or
/// `None` when either count exceeds [`crate::shape::MAX_SLIVERS`] — the
/// machine limit on how finely a circle may be divided.
pub fn depth_counts(root: &Node) -> (r: Option<(usize, usize)>)
    ensures
        r matches Some(c) ==> ({
            &&& c.0 == child_count(root.children@)
            &&& c.1 == leaf_count(root.children@)
            &&& c.0 <= crate::shape::MAX_SLIVERS
            &&& c.1 <= crate::shape::MAX_SLIVERS
        }),
        r is None ==> !(child_count(root.children@) <= crate::shape::MAX_SLIVERS && leaf_count(
            root.children@,
        ) <= crate::shape::MAX_SLIVERS),
{
    let mut n2: usize = 0;
    let mut n3: usize = 0;
    let mut i: usize = 0;
    proof {
        assert(root.children@.skip(0) =~= root.children@);
    }
    while i < root.children.len()
        invariant
            i <= root.children@.len(),
            n2 <= crate::shape::MAX_SLIVERS,
            n3 <= crate::shape::MAX_SLIVERS,
            n2 + child_count(root.children@.skip(i as int)) == child_count(root.children@),
            n3 + leaf_count(root.children@.skip(i as int)) == leaf_count(root.children@),
        decreases root.children@.len() - i,
    {
        let d1 = &root.children[i];
        proof {
            lemma_counts_skip_unfold(root.children@, i as int);
            lemma_counts_nonneg(root.children@.skip(i as int + 1));
            lemma_counts_nonneg(d1.children@);
        }
        if d1.children.len() > crate::shape::MAX_SLIVERS - n2 {
            return None;
        }
        n2 = n2 + d1.children.len();
        let mut j: usize = 0;
        proof {
            assert(d1.children@.skip(0) =~= d1.children@);
        }
        while j < d1.children.len()
            invariant
                j <= d1.children@.len(),
                d1 == root.children@[i as int],
                i < root.children@.len(),
                n3 <= crate::shape::MAX_SLIVERS,
                n3 + child_count(d1.children@.skip(j as int)) + leaf_count(
                    root.children@.skip(i as int + 1),
                ) == leaf_count(root.children@),
            decreases d1.children@.len() - j,
        {
            let d2 = &d1.children[j];
            proof {
                lemma_counts_skip_unfold(d1.children@, j as int);
                lemma_counts_nonneg(d1.children@.skip(j as int + 1));
                lemma_counts_nonneg(root.children@.skip(i as int + 1));
            }
            if d2.children.len() > crate::shape::MAX_SLIVERS - n3 {
                return None;
            }
            n3 = n3 + d2.children.len();
            j += 1;
        }
        i += 1;
    }
    proof {
        assert(root.children@.skip(root.children@.len() as int) =~= Seq::<Node>::empty());
    }
    Some((n2, n3))
}

} // verus!
