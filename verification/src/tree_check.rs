use vstd::prelude::*;

verus! {

/// Marker stored in a node's `parent` field when it has no parent (the root).
pub const NO_PARENT: u32 = 0xFFFF_FFFF;

/// The link fields of one node of the linear BVH, as the GPU writes them:
/// internal nodes come first (`num_particles - 1` of them), then the leaves.
#[derive(Clone, Copy, PartialEq, Eq, Structural, Debug)]
pub struct NodeLinks {
    pub left: u32,
    pub right: u32,
    pub parent: u32,
    pub is_leaf: u32,
}

/// The first inconsistency found in the tree.
#[derive(Clone, Copy, PartialEq, Eq, Structural, Debug)]
pub enum TreeFault {
    /// Internal node `node` has a left child index outside the tree.
    InvalidLeftChild { node: usize },
    /// Internal node `node` has a right child index outside the tree.
    InvalidRightChild { node: usize },
    /// The left child `child` of `node` does not name `node` as its parent.
    LeftParentMismatch { node: usize, child: usize },
    /// The right child `child` of `node` does not name `node` as its parent.
    RightParentMismatch { node: usize, child: usize },
}

/// What a failed validation reports: the fault, the chain of parents walked
/// upwards from the faulty node, and (for an invalid left child) the internal
/// nodes that name the faulty node as one of their children.
pub struct TreeDiagnosis {
    pub fault: TreeFault,
    pub chain: Vec<usize>,
    pub referrers: Vec<usize>,
}

/// The child-range fault of internal node `i`, if any (left is checked first).
/// Child indices are compared with the node count taken as a `u32`.
pub open spec fn link_fault_at(nodes: Seq<NodeLinks>, i: int, total: usize) -> Option<TreeFault> {
    if nodes[i].left >= (total as u32) {
        Some(TreeFault::InvalidLeftChild { node: i as usize })
    } else if nodes[i].right >= (total as u32) {
        Some(TreeFault::InvalidRightChild { node: i as usize })
    } else {
        None
    }
}

/// The parent-pointer fault of internal node `i`, if any (left is checked first):
/// a child inside the tree whose `parent` is not `i`.
pub open spec fn parent_fault_at(nodes: Seq<NodeLinks>, i: int, total: usize) -> Option<TreeFault> {
    let l = nodes[i].left as int;
    let r = nodes[i].right as int;
    if l < total && nodes[l].parent != (i as u32) {
        Some(TreeFault::LeftParentMismatch { node: i as usize, child: l as usize })
    } else if r < total && nodes[r].parent != (i as u32) {
        Some(TreeFault::RightParentMismatch { node: i as usize, child: r as usize })
    } else {
        None
    }
}

/// The first child-range fault among internal nodes `i..end`.
pub open spec fn first_link_fault(nodes: Seq<NodeLinks>, total: usize, i: int, end: int) -> Option<TreeFault>
    decreases end - i,
{
    if i >= end {
        None
    } else if link_fault_at(nodes, i, total) is Some {
        link_fault_at(nodes, i, total)
    } else {
        first_link_fault(nodes, total, i + 1, end)
    }
}

/// The first parent-pointer fault among internal nodes `i..end`.
pub open spec fn first_parent_fault(nodes: Seq<NodeLinks>, total: usize, i: int, end: int) -> Option<TreeFault>
    decreases end - i,
{
    if i >= end {
        None
    } else if parent_fault_at(nodes, i, total) is Some {
        parent_fault_at(nodes, i, total)
    } else {
        first_parent_fault(nodes, total, i + 1, end)
    }
}

/// The fault that validation reports: all child ranges are checked before any
/// parent pointer, each pass in increasing node order.
pub open spec fn tree_fault(nodes: Seq<NodeLinks>, num_particles: usize) -> Option<TreeFault> {
    let total = (2 * num_particles - 1) as usize;
    let leaf = num_particles - 1;
    match first_link_fault(nodes, total, 0, leaf) {
        Some(f) => Some(f),
        None => first_parent_fault(nodes, total, 0, leaf),
    }
}

/// Every internal node has both children inside the tree, and every child
/// inside the tree names its node as parent.
pub open spec fn links_consistent(nodes: Seq<NodeLinks>, num_particles: usize) -> bool {
    let total = (2 * num_particles - 1) as usize;
    &&& forall|i: int| 0 <= i < num_particles - 1 ==> #[trigger] link_fault_at(nodes, i, total) is None
    &&& forall|i: int| 0 <= i < num_particles - 1 ==> #[trigger] parent_fault_at(nodes, i, total) is None
}

/// The nodes visited when walking upwards from `cur` along `parent` pointers,
/// at most `limit` of them: the walk stops at the root marker, at an index
/// outside the tree, or after the node whose parent is the root marker.
pub open spec fn parent_chain_spec(nodes: Seq<NodeLinks>, cur: int, total: int, limit: nat) -> Seq<usize>
    decreases limit,
{
    if limit == 0 || cur == NO_PARENT as int || cur >= total {
        Seq::empty()
    } else if nodes[cur].parent == NO_PARENT {
        seq![cur as usize]
    } else {
        seq![cur as usize] + parent_chain_spec(nodes, nodes[cur].parent as int, total, (limit - 1) as nat)
    }
}

/// The internal nodes among `0..n` that name `target` as their left or right
/// child, in increasing order.
pub open spec fn referrers_spec(nodes: Seq<NodeLinks>, target: usize, n: int) -> Seq<usize>
    decreases n,
{
    if n <= 0 {
        Seq::empty()
    } else {
        referrers_spec(nodes, target, n - 1) + if nodes[n - 1].left == (target as u32)
            || nodes[n - 1].right == (target as u32) {
            seq![(n - 1) as usize]
        } else {
            Seq::empty()
        }
    }
}

proof fn lemma_first_link_fault_none(nodes: Seq<NodeLinks>, total: usize, i: int, end: int)
    ensures
        first_link_fault(nodes, total, i, end) is None <==> forall|j: int|
            i <= j < end ==> #[trigger] link_fault_at(nodes, j, total) is None,
    decreases end - i,
{
    if i < end {
        lemma_first_link_fault_none(nodes, total, i + 1, end);
    }
}

proof fn lemma_first_parent_fault_none(nodes: Seq<NodeLinks>, total: usize, i: int, end: int)
    ensures
        first_parent_fault(nodes, total, i, end) is None <==> forall|j: int|
            i <= j < end ==> #[trigger] parent_fault_at(nodes, j, total) is None,
    decreases end - i,
{
    if i < end {
        lemma_first_parent_fault_none(nodes, total, i + 1, end);
    }
}

/// Validation finds no fault exactly when the tree's links are consistent.
pub proof fn lemma_no_fault_iff_consistent(nodes: Seq<NodeLinks>, num_particles: usize)
    requires
        num_particles >= 1,
    ensures
        tree_fault(nodes, num_particles) is None <==> links_consistent(nodes, num_particles),
{
    let total = (2 * num_particles - 1) as usize;
    lemma_first_link_fault_none(nodes, total, 0, num_particles - 1);
    lemma_first_parent_fault_none(nodes, total, 0, num_particles - 1);
}

/// The internal node a fault is reported for.
pub open spec fn fault_node(f: TreeFault) -> usize {
    match f {
        TreeFault::InvalidLeftChild { node } => node,
        TreeFault::InvalidRightChild { node } => node,
        TreeFault::LeftParentMismatch { node, .. } => node,
        TreeFault::RightParentMismatch { node, .. } => node,
    }
}

proof fn lemma_first_link_fault_found(nodes: Seq<NodeLinks>, total: usize, i: int, end: int)
    requires
        first_link_fault(nodes, total, i, end) is Some,
        0 <= i,
        end <= usize::MAX,
    ensures
        ({
            let f = first_link_fault(nodes, total, i, end).unwrap();
            let k = fault_node(f) as int;
            &&& i <= k < end
            &&& link_fault_at(nodes, k, total) == Some(f)
            &&& forall|j: int| i <= j < k ==> #[trigger] link_fault_at(nodes, j, total) is None
        }),
    decreases end - i,
{
    if link_fault_at(nodes, i, total) is None {
        lemma_first_link_fault_found(nodes, total, i + 1, end);
    }
}

proof fn lemma_first_parent_fault_found(nodes: Seq<NodeLinks>, total: usize, i: int, end: int)
    requires
        first_parent_fault(nodes, total, i, end) is Some,
        0 <= i,
        end <= usize::MAX,
    ensures
        ({
            let f = first_parent_fault(nodes, total, i, end).unwrap();
            let k = fault_node(f) as int;
            &&& i <= k < end
            &&& parent_fault_at(nodes, k, total) == Some(f)
            &&& forall|j: int| i <= j < k ==> #[trigger] parent_fault_at(nodes, j, total) is None
        }),
    decreases end - i,
{
    if parent_fault_at(nodes, i, total) is None {
        lemma_first_parent_fault_found(nodes, total, i + 1, end);
    }
}

/// What validation means, on the node fields themselves (for trees whose node
/// count fits in a `u32`, as the GPU's `u32` child indices require). A tree
/// passes exactly when every internal node `i < n - 1` has both children
/// inside the tree (`< 2n - 1`) and both children name `i` as their parent.
/// A reported fault is real and is the first one: an invalid left child is
/// outside the tree, an invalid right child is outside while the left is
/// inside, a parent mismatch names a child whose parent is not the node, and
/// all nodes before the reported one are fine (for a parent mismatch, every
/// internal node has both children inside the tree).
pub proof fn lemma_validation_on_fields(nodes: Seq<NodeLinks>, n: usize)
    requires
        n >= 1,
        2 * n - 1 <= u32::MAX,
        2 * n - 1 <= nodes.len(),
    ensures
        tree_fault(nodes, n) is None <==> (forall|i: int|
            0 <= i < n - 1 ==> {
                &&& (#[trigger] nodes[i]).left < 2 * n - 1
                &&& nodes[i].right < 2 * n - 1
                &&& nodes[nodes[i].left as int].parent == i
                &&& nodes[nodes[i].right as int].parent == i
            }),
        tree_fault(nodes, n) matches Some(f) ==> {
            let k = fault_node(f) as int;
            &&& 0 <= k < n - 1
            &&& forall|j: int|
                0 <= j < k ==> {
                    &&& (#[trigger] nodes[j]).left < 2 * n - 1
                    &&& nodes[j].right < 2 * n - 1
                }
            &&& (f is InvalidLeftChild ==> nodes[k].left >= 2 * n - 1)
            &&& (f is InvalidRightChild ==> nodes[k].left < 2 * n - 1 && nodes[k].right >= 2 * n - 1)
            &&& (f matches TreeFault::LeftParentMismatch { node, child } ==> {
                &&& child == nodes[k].left
                &&& nodes[child as int].parent != k
                &&& forall|j: int|
                    0 <= j < n - 1 ==> (#[trigger] nodes[j]).left < 2 * n - 1 && nodes[j].right < 2 * n - 1
            })
            &&& (f matches TreeFault::RightParentMismatch { node, child } ==> {
                &&& child == nodes[k].right
                &&& nodes[k].left < 2 * n - 1
                &&& nodes[nodes[k].left as int].parent == k
                &&& nodes[child as int].parent != k
                &&& forall|j: int|
                    0 <= j < n - 1 ==> (#[trigger] nodes[j]).left < 2 * n - 1 && nodes[j].right < 2 * n - 1
            })
        },
{
    let total = (2 * n - 1) as usize;
    let leaf = n - 1;
    assert((total as u32) == total);
    assert forall|i: int| 0 <= i < leaf implies (#[trigger] (i as u32)) == i by {}
    lemma_first_link_fault_none(nodes, total, 0, leaf as int);
    lemma_first_parent_fault_none(nodes, total, 0, leaf as int);
    if first_link_fault(nodes, total, 0, leaf as int) is Some {
        lemma_first_link_fault_found(nodes, total, 0, leaf as int);
        let f = first_link_fault(nodes, total, 0, leaf as int).unwrap();
        let k = fault_node(f) as int;
        assert forall|j: int| 0 <= j < k implies (#[trigger] nodes[j]).left < 2 * n - 1 && nodes[j].right < 2
            * n - 1 by {
            assert(link_fault_at(nodes, j, total) is None);
        }
        assert(!(nodes[k].left < 2 * n - 1 && nodes[k].right < 2 * n - 1));
    } else if first_parent_fault(nodes, total, 0, leaf as int) is Some {
        lemma_first_parent_fault_found(nodes, total, 0, leaf as int);
        let f = first_parent_fault(nodes, total, 0, leaf as int).unwrap();
        let k = fault_node(f) as int;
        assert forall|j: int| 0 <= j < leaf implies (#[trigger] nodes[j]).left < 2 * n - 1 && nodes[j].right
            < 2 * n - 1 by {
            assert(link_fault_at(nodes, j, total) is None);
        }
        assert(parent_fault_at(nodes, k, total) is Some);
        assert((k as u32) == k);
    } else {
        assert forall|i: int| 0 <= i < n - 1 implies {
            &&& (#[trigger] nodes[i]).left < 2 * n - 1
            &&& nodes[i].right < 2 * n - 1
            &&& nodes[nodes[i].left as int].parent == i
            &&& nodes[nodes[i].right as int].parent == i
        } by {
            assert(link_fault_at(nodes, i, total) is None);
            assert(parent_fault_at(nodes, i, total) is None);
            assert((i as u32) == i);
        }
    }
}

/// The parent chain, on the node fields: it has at most `limit` entries, all
/// inside the tree, starts at `start`, and each entry after the first is the
/// parent of the one before it. It stops early only at the root marker or at
/// a parent outside the tree, and is empty only when `limit` is zero or
/// `start` is the root marker or outside the tree.
pub proof fn lemma_parent_chain_on_fields(nodes: Seq<NodeLinks>, start: int, total: int, limit: nat)
    requires
        0 <= start,
        total <= nodes.len(),
        total <= usize::MAX,
    ensures
        ({
            let c = parent_chain_spec(nodes, start, total, limit);
            &&& c.len() <= limit
            &&& forall|i: int| 0 <= i < c.len() ==> (#[trigger] c[i]) < total && c[i] != NO_PARENT
            &&& c.len() > 0 ==> c[0] == start
            &&& forall|i: int| 0 <= i < c.len() - 1 ==> #[trigger] c[i + 1] == nodes[c[i] as int].parent
            &&& (c.len() == 0 <==> (limit == 0 || start == NO_PARENT || start >= total))
            &&& 0 < c.len() < limit ==> (nodes[c[c.len() - 1] as int].parent == NO_PARENT
                || nodes[c[c.len() - 1] as int].parent >= total)
        }),
    decreases limit,
{
    let c = parent_chain_spec(nodes, start, total, limit);
    if limit == 0 || start == NO_PARENT as int || start >= total {
    } else if nodes[start].parent == NO_PARENT {
    } else {
        let p = nodes[start].parent as int;
        lemma_parent_chain_on_fields(nodes, p, total, (limit - 1) as nat);
        let rest = parent_chain_spec(nodes, p, total, (limit - 1) as nat);
        assert(c == seq![start as usize] + rest);
        assert forall|i: int| 0 <= i < c.len() - 1 implies #[trigger] c[i + 1] == nodes[c[i] as int].parent by {
            if i > 0 {
                assert(c[i] == rest[i - 1]);
                assert(c[i + 1] == rest[(i - 1) + 1]);
            }
        }
        if 0 < c.len() < limit {
            assert(c[c.len() - 1] == if rest.len() == 0 { start as usize } else { rest[rest.len() - 1] });
        }
    }
}

/// The referrers, on the node fields: exactly the internal nodes below `n`
/// whose left or right child is `target`, each once, in increasing order.
pub proof fn lemma_referrers_on_fields(nodes: Seq<NodeLinks>, target: usize, n: int)
    requires
        0 <= n <= nodes.len(),
        n <= usize::MAX,
    ensures
        forall|j: usize|
            #[trigger] referrers_spec(nodes, target, n).contains(j) <==> (j < n && (nodes[j as int].left
                == (target as u32) || nodes[j as int].right == (target as u32))),
        forall|a: int, b: int|
            0 <= a < b < referrers_spec(nodes, target, n).len() ==> referrers_spec(nodes, target, n)[a]
                < referrers_spec(nodes, target, n)[b],
        forall|a: int|
            0 <= a < referrers_spec(nodes, target, n).len() ==> #[trigger] referrers_spec(nodes, target, n)[a]
                < n,
    decreases n,
{
    if n > 0 {
        lemma_referrers_on_fields(nodes, target, n - 1);
        let prev = referrers_spec(nodes, target, n - 1);
        let r = referrers_spec(nodes, target, n);
        assert forall|j: usize| #[trigger] r.contains(j) <==> (j < n && (nodes[j as int].left == (target as u32)
            || nodes[j as int].right == (target as u32))) by {
            if r.contains(j) {
                let k = choose|k: int| 0 <= k < r.len() && r[k] == j;
                if k < prev.len() {
                    assert(prev.contains(j));
                }
            }
            if j < n && (nodes[j as int].left == (target as u32) || nodes[j as int].right == (target as u32)) {
                if j < n - 1 {
                    assert(prev.contains(j));
                    let k = choose|k: int| 0 <= k < prev.len() && prev[k] == j;
                    assert(r[k] == j);
                } else {
                    assert(r[r.len() - 1] == j);
                }
            }
        }
    }
}

/// Checks the links of a tree over `num_particles` particles: first that every
/// internal node's children lie inside the tree, then that every child inside
/// the tree points back to its parent. Returns the first fault found.
pub fn validate_tree(nodes: &Vec<NodeLinks>, num_particles: usize) -> (r: Result<(), TreeFault>)
    requires
        num_particles >= 1,
        2 * num_particles <= usize::MAX,
        2 * num_particles - 1 <= nodes.len(),
    ensures
        r == (match tree_fault(nodes@, num_particles) {
            Some(f) => Err(f),
            None => Ok(()),
        }),
        r is Ok <==> links_consistent(nodes@, num_particles),
{
    proof {
        lemma_no_fault_iff_consistent(nodes@, num_particles);
    }
    let total_nodes: usize = 2 * num_particles - 1;
    let leaf_offset: usize = num_particles - 1;
    let ghost s = nodes@;

    let mut i: usize = 0;
    while i < leaf_offset
        invariant
            0 <= i <= leaf_offset,
            leaf_offset == num_particles - 1,
            total_nodes == 2 * num_particles - 1,
            total_nodes <= nodes.len(),
            s == nodes@,
            first_link_fault(s, total_nodes, 0, leaf_offset as int) == first_link_fault(
                s,
                total_nodes,
                i as int,
                leaf_offset as int,
            ),
        decreases leaf_offset - i,
    {
        let node = nodes[i];
        if node.left >= total_nodes as u32 {
            return Err(TreeFault::InvalidLeftChild { node: i });
        }
        if node.right >= total_nodes as u32 {
            return Err(TreeFault::InvalidRightChild { node: i });
        }
        i += 1;
    }

    let mut i: usize = 0;
    while i < leaf_offset
        invariant
            0 <= i <= leaf_offset,
            leaf_offset == num_particles - 1,
            total_nodes == 2 * num_particles - 1,
            total_nodes <= nodes.len(),
            s == nodes@,
            first_link_fault(s, total_nodes, 0, leaf_offset as int) is None,
            first_parent_fault(s, total_nodes, 0, leaf_offset as int) == first_parent_fault(
                s,
                total_nodes,
                i as int,
                leaf_offset as int,
            ),
        decreases leaf_offset - i,
    {
        let left = nodes[i].left as usize;
        let right = nodes[i].right as usize;
        if left < total_nodes && nodes[left].parent != i as u32 {
            return Err(TreeFault::LeftParentMismatch { node: i, child: left });
        }
        if right < total_nodes && nodes[right].parent != i as u32 {
            return Err(TreeFault::RightParentMismatch { node: i, child: right });
        }
        i += 1;
    }
    Ok(())
}

/// Walks upwards from `start` along parent pointers and collects the visited
/// nodes, stopping at the root marker, at an index outside the tree, after a
/// node whose parent is the root marker, or after `limit` nodes.
pub fn parent_chain(nodes: &Vec<NodeLinks>, start: usize, total_nodes: usize, limit: usize) -> (chain:
    Vec<usize>)
    requires
        total_nodes <= nodes.len(),
    ensures
        chain@ == parent_chain_spec(nodes@, start as int, total_nodes as int, limit as nat),
{
    let ghost target = parent_chain_spec(nodes@, start as int, total_nodes as int, limit as nat);
    let mut chain: Vec<usize> = Vec::new();
    let mut cur: usize = start;
    let mut steps: usize = limit;
    let mut done = false;
    while !done && steps > 0 && cur != NO_PARENT as usize && cur < total_nodes
        invariant
            total_nodes <= nodes.len(),
            target == parent_chain_spec(nodes@, start as int, total_nodes as int, limit as nat),
            done ==> chain@ == target,
            !done ==> chain@ + parent_chain_spec(nodes@, cur as int, total_nodes as int, steps as nat)
                == target,
        decreases steps * 2 + if done { 0int } else { 1int },
    {
        let ghost before = chain@;
        let ghost old_cur = cur;
        let ghost old_steps = steps;
        chain.push(cur);
        let p = nodes[cur].parent;
        if p == NO_PARENT {
            done = true;
            assert(chain@ == before + seq![old_cur]);
        } else {
            cur = p as usize;
            steps -= 1;
            assert(parent_chain_spec(nodes@, old_cur as int, total_nodes as int, old_steps as nat)
                == seq![old_cur] + parent_chain_spec(nodes@, cur as int, total_nodes as int, steps as nat));
            assert(before + (seq![old_cur] + parent_chain_spec(nodes@, cur as int, total_nodes as int, steps as nat))
                == chain@ + parent_chain_spec(nodes@, cur as int, total_nodes as int, steps as nat));
        }
    }
    if !done {
        assert(parent_chain_spec(nodes@, cur as int, total_nodes as int, steps as nat) == Seq::<usize>::empty());
        assert(chain@ + Seq::<usize>::empty() == chain@);
    }
    chain
}

/// The internal nodes among `0..leaf_offset` whose left or right child is `target`.
pub fn nodes_with_child(nodes: &Vec<NodeLinks>, target: usize, leaf_offset: usize) -> (found: Vec<usize>)
    requires
        leaf_offset <= nodes.len(),
    ensures
        found@ == referrers_spec(nodes@, target, leaf_offset as int),
{
    let mut found: Vec<usize> = Vec::new();
    let mut j: usize = 0;
    while j < leaf_offset
        invariant
            j <= leaf_offset <= nodes.len(),
            found@ == referrers_spec(nodes@, target, j as int),
        decreases leaf_offset - j,
    {
        if nodes[j].left == target as u32 || nodes[j].right == target as u32 {
            found.push(j);
        } else {
            assert(found@ + Seq::<usize>::empty() == found@);
        }
        j += 1;
    }
    found
}

/// Validates the tree as `validate_tree` does; on a fault it also reports the
/// parent chain of the faulty node (at most `total_nodes` entries) and, for an
/// invalid left child, the internal nodes that name the faulty node as a child.
pub fn validate_and_trace(nodes: &Vec<NodeLinks>, num_particles: usize) -> (r: Result<(), TreeDiagnosis>)
    requires
        num_particles >= 1,
        2 * num_particles <= usize::MAX,
        2 * num_particles - 1 <= nodes.len(),
    ensures
        r is Ok <==> tree_fault(nodes@, num_particles) is None,
        r is Ok <==> links_consistent(nodes@, num_particles),
        r matches Err(d) ==> {
            let total = 2 * num_particles - 1;
            let leaf = num_particles - 1;
            let node = match d.fault {
                TreeFault::InvalidLeftChild { node } => node,
                TreeFault::InvalidRightChild { node } => node,
                TreeFault::LeftParentMismatch { node, .. } => node,
                TreeFault::RightParentMismatch { node, .. } => node,
            };
            &&& tree_fault(nodes@, num_particles) == Some(d.fault)
            &&& d.chain@ == parent_chain_spec(nodes@, node as int, total, total as nat)
            &&& d.referrers@ == if d.fault is InvalidLeftChild {
                referrers_spec(nodes@, node, leaf)
            } else {
                Seq::empty()
            }
        },
{
    let total_nodes: usize = 2 * num_particles - 1;
    let leaf_offset: usize = num_particles - 1;
    match validate_tree(nodes, num_particles) {
        Ok(()) => Ok(()),
        Err(fault) => {
            let node = match fault {
                TreeFault::InvalidLeftChild { node } => node,
                TreeFault::InvalidRightChild { node } => node,
                TreeFault::LeftParentMismatch { node, .. } => node,
                TreeFault::RightParentMismatch { node, .. } => node,
            };
            let chain = parent_chain(nodes, node, total_nodes, total_nodes);
            let referrers = match fault {
                TreeFault::InvalidLeftChild { .. } => nodes_with_child(nodes, node, leaf_offset),
                _ => Vec::new(),
            };
            Err(TreeDiagnosis { fault, chain, referrers })
        },
    }
}

} // verus!
