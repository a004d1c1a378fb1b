use nbody_sim::tree_check::{
    nodes_with_child, parent_chain, validate_and_trace, validate_tree, NodeLinks, TreeFault, NO_PARENT,
};

fn node(left: u32, right: u32, parent: u32, is_leaf: u32) -> NodeLinks {
    NodeLinks { left, right, parent, is_leaf }
}

/// A valid tree over 4 particles: internal nodes 0..3, leaves 3..7.
///        0
///      /   \
///     1     2
///    / \   / \
///   3   4 5   6
fn valid_tree() -> Vec<NodeLinks> {
    vec![
        node(1, 2, NO_PARENT, 0),
        node(3, 4, 0, 0),
        node(5, 6, 0, 0),
        node(0, 0, 1, 1),
        node(0, 0, 1, 1),
        node(0, 0, 2, 1),
        node(0, 0, 2, 1),
    ]
}

#[test]
fn valid_tree_passes() {
    assert_eq!(validate_tree(&valid_tree(), 4), Ok(()));
    assert!(validate_and_trace(&valid_tree(), 4).is_ok());
}

#[test]
fn single_particle_tree_has_no_internal_nodes() {
    let nodes = vec![node(0, 0, NO_PARENT, 1)];
    assert_eq!(validate_tree(&nodes, 1), Ok(()));
}

#[test]
fn invalid_left_child_is_reported_with_trace() {
    let mut nodes = valid_tree();
    nodes[2].left = 7;
    assert_eq!(validate_tree(&nodes, 4), Err(TreeFault::InvalidLeftChild { node: 2 }));
    let d = validate_and_trace(&nodes, 4).err().unwrap();
    assert_eq!(d.fault, TreeFault::InvalidLeftChild { node: 2 });
    assert_eq!(d.chain, vec![2, 0]);
    assert_eq!(d.referrers, vec![0]);
}

#[test]
fn invalid_right_child_is_reported() {
    let mut nodes = valid_tree();
    nodes[1].right = 1000;
    assert_eq!(validate_tree(&nodes, 4), Err(TreeFault::InvalidRightChild { node: 1 }));
    let d = validate_and_trace(&nodes, 4).err().unwrap();
    assert_eq!(d.chain, vec![1, 0]);
    assert!(d.referrers.is_empty());
}

#[test]
fn range_faults_come_before_parent_faults() {
    let mut nodes = valid_tree();
    nodes[3].parent = 2;
    nodes[2].right = 9;
    assert_eq!(validate_tree(&nodes, 4), Err(TreeFault::InvalidRightChild { node: 2 }));
}

#[test]
fn left_parent_mismatch_is_reported() {
    let mut nodes = valid_tree();
    nodes[3].parent = 2;
    assert_eq!(validate_tree(&nodes, 4), Err(TreeFault::LeftParentMismatch { node: 1, child: 3 }));
}

#[test]
fn right_parent_mismatch_is_reported() {
    let mut nodes = valid_tree();
    nodes[6].parent = 0;
    assert_eq!(validate_tree(&nodes, 4), Err(TreeFault::RightParentMismatch { node: 2, child: 6 }));
    let d = validate_and_trace(&nodes, 4).err().unwrap();
    assert_eq!(d.chain, vec![2, 0]);
}

#[test]
fn parent_chain_walks_to_root() {
    let nodes = valid_tree();
    assert_eq!(parent_chain(&nodes, 6, 7, 7), vec![6, 2, 0]);
    assert_eq!(parent_chain(&nodes, 0, 7, 7), vec![0]);
    assert_eq!(parent_chain(&nodes, 9, 7, 7), Vec::<usize>::new());
}

#[test]
fn parent_chain_stops_at_limit_on_cycle() {
    let mut nodes = valid_tree();
    nodes[0].parent = 1;
    nodes[1].parent = 0;
    assert_eq!(parent_chain(&nodes, 1, 7, 5), vec![1, 0, 1, 0, 1]);
}

#[test]
fn nodes_with_child_lists_referrers() {
    let mut nodes = valid_tree();
    nodes[2].left = 4;
    assert_eq!(nodes_with_child(&nodes, 4, 3), vec![1, 2]);
    assert_eq!(nodes_with_child(&nodes, 0, 3), Vec::<usize>::new());
}
