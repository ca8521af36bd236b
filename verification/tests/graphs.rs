use shared_prims::graph::Node;
use shared_prims::graph::add_child;
use shared_prims::graph::release;
use shared_prims::graph::set_parent;
use shared_prims::region::Region;

#[test]
fn a_retained_strong_cycle_is_never_freed() {
    let mut region: Region<Node> = Region::new();
    let a = region.create(Node::leaf(1));
    let b = region.create(Node::leaf(2));

    // Mutually-referencing strong edges: a owns b, b owns a.
    let a_edge = region.clone_strong(&a);
    let b_edge = region.clone_strong(&b);
    add_child(&mut region, &a, b_edge);
    add_child(&mut region, &b, a_edge);

    let wa = region.downgrade(&a);
    let wb = region.downgrade(&b);

    // Dropping both external handles leaves the cycle holding itself alive.
    release(&mut region, a);
    release(&mut region, b);
    assert_eq!(region.counts_of_weak(&wa), (1, 1));
    assert_eq!(region.counts_of_weak(&wb), (1, 1));
    let still_there = region.upgrade(&wa).unwrap();
    assert_eq!(region.get(&still_there).value, 1);
    release(&mut region, still_there);
    region.drop_weak(wa);
    region.drop_weak(wb);
}

#[test]
fn a_weak_parent_edge_makes_the_pair_collectible() {
    let mut region: Region<Node> = Region::new();
    let parent = region.create(Node::leaf(10));
    let child = region.create(Node::leaf(20));
    let child_index = child.index();
    let parent_index = parent.index();

    // Parent owns the child; the child only observes the parent.
    let child_ref = region.clone_strong(&child);
    let up_edge = region.downgrade(&parent);
    set_parent(&mut region, &child, up_edge);
    add_child(&mut region, &parent, child);

    // External observers, to watch the teardown from outside.
    let watch_parent = region.downgrade(&parent);
    let watch_child = region.downgrade(&child_ref);

    // Give the child's record back its single owner: the parent's edge.
    release(&mut region, child_ref);
    assert_eq!(region.counts_of_weak(&watch_child), (1, 1));

    // Dropping the external root frees both nodes.
    release(&mut region, parent);
    assert!(region.upgrade(&watch_parent).is_none());
    assert!(region.upgrade(&watch_child).is_none());
    assert_eq!(region.counts_of_weak(&watch_parent), (0, 1));
    assert_eq!(region.counts_of_weak(&watch_child), (0, 1));
    region.drop_weak(watch_parent);
    region.drop_weak(watch_child);
    assert!(region.reclaimed(parent_index));
    assert!(region.reclaimed(child_index));
}

#[test]
fn a_long_chain_is_torn_down_iteratively() {
    let mut region: Region<Node> = Region::new();
    let mut head = region.create(Node::leaf(0));
    for value in 1..2000 {
        let new_head = region.create(Node::leaf(value));
        add_child(&mut region, &new_head, head);
        head = new_head;
    }
    let watch = region.downgrade(&head);
    release(&mut region, head);
    assert!(region.upgrade(&watch).is_none());
    region.drop_weak(watch);
}

#[test]
fn releasing_one_of_two_owners_destroys_nothing() {
    let mut region: Region<Node> = Region::new();
    let a = region.create(Node::leaf(7));
    let a2 = region.clone_strong(&a);
    release(&mut region, a2);
    assert_eq!(region.strong_count(&a), 1);
    assert_eq!(region.get(&a).value, 7);
    release(&mut region, a);
}
