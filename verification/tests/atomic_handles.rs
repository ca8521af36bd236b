use shared_prims::atomic::AtomicRegion;

#[test]
fn atomic_handles_follow_the_same_count_rules() {
    let mut region: AtomicRegion<u32> = AtomicRegion::new();
    let h = region.create(9);
    let h2 = region.clone_strong(&h);
    assert_eq!(region.strong_count(&h), 2);
    let w = region.downgrade(&h);
    assert_eq!(region.weak_count(&h), 1);
    assert_eq!(region.drop_strong(h2), None);
    assert_eq!(region.drop_strong(h), Some(9));
    assert!(region.upgrade(&w).is_none());
    assert_eq!(region.counts_of_weak(&w), (0, 1));
    region.drop_weak(w);
}

#[test]
fn atomic_upgrade_while_alive_succeeds() {
    let mut region: AtomicRegion<&'static str> = AtomicRegion::new();
    let h = region.create("shared");
    let w0 = region.downgrade(&h);
    let w = region.clone_weak(&w0);
    region.drop_weak(w0);
    let up = region.upgrade(&w).unwrap();
    assert!(region.strong_live(&up));
    assert_eq!(*region.get(&up), "shared");
    assert_eq!(region.drop_strong(up), None);
    assert_eq!(region.drop_strong(h), Some("shared"));
    assert!(region.weak_live(&w));
    region.drop_weak(w);
}
