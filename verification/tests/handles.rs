use shared_prims::cell::MutableCell;
use shared_prims::region::Region;

#[test]
fn clone_n_then_drop_n_keeps_payload_alive() {
    let mut region: Region<u32> = Region::new();
    let first = region.create(41);
    let mut clones = Vec::new();
    for _ in 0..5 {
        clones.push(region.clone_strong(&first));
    }
    assert_eq!(region.strong_count(&first), 6);
    for h in clones {
        assert_eq!(region.drop_strong(h), None);
    }
    assert_eq!(region.strong_count(&first), 1);
    assert_eq!(*region.get(&first), 41);
    assert_eq!(region.drop_strong(first), Some(41));
}

#[test]
fn last_strong_drop_destroys_payload_and_weaks_only_keep_the_record() {
    let mut region: Region<String> = Region::new();
    let h = region.create(String::from("payload"));
    let index = h.index();
    let w1 = region.downgrade(&h);
    let w2 = region.clone_weak(&w1);
    assert_eq!(region.weak_count(&h), 2);

    // Dropping the last strong handle destroys the payload immediately.
    assert_eq!(region.drop_strong(h), Some(String::from("payload")));

    // Every upgrade from now on reports the payload absent.
    assert!(region.upgrade(&w1).is_none());
    assert!(region.upgrade(&w2).is_none());
    assert_eq!(region.counts_of_weak(&w1), (0, 2));

    // The record itself survives until the weak observers are gone too.
    region.drop_weak(w1);
    assert!(!region.reclaimed(index));
    assert_eq!(region.counts_of_weak(&w2), (0, 1));
    region.drop_weak(w2);
    assert!(region.reclaimed(index));
}

#[test]
fn upgrade_while_alive_hands_out_a_real_owner() {
    let mut region: Region<i64> = Region::new();
    let h = region.create(-7);
    let w = region.downgrade(&h);
    let up = region.upgrade(&w).unwrap();
    assert_eq!(region.strong_count(&h), 2);
    assert_eq!(*region.get(&up), -7);
    assert_eq!(region.drop_strong(h), None);
    assert_eq!(region.drop_strong(up), Some(-7));
    region.drop_weak(w);
}

#[test]
fn records_are_independent() {
    let mut region: Region<u8> = Region::new();
    let a = region.create(1);
    let b = region.create(2);
    let _ = region.clone_strong(&a);
    assert_eq!(region.strong_count(&a), 2);
    assert_eq!(region.strong_count(&b), 1);
    assert_eq!(region.record_count(), 2);
    assert_eq!(region.drop_strong(b), Some(2));
    assert_eq!(region.strong_count(&a), 2);
}

#[test]
fn shared_owners_around_a_cell_can_all_mutate() {
    // The single-threaded composition from the overview: counted handles
    // around a borrow-checked cell.
    let mut region: Region<MutableCell<u32>> = Region::new();
    let first = region.create(MutableCell::new(0));
    let second = region.clone_strong(&first);

    let guard = region.get_mut(&second).borrow_exclusive().ok().unwrap();
    region.get_mut(&second).write(&guard, 42);
    region.get_mut(&second).release_exclusive(guard);

    let read = region.get_mut(&first).borrow_shared().ok().unwrap();
    assert_eq!(*region.get(&first).read(&read), 42);
    region.get_mut(&first).release_shared(read);

    assert!(region.drop_strong(second).is_none());
    assert!(region.drop_strong(first).is_some());
}

#[test]
fn payload_can_be_edited_in_place() {
    let mut region: Region<Vec<u8>> = Region::new();
    let h = region.create(vec![1, 2]);
    region.get_mut(&h).push(3);
    assert_eq!(*region.get(&h), vec![1, 2, 3]);
}
