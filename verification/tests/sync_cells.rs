use shared_prims::sync_cell::SyncMutableCell;
use shared_prims::sync_cell::run_scheduled_increments;

#[test]
fn try_lock_reports_contention_without_blocking() {
    let mut cell = SyncMutableCell::new(3u32);
    let guard = cell.try_lock().ok().unwrap();
    assert!(!guard.poisoned());
    assert!(cell.try_lock().is_err());
    assert_eq!(*cell.read(&guard), 3);
    cell.write(&guard, 4);
    assert_eq!(cell.release(guard), None);
    assert!(!cell.is_locked());
    let again = cell.try_lock().ok().unwrap();
    assert_eq!(*cell.read(&again), 4);
    cell.release(again);
}

#[test]
fn waiters_are_woken_in_arrival_order() {
    let mut cell = SyncMutableCell::new(0u8);
    let guard = cell.try_lock().ok().unwrap();
    assert!(cell.lock_or_enqueue(7).is_err());
    assert!(cell.lock_or_enqueue(8).is_err());
    assert_eq!(cell.waiting(), 2);
    // Each release wakes exactly one waiter: the one that arrived first.
    assert_eq!(cell.release(guard), Some(7));
    let woken = cell.lock_or_enqueue(7).ok().unwrap();
    assert_eq!(cell.release(woken), Some(8));
    assert_eq!(cell.waiting(), 0);
}

#[test]
fn a_failed_holder_poisons_the_cell_but_access_is_still_granted() {
    let mut cell = SyncMutableCell::new(1u64);
    let guard = cell.try_lock().ok().unwrap();
    assert!(!guard.poisoned());
    cell.release_after_failure(guard);
    assert!(cell.is_poisoned());
    // The next holder is granted access and told about the poisoning.
    let next = cell.try_lock().ok().unwrap();
    assert!(next.poisoned());
    assert_eq!(*cell.read(&next), 1);
    cell.release(next);
}

#[test]
fn ten_workers_of_a_thousand_increments_total_exactly_ten_thousand() {
    // Round-robin interleaving: w0 w1 .. w9 w0 w1 ...
    let mut round_robin = Vec::new();
    for _ in 0..1000 {
        for worker in 0..10 {
            round_robin.push(worker);
        }
    }
    assert_eq!(run_scheduled_increments(10, 1000, &round_robin), Some(10000));

    // A lopsided interleaving reaches exactly the same total.
    let mut lopsided = Vec::new();
    for worker in (0..10).rev() {
        for _ in 0..1000 {
            lopsided.push(worker);
        }
        lopsided.push(3);
        lopsided.push(14);
    }
    assert_eq!(run_scheduled_increments(10, 1000, &lopsided), Some(10000));
}

#[test]
fn an_incomplete_schedule_reports_no_total() {
    // Worker 1 is scheduled only once of the two times it needs.
    let schedule = vec![0, 0, 1];
    assert_eq!(run_scheduled_increments(2, 2, &schedule), None);
    assert_eq!(run_scheduled_increments(2, 2, &vec![0, 0, 1, 1]), Some(4));
    assert_eq!(run_scheduled_increments(0, 5, &Vec::new()), Some(0));
}
