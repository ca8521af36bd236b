use shared_prims::errors::Failure;
use shared_prims::task::ThreadHandle;

#[test]
fn a_completed_task_joins_with_its_value() {
    let mut handle: ThreadHandle<u32> = ThreadHandle::started();
    assert!(!handle.is_finished());
    handle.complete(17);
    assert!(handle.is_finished());
    assert_eq!(handle.join(), Ok(17));
}

#[test]
fn a_failed_task_joins_with_the_captured_failure() {
    let mut handle: ThreadHandle<String> = ThreadHandle::started();
    handle.fail(Failure);
    assert!(handle.is_finished());
    assert_eq!(handle.join(), Err(Failure));
}
