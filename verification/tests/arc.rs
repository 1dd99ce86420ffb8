use atomics_locks::arc::{Arc, DowngradeStep, Weak, WEAK_LOCKED};
use atomics_locks::arc::{downgrade_step, upgrade_step, weak_lock_step};
use atomics_locks::spinlock::SpinLock;

#[test]
fn arc_payload_destroyed_once_after_last_release() {
    // Two strong handles to one payload: the payload is handed back by the
    // second (last) release, and only by it.
    let (first, mut data) = Arc::new("hello world");
    let second = first.clone(&mut data);

    assert_eq!(*Arc::get(&first, &data), "hello world");
    assert_eq!(*Arc::get(&second, &data), "hello world");

    let destroyed = first.release(&mut data);
    assert!(destroyed.is_none());

    let destroyed = second.release(&mut data);
    assert_eq!(destroyed, Some("hello world"));
}

#[test]
fn weak_handles_fail_to_upgrade_after_last_strong_release() {
    // Downgrade twice, drop the only strong handle: the payload is destroyed
    // exactly once and both weak handles then fail to upgrade.
    let (strong, mut data) = Arc::new(7u64);
    let weak1 = Arc::downgrade(&strong, &mut data);
    let weak2 = Arc::downgrade(&strong, &mut data);

    let destroyed = strong.release(&mut data);
    assert_eq!(destroyed, Some(7));

    assert!(weak1.upgrade(&mut data).is_none());
    assert!(weak2.upgrade(&mut data).is_none());

    let freed = weak1.release(&mut data);
    assert!(!freed);
    let freed = weak2.release(&mut data);
    assert!(freed);
}

#[test]
fn upgrade_succeeds_while_a_strong_handle_exists() {
    let (strong, mut data) = Arc::new(String::from("payload"));
    let weak = Arc::downgrade(&strong, &mut data);

    let upgraded = weak.upgrade(&mut data);
    assert!(upgraded.is_some());

    assert_eq!(*Arc::get(&strong, &data), "payload");

    assert!(upgraded.unwrap().release(&mut data).is_none());
    assert!(!weak.release(&mut data));
    assert_eq!(strong.release(&mut data), Some(String::from("payload")));
}

#[test]
fn get_mut_grants_access_only_to_the_unique_handle() {
    let (mut strong, mut data) = Arc::new(1u32);

    // Unique strong handle, no weak handle: exclusive access is granted.
    {
        let exclusive = Arc::get_mut(&mut strong, &mut data);
        assert!(exclusive.is_some());
        *exclusive.unwrap() = 2;
    }
    assert_eq!(*Arc::get(&strong, &data), 2);

    // A second strong handle forbids it.
    let second = strong.clone(&mut data);
    assert!(Arc::get_mut(&mut strong, &mut data).is_none());
    assert!(second.release(&mut data).is_none());

    // An independent weak handle forbids it too.
    let weak = Arc::downgrade(&strong, &mut data);
    assert!(Arc::get_mut(&mut strong, &mut data).is_none());
    assert!(!weak.release(&mut data));

    // Alone again: granted again.
    assert!(Arc::get_mut(&mut strong, &mut data).is_some());
    assert_eq!(strong.release(&mut data), Some(2));
}

#[test]
fn weak_clone_counts_an_extra_unit() {
    let (strong, mut data) = Arc::new(0u8);
    let weak1 = Arc::downgrade(&strong, &mut data);
    let weak2 = weak1.clone(&mut data);

    assert_eq!(strong.release(&mut data), Some(0));
    assert!(!weak1.release(&mut data));
    assert!(weak2.release(&mut data));
}

#[test]
fn downgrade_retries_while_the_exclusivity_check_holds_the_sentinel() {
    // The weak-count steps underneath get_mut and downgrade: the advisory
    // lock is taken only from a count of one, and while the sentinel is held
    // a downgrade makes no progress.
    assert!(weak_lock_step(1));
    assert!(!weak_lock_step(2));
    assert!(matches!(downgrade_step(WEAK_LOCKED), DowngradeStep::Retry));
    match downgrade_step(1) {
        DowngradeStep::Store { next } => assert_eq!(next, 2),
        DowngradeStep::Retry => panic!("a free weak count must admit the downgrade"),
    }
}

#[test]
fn upgrade_step_fails_exactly_on_zero() {
    assert_eq!(upgrade_step(0), None);
    assert_eq!(upgrade_step(1), Some(2));
    assert_eq!(upgrade_step(41), Some(42));
    // The largest admissible count still steps up by one.
    assert_eq!(upgrade_step(usize::MAX - 1), Some(usize::MAX));
}

#[test]
fn weak_type_is_nameable() {
    // The weak handle type can be held and passed like any other value.
    let (strong, mut data) = Arc::new(5i32);
    let weak: Weak<i32> = Arc::downgrade(&strong, &mut data);
    assert!(weak.upgrade(&mut data).unwrap().release(&mut data).is_none());
    assert!(!weak.release(&mut data));
    assert_eq!(strong.release(&mut data), Some(5));
}

#[test]
fn shared_spinlock_behind_strong_handles() {
    // A lock shared through strong handles: while any handle besides the
    // current one exists, exclusive access to the allocation is refused, and
    // updates go through the lock's guard instead.
    let (mut parent, mut data) = Arc::new(SpinLock::new(0u32));
    let child = parent.clone(&mut data);
    assert!(Arc::get_mut(&mut parent, &mut data).is_none());

    // The payload is one lock for all handles: update it under the guard.
    let exclusive = {
        assert!(child.release(&mut data).is_none());
        Arc::get_mut(&mut parent, &mut data)
    };
    let lock = exclusive.expect("the last handle must be granted exclusive access");
    let mut guard = std::mem::replace(lock, SpinLock::new(0)).lock();
    *guard.get_mut() = 41;
    *lock = guard.unlock();

    let destroyed = parent.release(&mut data);
    let lock = destroyed.expect("the last release must hand the payload back");
    let guard = lock.lock();
    assert_eq!(*guard.get(), 41);
}
