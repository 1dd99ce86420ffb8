use atomics_locks::spinlock::{Guard, SpinLock};

#[test]
fn spinlock_guards_the_value() {
    let lock = SpinLock::new(3u32);
    let mut guard = lock.lock();
    assert_eq!(*guard.get(), 3);
    *guard.get_mut() += 1;
    let lock = guard.unlock();
    let guard = lock.lock();
    assert_eq!(*guard.get(), 4);
}

#[test]
fn acquire_swap_reports_the_prior_flag() {
    let mut lock = SpinLock::new(());
    // The first swap acquires; the second observes the flag already set and
    // must keep spinning.
    assert!(lock.try_lock());
    assert!(!lock.try_lock());
    lock.unlock();
    assert!(lock.try_lock());
}

#[test]
fn guard_over_a_held_lock() {
    let mut lock = SpinLock::new(String::from("hello world"));
    assert!(lock.try_lock());
    let guard = Guard::new(lock);
    assert_eq!(*guard.get(), "hello world");
    let lock = guard.unlock();
    let guard = lock.lock();
    assert_eq!(*guard.get(), "hello world");
}
