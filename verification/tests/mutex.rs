use atomics_locks::mutex::{increment_locked, keep_spinning, ContendedStep, Mutex};
use atomics_locks::mutex::{LOCKED, SPIN_LIMIT, UNLOCKED};

#[test]
fn guarded_increments_lose_no_update() {
    // Four rounds of five million guarded increments each: every increment
    // happens under the lock, so the final count is exact.
    let mut mutex = Mutex::new(0u64);
    for _ in 0..4 {
        mutex = increment_locked(mutex, 5_000_000);
    }
    let guard = mutex.lock();
    assert_eq!(*guard.get(), 20_000_000);
    let (_mutex, wake) = guard.unlock();
    assert!(!wake);
}

#[test]
fn lock_protects_and_returns_the_value() {
    let mutex = Mutex::new(String::from("hello world"));
    let mut guard = mutex.lock();
    assert_eq!(*guard.get(), "hello world");
    guard.get_mut().push_str("!");
    let (mutex, wake) = guard.unlock();
    assert!(!wake);
    let guard = mutex.lock();
    assert_eq!(*guard.get(), "hello world!");
}

#[test]
fn contended_acquire_leaves_the_waiting_state_and_release_wakes() {
    // The contention handshake: the fast path fails against a held lock, the
    // contended swap records a possible sleeper, and the release of such a
    // lock owes a wake.
    let mut mutex = Mutex::new(0u32);

    assert!(mutex.try_lock());
    assert!(!mutex.try_lock());

    let step = mutex.lock_contended_step();
    assert!(matches!(step, ContendedStep::Sleep));

    let wake_one = mutex.unlock();
    assert!(wake_one);

    // On a free lock the contended swap itself acquires.
    let step = mutex.lock_contended_step();
    assert!(matches!(step, ContendedStep::Acquired));
    assert!(mutex.unlock());
}

#[test]
fn spinning_is_bounded_and_only_against_a_plain_holder() {
    assert!(keep_spinning(LOCKED, 0));
    assert!(keep_spinning(LOCKED, SPIN_LIMIT - 1));
    assert!(!keep_spinning(LOCKED, SPIN_LIMIT));
    assert!(!keep_spinning(UNLOCKED, 0));
}
