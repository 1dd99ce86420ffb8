use atomics_locks::rwlock::{read_step, write_sleep_decision, write_step, ReadStep, RwLock, WriteStep};

#[test]
fn readers_share_and_observe_the_same_value() {
    // Three readers at once: all read through the live guard and see the
    // same unmodified value.
    let lock = RwLock::new(String::from("shared"));
    let mut guard = lock.read();
    guard.join();
    guard.join();
    assert_eq!(*guard.get(), "shared");
    assert_eq!(*guard.get(), "shared");
    guard.leave();
    guard.leave();
    let (lock, woke_writer) = guard.unlock();
    assert!(!woke_writer);
    let guard = lock.read();
    assert_eq!(*guard.get(), "shared");
}

#[test]
fn writer_excludes_readers_and_updates_alone() {
    let lock = RwLock::new(0u32);
    let mut guard = lock.write();
    *guard.get_mut() = 9;
    assert_eq!(*guard.get(), 9);
    let lock = guard.unlock();
    let guard = lock.read();
    assert_eq!(*guard.get(), 9);
}

#[test]
fn waiting_writer_blocks_new_readers_and_is_woken_by_the_last_reader() {
    // A reader holds the lock while a writer arrives: the writer registers
    // (flipping the word odd), new readers are held back from then on, the
    // departing last reader wakes the writer, and the writer then acquires.
    let lock = RwLock::new(5u64);
    let mut guard = lock.read();

    // The writer's first iteration against one reader: register, not acquire.
    match write_step(2) {
        WriteStep::Register { next } => assert_eq!(next, 3),
        _ => panic!("a writer must register against a held word"),
    }
    guard.register_writer();

    // A reader arriving now is sent to sleep rather than admitted.
    match read_step(3) {
        ReadStep::Sleep { observed } => assert_eq!(observed, 3),
        ReadStep::Join { .. } => panic!("a reader must not join past a waiting writer"),
    }

    // The registered writer does not sleep on a word above two: it retries.
    assert!(matches!(write_step(3), WriteStep::Stand));
    assert!(!write_sleep_decision(3));

    // The last reader leaves: the writer is owed a wake.
    let (lock, woke_writer) = guard.unlock();
    assert!(woke_writer);

    // The writer's next iteration acquires.
    assert!(matches!(write_step(1), WriteStep::Acquire));
    let mut guard = lock.write();
    *guard.get_mut() = 6;
    let lock = guard.unlock();
    let guard = lock.read();
    assert_eq!(*guard.get(), 6);
}

#[test]
fn reader_steps_join_by_two_and_sleep_on_odd_words() {
    match read_step(0) {
        ReadStep::Join { next } => assert_eq!(next, 2),
        ReadStep::Sleep { .. } => panic!("a free lock must admit a reader"),
    }
    match read_step(4) {
        ReadStep::Join { next } => assert_eq!(next, 6),
        ReadStep::Sleep { .. } => panic!("an even word must admit a reader"),
    }
    assert!(matches!(read_step(1), ReadStep::Sleep { .. }));
    assert!(matches!(read_step(u32::MAX), ReadStep::Sleep { .. }));
    // The largest admissible reader population still joins by two.
    match read_step(u32::MAX - 3) {
        ReadStep::Join { next } => assert_eq!(next, u32::MAX - 1),
        ReadStep::Sleep { .. } => panic!("an even word must admit a reader"),
    }
}

#[test]
fn writer_steps_acquire_only_a_readerless_word() {
    assert!(matches!(write_step(0), WriteStep::Acquire));
    assert!(matches!(write_step(1), WriteStep::Acquire));
    match write_step(6) {
        WriteStep::Register { next } => assert_eq!(next, 7),
        _ => panic!("a writer must register against readers"),
    }
    assert!(matches!(write_step(7), WriteStep::Stand));
    // Against the write-locked sentinel a second writer has nothing to
    // change either.
    assert!(matches!(write_step(u32::MAX), WriteStep::Stand));
    assert!(write_sleep_decision(2));
    assert!(!write_sleep_decision(4));
}
