use vstd::prelude::*;
use crate::mutex::Mutex;
use crate::mutex::MutexGuard;
use crate::mutex::UNLOCKED;
use crate::mutex::LOCKED_WAITING;

verus! {

/// The notification counter advances by one on each notification, wrapping.
pub open spec fn counter_inc(c: u32) -> u32 {
    if c == u32::MAX {
        0
    } else {
        (c + 1) as u32
    }
}

/// A condition variable that composes with the mutex's guard.
///
/// State: a notification counter and a count of waiters. A waiter records
/// the counter value while it still holds the mutex, releases the mutex, and
/// sleeps while the counter still equals the recorded value; a notifier
/// advances the counter — changing the value waiters are blocked on — and
/// wakes, skipping the wake syscall when nobody waits. Recording the counter
/// before unlocking closes the race between "decide to wait" and "actually
/// sleep": a notification issued after the record and before the sleep has
/// already changed the counter, so the sleep returns at once. In a running
/// program both fields are atomics and the sleep is an OS wait keyed on the
/// counter; here the fields are plain, a wait is split at its suspension
/// point into [`CondVar::wait_begin`] and [`CondVar::wait_finish`], and the
/// sleep decision between the two is [`CondVar::wait_would_sleep`].
pub struct CondVar {
    counter: u32,
    waiters_count: usize,
}

impl CondVar {
    /// The notification counter.
    pub closed spec fn counter(self) -> u32 {
        self.counter
    }

    /// How many threads are between the begin and the end of a wait.
    pub closed spec fn waiters(self) -> usize {
        self.waiters_count
    }

    /// A new condition variable, with no notification and no waiter.
    pub fn new() -> (r: CondVar)
        ensures
            r.counter() == 0,
            r.waiters() == 0,
    {
        CondVar { counter: 0, waiters_count: 0 }
    }

    /// Notify one waiter: advance the counter and owe one wake, unless
    /// nobody waits, in which case nothing happens and the wake syscall is
    /// skipped. The result says whether one wake must be issued.
    pub fn notify_one(&mut self) -> (wake_one: bool)
        ensures
            wake_one <==> old(self).waiters() > 0,
            final(self).waiters() == old(self).waiters(),
            final(self).counter() == if wake_one {
                counter_inc(old(self).counter())
            } else {
                old(self).counter()
            },
    {
        if self.waiters_count > 0 {
            self.counter = if self.counter == u32::MAX {
                0
            } else {
                self.counter + 1
            };
            true
        } else {
            false
        }
    }

    /// Notify all waiters: advance the counter and owe a wake to every
    /// waiter, unless nobody waits. The result says whether the wake-all
    /// must be issued.
    pub fn notify_all(&mut self) -> (wake_all: bool)
        ensures
            wake_all <==> old(self).waiters() > 0,
            final(self).waiters() == old(self).waiters(),
            final(self).counter() == if wake_all {
                counter_inc(old(self).counter())
            } else {
                old(self).counter()
            },
    {
        if self.waiters_count > 0 {
            self.counter = if self.counter == u32::MAX {
                0
            } else {
                self.counter + 1
            };
            true
        } else {
            false
        }
    }

    /// The first half of a wait, up to the suspension point: register as a
    /// waiter, record the current counter value, and release the mutex. The
    /// result carries the unlocked mutex, the recorded counter value the
    /// sleep is keyed on, and whether the release must wake a thread
    /// sleeping on the mutex.
    pub fn wait_begin<T>(&mut self, guard: MutexGuard<T>) -> (r: (Mutex<T>, u32, bool))
        requires
            old(self).waiters() < usize::MAX,
        ensures
            final(self).waiters() == old(self).waiters() + 1,
            final(self).counter() == old(self).counter(),
            r.1 == old(self).counter(),
            r.0.state() == UNLOCKED,
            r.0.value() == guard.mutex_ref().value(),
            r.2 <==> guard.mutex_ref().state() == LOCKED_WAITING,
    {
        self.waiters_count = self.waiters_count + 1;
        let recorded = self.counter;
        let (mutex, wake_one) = guard.unlock();
        (mutex, recorded, wake_one)
    }

    /// The sleep decision at the suspension point: the waiter sleeps
    /// exactly while the counter still equals the value it recorded — every
    /// notification since the record has changed the counter, so none can
    /// be lost.
    pub fn wait_would_sleep(&self, recorded: u32) -> (r: bool)
        ensures
            r <==> self.counter() == recorded,
    {
        self.counter == recorded
    }

    /// The second half of a wait, after the suspension point: deregister as
    /// a waiter and re-acquire the mutex, handing a fresh guard back.
    pub fn wait_finish<T>(&mut self, mutex: Mutex<T>) -> (g: MutexGuard<T>)
        requires
            old(self).waiters() >= 1,
            mutex.state() == UNLOCKED,
        ensures
            final(self).waiters() == old(self).waiters() - 1,
            final(self).counter() == old(self).counter(),
            g.wf(),
            g.mutex_ref().value() == mutex.value(),
    {
        self.waiters_count = self.waiters_count - 1;
        mutex.lock()
    }
}

impl Default for CondVar {
    /// The same as [`CondVar::new`].
    fn default() -> (r: CondVar)
        ensures
            r.counter() == 0,
            r.waiters() == 0,
    {
        CondVar::new()
    }
}

/// No lost wakeup: advancing the counter never leaves it equal to a
/// recorded value, so a notification issued after a waiter recorded the
/// counter — and before or during its sleep — is sure to end that sleep.
pub proof fn lemma_notification_ends_sleep(recorded: u32)
    ensures
        counter_inc(recorded) != recorded,
{
}

} // verus!
