use vstd::prelude::*;

verus! {

/// The mutex state word: no thread holds the lock.
pub const UNLOCKED: u32 = 0;

/// The mutex state word: one thread holds the lock and no thread sleeps on it.
pub const LOCKED: u32 = 1;

/// The mutex state word: one thread holds the lock and at least one thread
/// may be sleeping on it, so the releasing thread must issue a wake.
pub const LOCKED_WAITING: u32 = 2;

/// How many times a contending thread re-reads the word before it gives up
/// spinning and goes to sleep.
pub const SPIN_LIMIT: u32 = 100;

/// A blocking mutual-exclusion lock built on a three-state word.
///
/// The three states exist so that a releasing thread can tell "someone may be
/// sleeping, wake one" apart from "nobody sleeps, skip the wake". In a
/// running program the word lives in an atomic and contending threads sleep
/// on an OS wait/wake primitive; here the word is a plain field, each atomic
/// step of the acquire and release paths is a function with an exact
/// contract, and holding the lock is represented by ownership of a
/// [`MutexGuard`].
pub struct Mutex<T> {
    state: u32,
    value: T,
}

/// Exclusive access to a mutex's value; its existence means the lock is held,
/// and giving it up is the only way to unlock.
pub struct MutexGuard<T> {
    mutex: Mutex<T>,
}

/// What one iteration of the contended acquire path decides after it has
/// swapped the state word to [`LOCKED_WAITING`].
pub enum ContendedStep {
    /// The swap read [`UNLOCKED`]: the lock is now held by this thread.
    Acquired,
    /// The swap read a locked state: sleep while the word still reads
    /// [`LOCKED_WAITING`], then retry.
    Sleep,
}

/// The word values a mutex can hold.
pub open spec fn state_valid(s: u32) -> bool {
    s == UNLOCKED || s == LOCKED || s == LOCKED_WAITING
}

/// Whether an acquire step — the fast compare-and-set as much as the
/// contended swap — succeeds against the observed word: only against the
/// unlocked one.
pub open spec fn acquires_lock(s: u32) -> bool {
    s == UNLOCKED
}

impl<T> Mutex<T> {
    /// The state word.
    pub closed spec fn state(self) -> u32 {
        self.state
    }

    /// The protected value.
    pub closed spec fn value(self) -> T {
        self.value
    }

    /// The state word only ever holds one of its three encodings.
    pub open spec fn wf(self) -> bool {
        state_valid(self.state())
    }

    /// A new, unlocked mutex around `value`.
    pub fn new(value: T) -> (r: Mutex<T>)
        ensures
            r.wf(),
            r.state() == UNLOCKED,
            r.value() == value,
    {
        Mutex { state: UNLOCKED, value }
    }

    /// The fast path of `lock`: one compare-and-set of
    /// [`UNLOCKED`] to [`LOCKED`]. It succeeds exactly if no thread held the
    /// lock, and changes nothing otherwise.
    pub fn try_lock(&mut self) -> (acquired: bool)
        ensures
            acquired == acquires_lock(old(self).state()),
            final(self).state() == if acquired { LOCKED } else { old(self).state() },
            final(self).value() == old(self).value(),
            old(self).wf() ==> final(self).wf(),
    {
        if self.state == UNLOCKED {
            self.state = LOCKED;
            true
        } else {
            false
        }
    }

    /// Acquire the lock. A thread that finds the lock held sleeps until the
    /// holder releases it; no thread can do that here, so the lock is
    /// required to be free (a thread re-acquiring a lock it already holds
    /// deadlocks — that is a documented constraint of the design).
    pub fn lock(self) -> (g: MutexGuard<T>)
        requires
            self.state() == UNLOCKED,
        ensures
            g.mutex_ref().wf(),
            g.mutex_ref().state() == LOCKED,
            g.mutex_ref().value() == self.value(),
    {
        let mut mutex = self;
        let acquired = mutex.try_lock();
        assert(acquired);
        MutexGuard { mutex }
    }

    /// One iteration of the contended acquire path: swap the word to
    /// [`LOCKED_WAITING`]. The lock is acquired exactly if the swap read
    /// [`UNLOCKED`]; otherwise the thread must sleep and retry. Every thread
    /// past the fast path pessimistically leaves the "wake me" state behind,
    /// so a release while it sleeps is sure to issue a wake.
    pub fn lock_contended_step(&mut self) -> (r: ContendedStep)
        ensures
            final(self).state() == LOCKED_WAITING,
            final(self).value() == old(self).value(),
            r is Acquired <==> acquires_lock(old(self).state()),
            final(self).wf(),
    {
        let previous = self.state;
        self.state = LOCKED_WAITING;
        if previous == UNLOCKED {
            ContendedStep::Acquired
        } else {
            ContendedStep::Sleep
        }
    }

    /// Release the lock: swap the word back to [`UNLOCKED`]. The result says
    /// whether a wake must be issued, which is the case exactly if the prior
    /// word was [`LOCKED_WAITING`] — i.e. some thread may be sleeping.
    pub fn unlock(&mut self) -> (wake_one: bool)
        ensures
            final(self).state() == UNLOCKED,
            final(self).value() == old(self).value(),
            wake_one <==> old(self).state() == LOCKED_WAITING,
            final(self).wf(),
    {
        let previous = self.state;
        self.state = UNLOCKED;
        previous == LOCKED_WAITING
    }
}

/// Whether the contended path keeps spinning before its next compare-and-set:
/// only while the word reads [`LOCKED`] (a holder but nobody sleeping, so a
/// cheap retry may win without a syscall) and the bounded spin budget is not
/// spent.
pub fn keep_spinning(s: u32, spin_count: u32) -> (r: bool)
    ensures
        r <==> (s == LOCKED && spin_count < SPIN_LIMIT),
{
    s == LOCKED && spin_count < SPIN_LIMIT
}

impl<T> MutexGuard<T> {
    /// The mutex this guard holds.
    pub closed spec fn mutex_ref(self) -> Mutex<T> {
        self.mutex
    }

    /// A guard exists only over a mutex that is locked.
    pub open spec fn wf(self) -> bool {
        self.mutex_ref().wf() && self.mutex_ref().state() != UNLOCKED
    }

    /// Shared access to the protected value.
    pub fn get(&self) -> (r: &T)
        ensures
            *r == self.mutex_ref().value(),
    {
        &self.mutex.value
    }

    /// Exclusive access to the protected value.
    pub fn get_mut(&mut self) -> (r: &mut T)
        ensures
            *r == old(self).mutex_ref().value(),
            final(self).mutex_ref().value() == *final(r),
            final(self).mutex_ref().state() == old(self).mutex_ref().state(),
    {
        &mut self.mutex.value
    }

    /// Give the guard up, unlocking the mutex. The second result says
    /// whether the release must wake a sleeping thread.
    pub fn unlock(self) -> (r: (Mutex<T>, bool))
        ensures
            r.0.wf(),
            r.0.state() == UNLOCKED,
            r.0.value() == self.mutex_ref().value(),
            r.1 <==> self.mutex_ref().state() == LOCKED_WAITING,
    {
        let mut mutex = self.mutex;
        let wake_one = mutex.unlock();
        (mutex, wake_one)
    }
}

/// Mutual exclusion at the word level: no acquire step succeeds while any
/// thread holds the lock — whether or not a sleeper is recorded — so a
/// second holder can never arise beside a live guard.
pub proof fn lemma_no_second_holder(s: u32)
    requires
        s == LOCKED || s == LOCKED_WAITING,
    ensures
        !acquires_lock(s),
{
}

/// Mutual exclusion over a run of guarded increments: `rounds` times, acquire
/// the lock, add one to the protected counter, release. Because every
/// increment happens under the guard, none is lost: the counter afterwards is
/// exactly the counter before plus `rounds`.
pub fn increment_locked(m: Mutex<u64>, rounds: u64) -> (r: Mutex<u64>)
    requires
        m.state() == UNLOCKED,
        m.value() + rounds <= u64::MAX,
    ensures
        r.state() == UNLOCKED,
        r.value() == m.value() + rounds,
{
    let mut mutex = m;
    let mut done: u64 = 0;
    while done < rounds
        invariant
            done <= rounds,
            mutex.state() == UNLOCKED,
            mutex.value() == m.value() + done,
            m.value() + rounds <= u64::MAX,
        decreases rounds - done,
    {
        let mut guard = mutex.lock();
        let counter = guard.get_mut();
        *counter = *counter + 1;
        let (unlocked, wake_one) = guard.unlock();
        mutex = unlocked;
        done = done + 1;
    }
    mutex
}

} // verus!
