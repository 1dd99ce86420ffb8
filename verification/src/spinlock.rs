use vstd::prelude::*;

verus! {

/// A busy-wait lock: one boolean flag guards a value.
///
/// A running thread acquires by swapping the flag to `true` until it observes
/// a prior value of `false`; releasing stores `false`. Here the flag is a
/// plain field and the guard owns the lock for as long as it exists, so the
/// exclusive right to the value that the flag encodes is carried by
/// ownership.
pub struct SpinLock<T> {
    locked: bool,
    value: T,
}

/// Exclusive access to a spinlock's value; its existence means the lock is
/// held, and giving it up is the only way to release the lock.
pub struct Guard<T> {
    lock: SpinLock<T>,
}

impl<T> SpinLock<T> {
    /// The lock flag: `true` while some guard holds the lock.
    pub closed spec fn locked(self) -> bool {
        self.locked
    }

    /// The protected value.
    pub closed spec fn value(self) -> T {
        self.value
    }

    /// A new, unlocked spinlock around `value`.
    pub fn new(value: T) -> (r: SpinLock<T>)
        ensures
            !r.locked(),
            r.value() == value,
    {
        SpinLock { locked: false, value }
    }

    /// One iteration of the acquire loop: the swap-to-`true` step. The lock
    /// is afterwards held in any case; the caller acquired it exactly if the
    /// flag was clear before, and otherwise must retry.
    pub fn try_lock(&mut self) -> (acquired: bool)
        ensures
            acquired == !old(self).locked(),
            final(self).locked(),
            final(self).value() == old(self).value(),
    {
        let was_locked = self.locked;
        self.locked = true;
        !was_locked
    }

    /// Acquire the lock. A lock that is already held would make the acquire
    /// loop spin forever, so it is required to be free here.
    pub fn lock(self) -> (g: Guard<T>)
        requires
            !self.locked(),
        ensures
            g.lock_ref().locked(),
            g.lock_ref().value() == self.value(),
    {
        let mut lock = self;
        let acquired = lock.try_lock();
        assert(acquired);
        Guard::new(lock)
    }

    /// Release the lock: clear the flag, keeping the value.
    pub fn unlock(&mut self)
        ensures
            !final(self).locked(),
            final(self).value() == old(self).value(),
    {
        self.locked = false;
    }
}

impl<T> Guard<T> {
    /// The lock this guard holds.
    pub closed spec fn lock_ref(self) -> SpinLock<T> {
        self.lock
    }

    /// Wrap a held lock in a guard.
    pub fn new(lock: SpinLock<T>) -> (g: Guard<T>)
        requires
            lock.locked(),
        ensures
            g.lock_ref() == lock,
    {
        Guard { lock }
    }

    /// Shared access to the protected value.
    pub fn get(&self) -> (r: &T)
        ensures
            *r == self.lock_ref().value(),
    {
        &self.lock.value
    }

    /// Exclusive access to the protected value.
    pub fn get_mut(&mut self) -> (r: &mut T)
        ensures
            *r == old(self).lock_ref().value(),
            final(self).lock_ref().value() == *final(r),
            final(self).lock_ref().locked() == old(self).lock_ref().locked(),
    {
        &mut self.lock.value
    }

    /// Give the guard up, releasing the lock.
    pub fn unlock(self) -> (r: SpinLock<T>)
        ensures
            !r.locked(),
            r.value() == self.lock_ref().value(),
    {
        let mut lock = self.lock;
        lock.unlock();
        lock
    }
}

} // verus!
