use vstd::prelude::*;
use core::marker::PhantomData;

verus! {

/// The sentinel the weak count is moved to while an exclusivity check is in
/// flight: an advisory lock that holds concurrent downgrades back.
pub const WEAK_LOCKED: usize = usize::MAX;

/// One shared allocation: a strong count, a weak count, and the payload.
///
/// The invariant of the design: the payload is live exactly while the strong
/// count is positive, and the set of all strong handles collectively holds
/// exactly one weak-count unit (the "implicit weak"), so the weak count is
/// positive while any handle exists and the allocation itself is live
/// exactly while the weak count is positive. In a running program the two
/// counts are atomics inside one heap block that all handles point to; here
/// the allocation is an explicit value, a freed allocation is one whose weak
/// count has reached zero, and a handle is a token that the counts number.
pub struct ArcData<T> {
    strong: usize,
    weak: usize,
    payload: Option<T>,
}

/// A strong handle: while one exists the payload is live and may be read.
pub struct Arc<T> {
    marker: PhantomData<T>,
}

/// A weak handle: keeps the allocation alive without keeping the payload
/// alive; may be upgraded to a strong handle while the payload lives.
pub struct Weak<T> {
    marker: PhantomData<T>,
}

/// What the strong-count step of `upgrade` does to an observed count: fail
/// exactly on zero — once zero the count can never rise again, so zero is a
/// safe terminal signal — and otherwise add one.
pub open spec fn upgrade_step_spec(n: usize) -> Option<usize> {
    if n == 0 {
        None
    } else {
        Some((n + 1) as usize)
    }
}

/// One compare-and-set iteration of `upgrade` on the strong count. The
/// count overflow that would otherwise end the process is excluded by
/// precondition.
pub fn upgrade_step(n: usize) -> (r: Option<usize>)
    requires
        n < usize::MAX,
    ensures
        r == upgrade_step_spec(n),
{
    if n == 0 {
        None
    } else {
        Some(n + 1)
    }
}

/// What one iteration of `downgrade` decides on an observed weak count.
pub enum DowngradeStep {
    /// The count reads the exclusivity-check sentinel: spin and re-read.
    Retry,
    /// Compare-and-set the count to `next`, one more than observed.
    Store { next: usize },
}

/// The `downgrade` decision as a function of the observed weak count.
pub open spec fn downgrade_step_spec(w: usize) -> DowngradeStep {
    if w == WEAK_LOCKED {
        DowngradeStep::Retry
    } else {
        DowngradeStep::Store { next: (w + 1) as usize }
    }
}

/// One iteration of `downgrade` on the weak count: retry while an
/// exclusivity check holds the sentinel, otherwise add one. The count
/// overflow that would otherwise end the process is excluded by
/// precondition.
pub fn downgrade_step(w: usize) -> (r: DowngradeStep)
    requires
        w != WEAK_LOCKED ==> w < usize::MAX - 1,
    ensures
        r == downgrade_step_spec(w),
{
    if w == WEAK_LOCKED {
        DowngradeStep::Retry
    } else {
        DowngradeStep::Store { next: w + 1 }
    }
}

/// Whether the advisory weak-count lock of `get_mut` is taken on an
/// observed count: only when the count is exactly one — the implicit weak
/// unit alone, no independent weak handle.
pub open spec fn weak_lock_spec(w: usize) -> bool {
    w == 1
}

/// The compare-and-set of `get_mut` that moves the weak count from one to
/// the sentinel.
pub fn weak_lock_step(w: usize) -> (locked: bool)
    ensures
        locked == weak_lock_spec(w),
{
    w == 1
}

impl<T> ArcData<T> {
    /// The strong count: how many strong handles exist.
    pub closed spec fn strong(self) -> usize {
        self.strong
    }

    /// The weak count: how many weak handles exist, plus the one implicit
    /// unit that the strong handles collectively hold.
    pub closed spec fn weak(self) -> usize {
        self.weak
    }

    /// The payload, while it is live.
    pub closed spec fn payload(self) -> Option<T> {
        self.payload
    }

    /// The allocation invariant: the payload is live exactly while a strong
    /// handle exists; while one does, the implicit weak unit keeps the weak
    /// count positive; and the advisory sentinel never persists between
    /// operations.
    pub open spec fn wf(self) -> bool {
        &&& (self.payload() is Some <==> self.strong() >= 1)
        &&& (self.strong() >= 1 ==> self.weak() >= 1)
        &&& self.weak() != WEAK_LOCKED
    }
}

impl<T> Arc<T> {
    /// A new allocation owning `data`, with one strong handle and the
    /// implicit weak unit.
    pub fn new(data: T) -> (r: (Arc<T>, ArcData<T>))
        ensures
            r.1.wf(),
            r.1.strong() == 1,
            r.1.weak() == 1,
            r.1.payload() == Some(data),
    {
        (Arc { marker: PhantomData }, ArcData { strong: 1, weak: 1, payload: Some(data) })
    }

    /// Shared access to the payload, valid as long as a strong handle is.
    pub fn get<'a>(arc: &Arc<T>, data: &'a ArcData<T>) -> (r: &'a T)
        requires
            data.wf(),
            data.strong() >= 1,
        ensures
            data.payload() == Some(*r),
    {
        match &data.payload {
            Some(p) => p,
            None => {
                proof {
                    assert(false);
                }
                vstd::pervasive::unreached()
            }
        }
    }

    /// A further strong handle: add one to the strong count. The count
    /// range past which a clone would end the process — half the integer
    /// range, past which corruption rather than real use is the cause — is
    /// excluded by precondition.
    pub fn clone(&self, data: &mut ArcData<T>) -> (r: Arc<T>)
        requires
            old(data).wf(),
            old(data).strong() >= 1,
            old(data).strong() <= usize::MAX / 2,
        ensures
            final(data).wf(),
            final(data).strong() == old(data).strong() + 1,
            final(data).weak() == old(data).weak(),
            final(data).payload() == old(data).payload(),
    {
        data.strong = data.strong + 1;
        Arc { marker: PhantomData }
    }

    /// A weak handle from a strong one: add one to the weak count, by the
    /// retry loop that stands back while an exclusivity check holds the
    /// sentinel. The count overflow that would otherwise end the process is
    /// excluded by precondition.
    pub fn downgrade(arc: &Arc<T>, data: &mut ArcData<T>) -> (w: Weak<T>)
        requires
            old(data).wf(),
            old(data).strong() >= 1,
            old(data).weak() < usize::MAX - 1,
        ensures
            final(data).wf(),
            final(data).strong() == old(data).strong(),
            final(data).weak() == old(data).weak() + 1,
            final(data).payload() == old(data).payload(),
    {
        let step = downgrade_step(data.weak);
        match step {
            DowngradeStep::Store { next } => {
                data.weak = next;
            }
            DowngradeStep::Retry => {
                proof {
                    assert(false);
                }
            }
        }
        Weak { marker: PhantomData }
    }

    /// Exclusive access to the payload, granted exactly if this is the only
    /// strong handle and no weak handle besides the implicit unit exists.
    /// The weak count is moved to the sentinel for the span of the check, so
    /// that no downgrade can race the strong-count read, and restored to one
    /// before returning.
    pub fn get_mut<'a>(arc: &mut Arc<T>, data: &'a mut ArcData<T>) -> (r: Option<&'a mut T>)
        requires
            old(data).wf(),
            old(data).strong() >= 1,
        ensures
            r is Some <==> (old(data).strong() == 1 && old(data).weak() == 1),
            r is None ==> *final(data) == *old(data),
            final(data).strong() == old(data).strong(),
            final(data).weak() == old(data).weak(),
            r matches Some(p) ==> {
                &&& old(data).payload() == Some(*p)
                &&& final(data).payload() == Some(*final(p))
                &&& final(data).wf()
            },
    {
        let locked = weak_lock_step(data.weak);
        if !locked {
            return None;
        }
        data.weak = WEAK_LOCKED;
        let is_unique = data.strong == 1;
        data.weak = 1;
        if !is_unique {
            return None;
        }
        match &mut data.payload {
            Some(p) => Some(p),
            None => {
                proof {
                    assert(false);
                }
                None
            }
        }
    }

    /// Give a strong handle up: subtract one from the strong count. On the
    /// transition to zero the payload is destroyed — it is handed back here
    /// — and the implicit weak unit is released.
    pub fn release(self, data: &mut ArcData<T>) -> (destroyed: Option<T>)
        requires
            old(data).wf(),
            old(data).strong() >= 1,
        ensures
            final(data).wf(),
            final(data).strong() == old(data).strong() - 1,
            destroyed is Some <==> old(data).strong() == 1,
            old(data).strong() == 1 ==> {
                &&& destroyed == old(data).payload()
                &&& final(data).payload() is None
                &&& final(data).weak() == old(data).weak() - 1
            },
            old(data).strong() > 1 ==> {
                &&& destroyed is None
                &&& final(data).payload() == old(data).payload()
                &&& final(data).weak() == old(data).weak()
            },
    {
        data.strong = data.strong - 1;
        if data.strong == 0 {
            let destroyed = data.payload.take();
            data.weak = data.weak - 1;
            destroyed
        } else {
            None
        }
    }
}

impl<T> Weak<T> {
    /// A strong handle from a weak one, by the compare-and-set loop that
    /// adds one to the strong count: it fails exactly if the count is
    /// already zero, which is terminal. The count overflow that would
    /// otherwise end the process is excluded by precondition.
    pub fn upgrade(&self, data: &mut ArcData<T>) -> (r: Option<Arc<T>>)
        requires
            old(data).wf(),
            old(data).weak() >= 1,
            old(data).strong() < usize::MAX,
        ensures
            final(data).wf(),
            r is Some <==> old(data).strong() >= 1,
            final(data).strong() == if old(data).strong() >= 1 {
                old(data).strong() + 1
            } else {
                0
            },
            final(data).weak() == old(data).weak(),
            final(data).payload() == old(data).payload(),
    {
        let step = upgrade_step(data.strong);
        match step {
            Some(next) => {
                data.strong = next;
                Some(Arc { marker: PhantomData })
            }
            None => None,
        }
    }

    /// A further weak handle: add one to the weak count. The count range
    /// past which a clone would end the process is excluded by
    /// precondition.
    pub fn clone(&self, data: &mut ArcData<T>) -> (r: Weak<T>)
        requires
            old(data).wf(),
            old(data).weak() >= 1,
            old(data).weak() <= usize::MAX / 2,
        ensures
            final(data).wf(),
            final(data).weak() == old(data).weak() + 1,
            final(data).strong() == old(data).strong(),
            final(data).payload() == old(data).payload(),
    {
        data.weak = data.weak + 1;
        Weak { marker: PhantomData }
    }

    /// Give a weak handle up: subtract one from the weak count. On the
    /// transition to zero — possible only after the payload is gone, since
    /// the strong handles hold the implicit unit — the allocation is freed.
    /// While a strong handle exists this handle is not the last weak unit,
    /// which the precondition records.
    pub fn release(self, data: &mut ArcData<T>) -> (freed: bool)
        requires
            old(data).wf(),
            old(data).weak() >= 1,
            old(data).strong() >= 1 ==> old(data).weak() >= 2,
        ensures
            final(data).wf(),
            final(data).weak() == old(data).weak() - 1,
            final(data).strong() == old(data).strong(),
            final(data).payload() == old(data).payload(),
            freed <==> old(data).weak() == 1,
            freed ==> final(data).weak() == 0 && final(data).payload() is None,
    {
        data.weak = data.weak - 1;
        data.weak == 0
    }
}

/// Uniqueness of destruction: once the strong count has reached zero the
/// payload is gone and no upgrade can ever succeed again, so nothing can
/// observe the payload or destroy it a second time.
pub proof fn lemma_strong_zero_is_terminal<T>(data: ArcData<T>)
    requires
        data.wf(),
        data.strong() == 0,
    ensures
        data.payload() is None,
        upgrade_step_spec(data.strong()) is None,
{
}

/// Weak liveness: the strong-count step of an upgrade succeeds exactly
/// while the count is positive.
pub proof fn lemma_upgrade_succeeds_iff_strong(n: usize)
    ensures
        upgrade_step_spec(n) is Some <==> n >= 1,
{
}

/// Exclusivity against downgrade: the advisory lock is taken only from a
/// weak count of one, and while it holds the sentinel every downgrade
/// iteration retries — an exclusive-access check and a downgrade never both
/// succeed on the same observed state.
pub proof fn lemma_exclusive_check_blocks_downgrade()
    ensures
        weak_lock_spec(1),
        forall|w: usize| #![auto] weak_lock_spec(w) ==> w == 1,
        downgrade_step_spec(WEAK_LOCKED) is Retry,
{
}

} // verus!
