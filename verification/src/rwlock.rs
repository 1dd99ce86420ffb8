use vstd::prelude::*;

verus! {

/// The state word of the writer-starvation-free reader-writer lock.
///
/// Encoding: `0` means free; an even value `2 * n >= 2` means `n` readers
/// hold the lock and no writer is waiting; an odd value `2 * n + 1` means
/// `n` readers hold the lock and a writer is waiting; `u32::MAX` is the
/// sentinel for "exclusively write-locked". Oddness is the sole
/// anti-starvation signal: a reader that arrives while the word is odd must
/// sleep rather than join, so a waiting writer is not perpetually overtaken
/// by new readers.
///
/// In a running program the word and a separate writer-wake counter live in
/// atomics and blocked threads sleep on an OS wait/wake primitive. Here both
/// are plain fields, each atomic step of the acquire and release paths is a
/// function with an exact contract, and holding the lock is represented by
/// ownership of a guard.
pub struct RwLock<T> {
    state: u32,
    writer_wake_count: u32,
    value: T,
}

/// Shared access to a reader-writer lock's value. The guard stands for the
/// whole current population of readers, whose number the state word counts;
/// readers join and leave through it while it exists.
pub struct ReadGuard<T> {
    rwlock: RwLock<T>,
}

/// Exclusive access to a reader-writer lock's value.
pub struct WriteGuard<T> {
    rwlock: RwLock<T>,
}

/// How many readers the word `s` counts (none when write-locked).
pub open spec fn readers_of(s: u32) -> int {
    if s == u32::MAX {
        0
    } else {
        s as int / 2
    }
}

/// Whether the word `s` records a waiting writer.
pub open spec fn writer_waiting(s: u32) -> bool {
    s != u32::MAX && s % 2 == 1
}

/// Whether the word `s` is the exclusive write-locked sentinel.
pub open spec fn write_locked(s: u32) -> bool {
    s == u32::MAX
}

/// What one iteration of the reader acquire loop decides on an observed
/// word.
pub enum ReadStep {
    /// The word was even: compare-and-set it to `next`, two more than
    /// observed, joining as one more reader.
    Join { next: u32 },
    /// The word was odd — a writer is waiting (or the lock is write-locked):
    /// sleep while the word still reads the observed value, then retry.
    Sleep { observed: u32 },
}

/// What the two compare-and-set attempts of one writer acquire iteration
/// decide on an observed word.
pub enum WriteStep {
    /// No reader holds the lock (the word was `0` or `1`): compare-and-set
    /// to the exclusive sentinel; the lock is acquired.
    Acquire,
    /// Readers hold the lock and no writer is registered yet (even word):
    /// compare-and-set to `next`, one more than observed, flipping the word
    /// odd so that arriving readers are held back.
    Register { next: u32 },
    /// Readers hold the lock and a writer is already registered (odd word):
    /// nothing to change; go on to the sleep decision.
    Stand,
}

/// The decision of one reader acquire iteration, as a function of the
/// observed word.
pub open spec fn read_step_spec(s: u32) -> ReadStep {
    if s % 2 == 0 {
        ReadStep::Join { next: (s + 2) as u32 }
    } else {
        ReadStep::Sleep { observed: s }
    }
}

/// One iteration of the reader acquire loop. An even word admits the reader,
/// adding two; an odd word — a waiting writer, or the write-locked sentinel,
/// which is odd — sends the reader to sleep on the observed value. The
/// reader-count overflow check that would otherwise end the process is
/// excluded here by precondition.
pub fn read_step(s: u32) -> (r: ReadStep)
    requires
        s % 2 == 0 ==> s < u32::MAX - 1,
    ensures
        r == read_step_spec(s),
{
    if s % 2 == 0 {
        ReadStep::Join { next: s + 2 }
    } else {
        ReadStep::Sleep { observed: s }
    }
}

/// The compare-and-set decision of one writer acquire iteration, as a
/// function of the observed word.
pub open spec fn write_step_spec(s: u32) -> WriteStep {
    if s <= 1 {
        WriteStep::Acquire
    } else if s % 2 == 0 {
        WriteStep::Register { next: (s + 1) as u32 }
    } else {
        WriteStep::Stand
    }
}

/// The compare-and-set attempts of one writer acquire iteration: acquire
/// when no reader holds the lock, otherwise make sure the word is odd so
/// that no new reader joins past this writer.
pub fn write_step(s: u32) -> (r: WriteStep)
    ensures
        r == write_step_spec(s),
{
    if s <= 1 {
        WriteStep::Acquire
    } else if s % 2 == 0 {
        WriteStep::Register { next: s + 1 }
    } else {
        WriteStep::Stand
    }
}

/// Whether a writer, after its compare-and-set attempts, goes to sleep on
/// the writer-wake counter rather than retry at once, as a function of the
/// word it then re-reads.
pub open spec fn write_sleep_spec(s: u32) -> bool {
    s <= 2
}

/// The sleep decision of the writer acquire loop. The writer sleeps on the
/// separate writer-wake counter — distinct from the state word, so that a
/// reader's release, which touches the word, cannot be missed — and
/// re-reads the word when woken.
pub fn write_sleep_decision(s: u32) -> (r: bool)
    ensures
        r == write_sleep_spec(s),
{
    s <= 2
}

/// Whether a reader's release of a word previously equal to `prior` must
/// wake a writer: exactly when the departing reader was the last one and a
/// writer is waiting (the word held one reader plus the odd bit).
pub open spec fn read_release_wakes(prior: u32) -> bool {
    prior == 3
}

impl<T> RwLock<T> {
    /// The state word.
    pub closed spec fn state(self) -> u32 {
        self.state
    }

    /// The writer-wake counter.
    pub closed spec fn wake_count(self) -> u32 {
        self.writer_wake_count
    }

    /// The protected value.
    pub closed spec fn value(self) -> T {
        self.value
    }

    /// A new, free lock around `value`.
    pub fn new(value: T) -> (r: RwLock<T>)
        ensures
            r.state() == 0,
            r.wake_count() == 0,
            r.value() == value,
    {
        RwLock { state: 0, writer_wake_count: 0, value }
    }

    /// Acquire the lock shared. A reader that finds the word odd sleeps
    /// until a writer releases; no thread can do that here, so the word is
    /// required to be even — and below the reader-count cap, whose overflow
    /// would end the process.
    pub fn read(self) -> (g: ReadGuard<T>)
        requires
            self.state() % 2 == 0,
            self.state() < u32::MAX - 1,
        ensures
            g.rwlock_ref().state() == self.state() + 2,
            readers_of(g.rwlock_ref().state()) == readers_of(self.state()) + 1,
            g.rwlock_ref().wake_count() == self.wake_count(),
            g.rwlock_ref().value() == self.value(),
            g.wf(),
    {
        let mut rwlock = self;
        let step = read_step(rwlock.state);
        match step {
            ReadStep::Join { next } => {
                rwlock.state = next;
            }
            ReadStep::Sleep { observed: _ } => {
                proof {
                    assert(false);
                }
            }
        }
        ReadGuard { rwlock }
    }

    /// Acquire the lock exclusively. A writer that finds readers holding the
    /// lock registers and sleeps until the last reader releases; no thread
    /// can do that here, so the word is required to show no reader.
    pub fn write(self) -> (g: WriteGuard<T>)
        requires
            self.state() <= 1,
        ensures
            write_locked(g.rwlock_ref().state()),
            g.rwlock_ref().wake_count() == self.wake_count(),
            g.rwlock_ref().value() == self.value(),
            g.wf(),
    {
        let mut rwlock = self;
        let step = write_step(rwlock.state);
        match step {
            WriteStep::Acquire => {
                rwlock.state = u32::MAX;
            }
            WriteStep::Register { next: _ } => {
                proof {
                    assert(false);
                }
            }
            WriteStep::Stand => {
                proof {
                    assert(false);
                }
            }
        }
        WriteGuard { rwlock }
    }
}

impl<T: Default> Default for RwLock<T> {
    /// A free lock around the default value.
    fn default() -> (r: RwLock<T>)
        ensures
            r.state() == 0,
            r.wake_count() == 0,
    {
        RwLock::new(T::default())
    }
}

/// The writer-wake counter advances by one on each wake, wrapping.
pub open spec fn wrap_inc(c: u32) -> u32 {
    if c == u32::MAX {
        0
    } else {
        (c + 1) as u32
    }
}

impl<T> ReadGuard<T> {
    /// The lock this guard holds.
    pub closed spec fn rwlock_ref(self) -> RwLock<T> {
        self.rwlock
    }

    /// A read guard exists only while at least one reader holds the lock,
    /// which the word counts; the write-locked sentinel is impossible.
    pub open spec fn wf(self) -> bool {
        &&& !write_locked(self.rwlock_ref().state())
        &&& readers_of(self.rwlock_ref().state()) >= 1
    }

    /// Shared access to the protected value. Every reader reads through
    /// here, so all concurrent readers observe the same value.
    pub fn get(&self) -> (r: &T)
        ensures
            *r == self.rwlock_ref().value(),
    {
        &self.rwlock.value
    }

    /// One more reader joins through the live guard: the reader acquire step
    /// against the current word. It requires the word to be even — while a
    /// writer is waiting, arriving readers are held back — and below the
    /// reader-count cap.
    pub fn join(&mut self)
        requires
            old(self).wf(),
            old(self).rwlock_ref().state() % 2 == 0,
            old(self).rwlock_ref().state() < u32::MAX - 1,
        ensures
            final(self).rwlock_ref().state() == old(self).rwlock_ref().state() + 2,
            readers_of(final(self).rwlock_ref().state()) == readers_of(
                old(self).rwlock_ref().state(),
            ) + 1,
            final(self).rwlock_ref().wake_count() == old(self).rwlock_ref().wake_count(),
            final(self).rwlock_ref().value() == old(self).rwlock_ref().value(),
            final(self).wf(),
    {
        let step = read_step(self.rwlock.state);
        match step {
            ReadStep::Join { next } => {
                self.rwlock.state = next;
            }
            ReadStep::Sleep { observed: _ } => {
                proof {
                    assert(false);
                }
            }
        }
    }

    /// A writer registers while readers hold the lock: the register step of
    /// the writer acquire loop applied to the live word, flipping it odd so
    /// that readers arriving from now on are held back until the writer has
    /// had its turn.
    pub fn register_writer(&mut self)
        requires
            old(self).wf(),
            old(self).rwlock_ref().state() % 2 == 0,
            old(self).rwlock_ref().state() < u32::MAX - 1,
        ensures
            final(self).rwlock_ref().state() == old(self).rwlock_ref().state() + 1,
            writer_waiting(final(self).rwlock_ref().state()),
            final(self).rwlock_ref().wake_count() == old(self).rwlock_ref().wake_count(),
            final(self).rwlock_ref().value() == old(self).rwlock_ref().value(),
            final(self).wf(),
    {
        let step = write_step(self.rwlock.state);
        match step {
            WriteStep::Register { next } => {
                self.rwlock.state = next;
            }
            WriteStep::Acquire => {
                proof {
                    assert(false);
                }
            }
            WriteStep::Stand => {
                proof {
                    assert(false);
                }
            }
        }
    }

    /// One of several readers leaves: subtract two from the word. A wake is
    /// owed only when the departing reader is the last and a writer waits,
    /// which cannot be the case here, so none is issued.
    pub fn leave(&mut self)
        requires
            old(self).wf(),
            readers_of(old(self).rwlock_ref().state()) >= 2,
        ensures
            final(self).rwlock_ref().state() == old(self).rwlock_ref().state() - 2,
            readers_of(final(self).rwlock_ref().state()) == readers_of(
                old(self).rwlock_ref().state(),
            ) - 1,
            !read_release_wakes(old(self).rwlock_ref().state()),
            final(self).rwlock_ref().wake_count() == old(self).rwlock_ref().wake_count(),
            final(self).rwlock_ref().value() == old(self).rwlock_ref().value(),
            final(self).wf(),
    {
        self.rwlock.state = self.rwlock.state - 2;
    }

    /// The last reader gives the guard up, releasing the lock: subtract two
    /// from the word. Exactly if the prior word was 3 — this was the last
    /// reader and a writer waits — the writer-wake counter advances and the
    /// second result says that one writer must be woken.
    pub fn unlock(self) -> (r: (RwLock<T>, bool))
        requires
            self.wf(),
            readers_of(self.rwlock_ref().state()) == 1,
        ensures
            r.0.state() == self.rwlock_ref().state() - 2,
            readers_of(r.0.state()) == 0,
            r.1 == read_release_wakes(self.rwlock_ref().state()),
            r.0.wake_count() == if r.1 {
                wrap_inc(self.rwlock_ref().wake_count())
            } else {
                self.rwlock_ref().wake_count()
            },
            r.0.value() == self.rwlock_ref().value(),
    {
        let mut rwlock = self.rwlock;
        let prior = rwlock.state;
        rwlock.state = prior - 2;
        let wake_writer = prior == 3;
        if wake_writer {
            rwlock.writer_wake_count = if rwlock.writer_wake_count == u32::MAX {
                0
            } else {
                rwlock.writer_wake_count + 1
            };
        }
        (rwlock, wake_writer)
    }
}

impl<T> WriteGuard<T> {
    /// The lock this guard holds.
    pub closed spec fn rwlock_ref(self) -> RwLock<T> {
        self.rwlock
    }

    /// A write guard exists only over the exclusive sentinel word.
    pub open spec fn wf(self) -> bool {
        write_locked(self.rwlock_ref().state())
    }

    /// Shared access to the protected value.
    pub fn get(&self) -> (r: &T)
        ensures
            *r == self.rwlock_ref().value(),
    {
        &self.rwlock.value
    }

    /// Exclusive access to the protected value.
    pub fn get_mut(&mut self) -> (r: &mut T)
        ensures
            *r == old(self).rwlock_ref().value(),
            final(self).rwlock_ref().value() == *final(r),
            final(self).rwlock_ref().state() == old(self).rwlock_ref().state(),
            final(self).rwlock_ref().wake_count() == old(self).rwlock_ref().wake_count(),
    {
        &mut self.rwlock.value
    }

    /// Give the guard up, releasing the lock: store zero, advance the
    /// writer-wake counter, and owe a wake to one writer — a new one might
    /// have registered meanwhile — and to all sleeping readers, who must
    /// re-check the word.
    pub fn unlock(self) -> (r: RwLock<T>)
        requires
            self.wf(),
        ensures
            r.state() == 0,
            r.wake_count() == wrap_inc(self.rwlock_ref().wake_count()),
            r.value() == self.rwlock_ref().value(),
    {
        let mut rwlock = self.rwlock;
        rwlock.state = 0;
        rwlock.writer_wake_count = if rwlock.writer_wake_count == u32::MAX {
            0
        } else {
            rwlock.writer_wake_count + 1
        };
        rwlock
    }
}

/// Anti-starvation: a reader that arrives while the word is odd — a writer
/// is waiting, or the lock is write-locked — never joins; its acquire step
/// sends it to sleep.
pub proof fn lemma_reader_blocked_while_writer_waits(s: u32)
    requires
        writer_waiting(s) || write_locked(s),
    ensures
        read_step_spec(s) is Sleep,
{
}

/// Exclusion: a writer acquires only from a word that counts no reader, and
/// the write-locked sentinel admits no reader.
pub proof fn lemma_writer_excludes_readers(s: u32)
    ensures
        write_step_spec(s) is Acquire ==> readers_of(s) == 0,
        read_step_spec(u32::MAX) is Sleep,
{
}

/// Writer progress: while readers hold the lock, one writer acquire
/// iteration leaves the word odd — registered — and each reader release
/// subtracts two, so the word reaches 1, where the release of the last
/// reader wakes the writer and the writer's next iteration acquires.
pub proof fn lemma_registered_writer_eventually_acquires(s: u32)
    requires
        s % 2 == 0,
        2 <= s < u32::MAX - 1,
    ensures
        write_step_spec(s) == (WriteStep::Register { next: (s + 1) as u32 }),
        writer_waiting((s + 1) as u32),
        read_release_wakes(3),
        write_step_spec(1) is Acquire,
{
}

} // verus!
