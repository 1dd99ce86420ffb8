//! Low-level synchronization primitives, verified as sequential state machines.
//!
//! Each primitive of this crate is built around a compact encoding of its
//! logical state in a single machine word: a spinlock flag, a three-state
//! mutex word, a reader-writer word that packs a reader count with a
//! writer-waiting bit, reference counts for a shared pointer, and the
//! forward-moving state machine of a one-shot channel.
//!
//! In a running program those words live in atomic variables and blocked
//! threads sleep on an OS wait/wake primitive. Neither shared-memory
//! interference nor thread blocking can be expressed here, so this crate
//! verifies the part that can be: every word transition a thread may perform
//! is a function with an exact contract, each primitive owns its state and
//! its protected value, and exclusive access is represented by ownership of
//! a guard value. The per-iteration decisions of every contended loop (spin,
//! sleep, retry, acquire) are pure verified step functions; an unverified
//! shell runs those loops against real atomics and the OS primitive.

pub mod arc;
pub mod condvar;
pub mod mutex;
pub mod one_shot_channel;
pub mod rwlock;
pub mod spinlock;
