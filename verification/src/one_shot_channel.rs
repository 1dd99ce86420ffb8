//! Two variants of a one-shot channel: one message, sent at most once.
//!
//! The type-enforced variant makes a second send or receive unwritable, by
//! consuming its handles on use; the runtime-checked variant detects misuse
//! at run time through a strictly forward-moving state machine and reports
//! it as a protocol violation.

pub mod typed_channel;
pub mod unsafe_channel;
