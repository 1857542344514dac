//! Lazily resolved call-stack captures, gated by a process-wide switch.
//!
//! The [`gate`] module decides once per process whether captures are wanted;
//! the [`holder`] module owns an optional capture and resolves its symbols at
//! most once, on first inspection.

pub mod gate;
pub mod holder;

pub use backtrace::Backtrace;
