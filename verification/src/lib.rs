//! Logging companions for unwrap-style access to result and option
//! containers.
//!
//! The crate models a success-or-error container ([`Outcome`]) and a
//! present-or-absent container ([`Maybe`]) and decorates their
//! unwrap/expect access patterns with a log emission on the failure
//! path: one error-level record is put together before the call
//! terminates with its usual diagnostic. The record and the diagnostic
//! carry the same information, so a reader can correlate the two.
//!
//! The containers' accessors themselves are [`api::LogErrResult`] and
//! [`api::LogErrOption`]; they return the held value and may only be
//! called when one is there. The failure path is exposed as data: the
//! `log_unwrap_or_halt` / `log_expect_or_halt` methods return an
//! [`api::Unwrapped`] action that says either which value to hand back
//! or which record to emit and which diagnostic to terminate with. The
//! `log` facade's message boundary is macro-shaped, so the caller that
//! owns the process performs the action; everything up to that point is
//! verified here.

pub mod api;
pub mod container;
pub mod message;

pub use api::LogErrOption;
pub use api::LogErrResult;
pub use api::Unwrapped;
pub use container::Maybe;
pub use container::Outcome;
pub use message::FailureReport;
