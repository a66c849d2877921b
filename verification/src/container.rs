//! The two containers whose unwrap patterns this crate decorates.
//!
//! Both are plain tagged unions, consumed exactly once per call: an
//! operation moves the container in and either hands its value back or
//! reports the failure. Nothing here mutates a container in place.

use vstd::prelude::*;

verus! {

/// A success-or-error container: either `Success(v)` with the value the
/// caller wants, or `Failure(e)` with an error whose debug rendering is
/// what the failure path reports.
pub enum Outcome<T, E> {
    Success(T),
    Failure(E),
}

/// A present-or-absent container: either `Present(v)` with the value
/// the caller wants, or `Absent` with nothing to say about why.
pub enum Maybe<T> {
    Present(T),
    Absent,
}

} // verus!
