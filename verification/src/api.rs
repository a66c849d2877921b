//! The unwrap and expect operations, and the failure action they
//! produce.
//!
//! [`LogErrResult`] and [`LogErrOption`] are the accessors themselves:
//! they hand the held value back and may only be called when one is
//! there, since on the failure path control never returns to the
//! caller. The `log_unwrap_or_halt` / `log_expect_or_halt` methods are
//! total: they decide the whole call on any container, returning either
//! the value or the [`FailureReport`] to act on — emit the log line
//! once at error severity, then terminate with the diagnostic.

use vstd::prelude::*;

use crate::container::Maybe;
use crate::container::Outcome;
use crate::message::absent_expect_report;
use crate::message::absent_unwrap_report;
use crate::message::absent_unwrap_text;
use crate::message::expect_failure_report;
use crate::message::expect_failure_text;
use crate::message::render_debug;
use crate::message::unwrap_failure_diagnostic_text;
use crate::message::unwrap_failure_log_text;
use crate::message::unwrap_failure_report;
use crate::message::FailureReport;

verus! {

/// What a logging unwrap or expect decided: either hand `Value(v)`
/// back, or perform `Halt(report)` — emit the report's log line once at
/// error severity, then terminate with its diagnostic.
pub enum Unwrapped<T> {
    Value(T),
    Halt(FailureReport),
}

/// Unwrap-with-logging for a success-or-error container: both
/// operations hand the success value back, and presuppose one is there,
/// because their failure path emits a log record and terminates instead
/// of returning.
pub trait LogErrResult<T, E: core::fmt::Debug>: Sized {
    /// Whether the container holds a success value.
    spec fn succeeded(&self) -> bool;

    /// The success value the container holds.
    spec fn success_value(&self) -> T;

    /// Returns the success value, exactly as a plain unwrap would.
    fn log_unwrap(self) -> (value: T)
        requires
            self.succeeded(),
        ensures
            value == self.success_value(),
    ;

    /// Returns the success value, exactly as a plain expect would.
    fn log_expect(self, msg: &str) -> (value: T)
        requires
            self.succeeded(),
        ensures
            value == self.success_value(),
    ;
}

/// Unwrap-with-logging for a present-or-absent container: both
/// operations hand the present value back, and presuppose one is there,
/// because their failure path emits a log record and terminates instead
/// of returning.
pub trait LogErrOption<T>: Sized {
    /// Whether the container holds a value.
    spec fn is_present(&self) -> bool;

    /// The value the container holds.
    spec fn present_value(&self) -> T;

    /// Returns the present value, exactly as a plain unwrap would.
    fn log_unwrap(self) -> (value: T)
        requires
            self.is_present(),
        ensures
            value == self.present_value(),
    ;

    /// Returns the present value, exactly as a plain expect would.
    fn log_expect(self, msg: &str) -> (value: T)
        requires
            self.is_present(),
        ensures
            value == self.present_value(),
    ;
}

impl<T, E: core::fmt::Debug> LogErrResult<T, E> for Outcome<T, E> {
    open spec fn succeeded(&self) -> bool {
        *self is Success
    }

    open spec fn success_value(&self) -> T {
        self->Success_0
    }

    fn log_unwrap(self) -> (value: T) {
        match self {
            Outcome::Success(value) => value,
            Outcome::Failure(_) => vstd::pervasive::unreached(),
        }
    }

    #[allow(unused_variables)]
    fn log_expect(self, msg: &str) -> (value: T) {
        match self {
            Outcome::Success(value) => value,
            Outcome::Failure(_) => vstd::pervasive::unreached(),
        }
    }
}

impl<T> LogErrOption<T> for Maybe<T> {
    open spec fn is_present(&self) -> bool {
        *self is Present
    }

    open spec fn present_value(&self) -> T {
        self->Present_0
    }

    fn log_unwrap(self) -> (value: T) {
        match self {
            Maybe::Present(value) => value,
            Maybe::Absent => vstd::pervasive::unreached(),
        }
    }

    #[allow(unused_variables)]
    fn log_expect(self, msg: &str) -> (value: T) {
        match self {
            Maybe::Present(value) => value,
            Maybe::Absent => vstd::pervasive::unreached(),
        }
    }
}

impl<T, E: core::fmt::Debug> Outcome<T, E> {
    /// Decides a whole `log_unwrap` call: the success value on
    /// `Success`, and on `Failure` the report whose log line and
    /// diagnostic each put their own prefix before one and the same
    /// rendering of the error.
    pub fn log_unwrap_or_halt(self) -> (action: Unwrapped<T>)
        ensures
            self matches Outcome::Success(v) ==> (action matches Unwrapped::Value(value)
                && value == v),
            self is Failure ==> (action matches Unwrapped::Halt(report)
                && (exists|debug_text: Seq<char>|
                    report.log_line@ == unwrap_failure_log_text(debug_text)
                    && report.diagnostic@ == unwrap_failure_diagnostic_text(debug_text))),
    {
        match self {
            Outcome::Success(value) => Unwrapped::Value(value),
            Outcome::Failure(error) => {
                let rendered = render_debug(&error);
                let report = unwrap_failure_report(rendered.as_str());
                proof {
                    assert(report.log_line@ == unwrap_failure_log_text(rendered@));
                }
                Unwrapped::Halt(report)
            },
        }
    }

    /// Decides a whole `log_expect` call: the success value on
    /// `Success`, and on `Failure` the report that carries `msg`
    /// followed by the rendered error — the same text as log line and
    /// as diagnostic.
    pub fn log_expect_or_halt(self, msg: &str) -> (action: Unwrapped<T>)
        ensures
            self matches Outcome::Success(v) ==> (action matches Unwrapped::Value(value)
                && value == v),
            self is Failure ==> (action matches Unwrapped::Halt(report)
                && report.diagnostic@ == report.log_line@
                && (exists|debug_text: Seq<char>|
                    report.log_line@ == expect_failure_text(msg@, debug_text))),
    {
        match self {
            Outcome::Success(value) => Unwrapped::Value(value),
            Outcome::Failure(error) => {
                let rendered = render_debug(&error);
                let report = expect_failure_report(msg, rendered.as_str());
                proof {
                    assert(report.log_line@ == expect_failure_text(msg@, rendered@));
                }
                Unwrapped::Halt(report)
            },
        }
    }
}

impl<T> Maybe<T> {
    /// Decides a whole `log_unwrap` call: the present value on
    /// `Present`, and on `Absent` the report whose log line and
    /// diagnostic are both exactly the fixed absent-value text.
    pub fn log_unwrap_or_halt(self) -> (action: Unwrapped<T>)
        ensures
            self matches Maybe::Present(v) ==> (action matches Unwrapped::Value(value)
                && value == v),
            self is Absent ==> (action matches Unwrapped::Halt(report)
                && report.log_line@ == absent_unwrap_text()
                && report.diagnostic@ == absent_unwrap_text()),
    {
        match self {
            Maybe::Present(value) => Unwrapped::Value(value),
            Maybe::Absent => Unwrapped::Halt(absent_unwrap_report()),
        }
    }

    /// Decides a whole `log_expect` call: the present value on
    /// `Present`, and on `Absent` the report whose log line and
    /// diagnostic are both exactly `msg`.
    pub fn log_expect_or_halt(self, msg: &str) -> (action: Unwrapped<T>)
        ensures
            self matches Maybe::Present(v) ==> (action matches Unwrapped::Value(value)
                && value == v),
            self is Absent ==> (action matches Unwrapped::Halt(report)
                && report.log_line@ == msg@
                && report.diagnostic@ == msg@),
    {
        match self {
            Maybe::Present(value) => Unwrapped::Value(value),
            Maybe::Absent => Unwrapped::Halt(absent_expect_report(msg)),
        }
    }
}

} // verus!
