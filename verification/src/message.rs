//! The texts of the failure path, and the report that carries them.
//!
//! Every failing unwrap produces two strings: the log line handed to
//! the logging facility and the diagnostic the call terminates with.
//! The spec functions here pin both texts down exactly, the builders
//! construct them, and [`FailureReport`] bundles the pair.

use vstd::prelude::*;

verus! {

/// The log line of a failing `log_unwrap` on a success-or-error
/// container whose error rendered as `debug_text`.
pub open spec fn unwrap_failure_log_text(debug_text: Seq<char>) -> Seq<char> {
    "called unwrap on a failure value: "@ + debug_text
}

/// The diagnostic a failing `log_unwrap` on a success-or-error
/// container terminates with, for an error rendered as `debug_text`.
pub open spec fn unwrap_failure_diagnostic_text(debug_text: Seq<char>) -> Seq<char> {
    "called unwrap on an Err value: "@ + debug_text
}

/// The one text of a failing `log_expect` on a success-or-error
/// container: `msg`, a separating colon, and the rendered error. Log
/// line and diagnostic both carry exactly this text.
pub open spec fn expect_failure_text(msg: Seq<char>, debug_text: Seq<char>) -> Seq<char> {
    msg + ": "@ + debug_text
}

/// The one text of a failing `log_unwrap` on a present-or-absent
/// container: log line and diagnostic both carry exactly this text.
pub open spec fn absent_unwrap_text() -> Seq<char> {
    "called unwrap on an absent value"@
}

/// Whether `part` occurs contiguously somewhere in `text`.
pub open spec fn contains_text(text: Seq<char>, part: Seq<char>) -> bool {
    exists|i: int|
        0 <= i && i + part.len() <= text.len() && #[trigger] text.subrange(i, i + part.len())
            == part
}

/// Relies on String::push_str: appends `suffix` to `target`.
pub assume_specification[ String::push_str ](target: &mut String, suffix: &str)
    ensures
        final(target)@ == old(target)@ + suffix@,
;

/// Relies on std's debug formatting, `format!("{:?}", ..)`: renders a
/// value through its `Debug` implementation. What text a given `Debug`
/// implementation produces is that implementation's own business, so
/// nothing is promised of the result.
#[verifier::external_body]
pub(crate) fn render_debug<E: core::fmt::Debug>(value: &E) -> String {
    format!("{:?}", value)
}

/// What a failing unwrap or expect does before control is gone: emit
/// `log_line` once at error severity, then terminate the call with
/// `diagnostic`.
pub struct FailureReport {
    pub log_line: String,
    pub diagnostic: String,
}

/// The report of a failing `log_unwrap` on a success-or-error container
/// whose error rendered as `debug_text`: the log line and the
/// diagnostic each put their own prefix before that same text.
pub fn unwrap_failure_report(debug_text: &str) -> (report: FailureReport)
    ensures
        report.log_line@ == unwrap_failure_log_text(debug_text@),
        report.diagnostic@ == unwrap_failure_diagnostic_text(debug_text@),
{
    let mut log_line: String = "called unwrap on a failure value: ".to_owned();
    log_line.push_str(debug_text);
    let mut diagnostic: String = "called unwrap on an Err value: ".to_owned();
    diagnostic.push_str(debug_text);
    FailureReport { log_line, diagnostic }
}

/// The report of a failing `log_expect` on a success-or-error
/// container: one text, `msg` followed by the rendered error, carried
/// by the log line and the diagnostic alike.
pub fn expect_failure_report(msg: &str, debug_text: &str) -> (report: FailureReport)
    ensures
        report.log_line@ == expect_failure_text(msg@, debug_text@),
        report.diagnostic@ == report.log_line@,
{
    let mut log_line: String = msg.to_owned();
    log_line.push_str(": ");
    log_line.push_str(debug_text);
    let diagnostic = log_line.clone();
    FailureReport { log_line, diagnostic }
}

/// The report of a failing `log_unwrap` on a present-or-absent
/// container: log line and diagnostic are both the fixed absent-value
/// text.
pub fn absent_unwrap_report() -> (report: FailureReport)
    ensures
        report.log_line@ == absent_unwrap_text(),
        report.diagnostic@ == report.log_line@,
{
    let log_line: String = "called unwrap on an absent value".to_owned();
    let diagnostic = log_line.clone();
    FailureReport { log_line, diagnostic }
}

/// The report of a failing `log_expect` on a present-or-absent
/// container: log line and diagnostic are both exactly `msg`.
pub fn absent_expect_report(msg: &str) -> (report: FailureReport)
    ensures
        report.log_line@ == msg@,
        report.diagnostic@ == report.log_line@,
{
    let log_line: String = msg.to_owned();
    let diagnostic = log_line.clone();
    FailureReport { log_line, diagnostic }
}

/// Whatever the error rendered as, the failure-path log line of
/// `log_unwrap` contains that rendering, and the diagnostic contains
/// the same rendering: a reader can correlate the record with the
/// termination.
pub proof fn lemma_unwrap_failure_texts_contain_debug_text(debug_text: Seq<char>)
    ensures
        contains_text(unwrap_failure_log_text(debug_text), debug_text),
        contains_text(unwrap_failure_diagnostic_text(debug_text), debug_text),
{
    let log_at = "called unwrap on a failure value: "@.len() as int;
    let diag_at = "called unwrap on an Err value: "@.len() as int;
    assert(unwrap_failure_log_text(debug_text).subrange(log_at, log_at + debug_text.len())
        =~= debug_text);
    assert(unwrap_failure_diagnostic_text(debug_text).subrange(diag_at, diag_at + debug_text.len())
        =~= debug_text);
}

/// Whatever the message and the rendered error, the failure-path text
/// of `log_expect` contains the rendered error, and the log line is the
/// diagnostic: one record, one termination, one text.
pub proof fn lemma_expect_failure_text_contains_debug_text(msg: Seq<char>, debug_text: Seq<char>)
    ensures
        contains_text(expect_failure_text(msg, debug_text), debug_text),
{
    let at = (msg + ": "@).len() as int;
    assert(expect_failure_text(msg, debug_text).subrange(at, at + debug_text.len())
        =~= debug_text);
}

} // verus!
