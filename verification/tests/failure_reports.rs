use log_err::FailureReport;
use log_err::Maybe;
use log_err::Outcome;
use log_err::Unwrapped;
use log_err::message::absent_expect_report;
use log_err::message::absent_unwrap_report;
use log_err::message::expect_failure_report;
use log_err::message::unwrap_failure_report;

fn halt_report<T>(action: Unwrapped<T>) -> FailureReport {
    match action {
        Unwrapped::Value(_) => panic!("a failure must halt"),
        Unwrapped::Halt(report) => report,
    }
}

#[test]
fn failure_unwrap_diagnostic_names_the_err_value() {
    let report = halt_report(Outcome::<i32, &str>::Failure("boom").log_unwrap_or_halt());
    assert_eq!(report.log_line, "called unwrap on a failure value: \"boom\"");
    assert_eq!(report.diagnostic, "called unwrap on an Err value: \"boom\"");
    assert!(report.diagnostic.contains("called unwrap on an Err value: \"boom\""));
}

#[test]
fn failure_unwrap_record_and_diagnostic_share_debug_text() {
    let report =
        halt_report(Outcome::<(), &str>::Failure("a wild error has appeared!").log_unwrap_or_halt());
    assert!(report.log_line.contains("\"a wild error has appeared!\""));
    assert!(report.diagnostic.contains("\"a wild error has appeared!\""));
}

#[test]
fn failure_expect_uses_message_and_debug_text() {
    let report =
        halt_report(Outcome::<(), String>::Failure("boom".into()).log_expect_or_halt("ctx"));
    assert_eq!(report.log_line, "ctx: \"boom\"");
    assert_eq!(report.diagnostic, "ctx: \"boom\"");
}

#[test]
fn absent_unwrap_uses_the_fixed_text() {
    let report = halt_report(Maybe::<i32>::Absent.log_unwrap_or_halt());
    assert_eq!(report.log_line, "called unwrap on an absent value");
    assert_eq!(report.diagnostic, "called unwrap on an absent value");
}

#[test]
fn absent_expect_uses_exactly_the_message() {
    let report = halt_report(Maybe::<i32>::Absent.log_expect_or_halt("need value"));
    assert_eq!(report.log_line, "need value");
    assert_eq!(report.diagnostic, "need value");
}

#[test]
fn absent_expect_keeps_a_message_with_punctuation() {
    let report = halt_report(Maybe::<i32>::Absent.log_expect_or_halt("A wild error SHOULD appear"));
    assert_eq!(report.diagnostic, "A wild error SHOULD appear");
}

#[test]
fn unwrap_failure_report_builds_both_texts() {
    let report = unwrap_failure_report("\"x\"");
    assert_eq!(report.log_line, "called unwrap on a failure value: \"x\"");
    assert_eq!(report.diagnostic, "called unwrap on an Err value: \"x\"");
}

#[test]
fn expect_failure_report_builds_one_shared_text() {
    let report = expect_failure_report("ctx", "\"boom\"");
    assert_eq!(report.log_line, "ctx: \"boom\"");
    assert_eq!(report.diagnostic, report.log_line);
}

#[test]
fn absent_unwrap_report_builds_the_fixed_text() {
    let report = absent_unwrap_report();
    assert_eq!(report.log_line, "called unwrap on an absent value");
    assert_eq!(report.diagnostic, report.log_line);
}

#[test]
fn absent_expect_report_keeps_an_empty_message() {
    let report = absent_expect_report("");
    assert_eq!(report.log_line, "");
    assert_eq!(report.diagnostic, "");
}

#[test]
fn failure_unwrap_renders_a_structured_error() {
    let report = halt_report(Outcome::<i32, Option<u8>>::Failure(None).log_unwrap_or_halt());
    assert_eq!(report.diagnostic, "called unwrap on an Err value: None");
}
