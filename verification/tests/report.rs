use thiserror_ext::{AsReport, ErrorNode};

fn leaf(text: &str) -> ErrorNode {
    ErrorNode::Message { text: text.to_string(), source: None, backtrace: None }
}

fn wrap(text: &str, source: ErrorNode) -> ErrorNode {
    ErrorNode::Message { text: text.to_string(), source: Some(Box::new(source)), backtrace: None }
}

// The chain behind these tests: an outer error whose message does not repeat
// its cause, a transparent middle layer whose message is exactly its cause's
// message, a middle layer that embeds its cause's message, and a root cause.
fn outer() -> ErrorNode {
    let inner = leaf("inner error");
    let middle = wrap("middle error: inner error", inner);
    let middle_transparent = wrap("middle error: inner error", middle);
    wrap("outer error", middle_transparent)
}

fn middle() -> ErrorNode {
    wrap("middle error: inner error", leaf("inner error"))
}

#[test]
fn test_report_display() {
    assert_eq!(outer().to_report_string(), "outer error: middle error: inner error");
}

#[test]
fn test_report_display_alternate() {
    assert_eq!(
        outer().to_report_string_pretty(),
        "outer error\n\nCaused by these errors (recent errors listed first):\n 1: middle error\n 2: inner error\n"
    );
}

#[test]
fn test_report_display_alternate_single_source() {
    assert_eq!(
        middle().to_report_string_pretty(),
        "middle error\n\nCaused by:\n    inner error\n"
    );
}

// If there's no backtrace, the behavior should be exactly the same as the
// plain report.
#[test]
fn test_report_debug_no_backtrace() {
    assert_eq!(
        outer().to_report_string_with_backtrace(),
        "outer error: middle error: inner error"
    );
}

// If there's no backtrace, the behavior should be exactly the same as the
// plain report.
#[test]
fn test_report_debug_alternate_no_backtrace() {
    assert_eq!(
        outer().to_report_string_pretty_with_backtrace(),
        "outer error\n\nCaused by these errors (recent errors listed first):\n 1: middle error\n 2: inner error\n"
    );
}
