use thiserror_ext::{AsReport, ErrorNode, MultiError};

fn leaf(text: &str) -> ErrorNode {
    ErrorNode::Message { text: text.to_string(), source: None, backtrace: None }
}

fn wrap(text: &str, source: ErrorNode) -> ErrorNode {
    ErrorNode::Message { text: text.to_string(), source: Some(Box::new(source)), backtrace: None }
}

fn two_errors() -> MultiError {
    MultiError(vec![wrap("context", leaf("foo")), leaf("bar")])
}

fn nested() -> MultiError {
    let inner = two_errors();
    MultiError(vec![wrap("context", leaf("baz")), ErrorNode::Multi(inner)])
}

#[test]
fn multi_test() {
    let err = two_errors();

    assert_eq!(err.message(false), "Multiple errors occurred: [context: foo], [bar]");
    assert_eq!(err.debug_text(), "MultiError([context, bar])");
    assert_eq!(err.to_report_string(), "Multiple errors occurred: [context: foo], [bar]");
    assert_eq!(
        err.to_report_string_pretty(),
        "Multiple errors occurred\n* context: foo\n* bar"
    );
}

#[test]
fn test_nested() {
    let outer = nested();

    assert_eq!(
        outer.to_report_string(),
        "Multiple errors occurred: [context: baz], [Multiple errors occurred: [context: foo], [bar]]"
    );
    assert_eq!(outer.debug_text(), "MultiError([context, MultiError([context, bar])])");
    assert_eq!(
        outer.to_report_string_pretty(),
        "Multiple errors occurred\n* context: baz\n* Multiple errors occurred\n  * context: foo\n  * bar"
    );
}

#[test]
fn test_source_depth_1() {
    let err = wrap("outer error", ErrorNode::Multi(two_errors()));

    assert_eq!(err.message(false), "outer error");
    assert_eq!(
        err.to_report_string(),
        "outer error: Multiple errors occurred: [context: foo], [bar]"
    );
    assert_eq!(
        err.to_report_string_pretty(),
        "outer error\n\nCaused by:\n    Multiple errors occurred\n    * context: foo\n    * bar\n"
    );
}

#[test]
fn test_source_depth_2() {
    let err = wrap("outer error", wrap("middle error", ErrorNode::Multi(two_errors())));

    assert_eq!(err.message(false), "outer error");
    assert_eq!(
        err.to_report_string(),
        "outer error: middle error: Multiple errors occurred: [context: foo], [bar]"
    );
    assert_eq!(
        err.to_report_string_pretty(),
        "outer error\n\nCaused by these errors (recent errors listed first):\n 1: middle error\n 2: Multiple errors occurred\n    * context: foo\n    * bar\n"
    );
}

#[test]
fn test_nested_source() {
    let err = wrap("outer error", wrap("middle error", ErrorNode::Multi(nested())));

    assert_eq!(err.message(false), "outer error");
    assert_eq!(
        err.to_report_string(),
        "outer error: middle error: Multiple errors occurred: [context: baz], [Multiple errors occurred: [context: foo], [bar]]"
    );
    assert_eq!(
        err.to_report_string_pretty(),
        "outer error\n\nCaused by these errors (recent errors listed first):\n 1: middle error\n 2: Multiple errors occurred\n    * context: baz\n    * Multiple errors occurred\n      * context: foo\n      * bar\n"
    );
}
