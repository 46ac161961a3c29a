use thiserror_ext::{AsReport, ErrorNode, MultiError};

fn leaf(text: &str) -> ErrorNode {
    ErrorNode::Message { text: text.to_string(), source: None, backtrace: None }
}

fn wrap(text: &str, source: ErrorNode) -> ErrorNode {
    ErrorNode::Message { text: text.to_string(), source: Some(Box::new(source)), backtrace: None }
}

#[test]
fn root_report_is_its_message() {
    let e = leaf("boom");
    assert_eq!(e.to_report_string(), e.message(false));
    assert_eq!(e.to_report_string(), "boom");
}

#[test]
fn empty_multi_renders_empty() {
    let m = MultiError(vec![]);
    assert_eq!(m.to_report_string(), "");
    assert_eq!(m.to_report_string_pretty(), "");
}

#[test]
fn singleton_multi_is_transparent() {
    let m = MultiError(vec![wrap("context", leaf("foo"))]);
    let e = wrap("context", leaf("foo"));
    assert_eq!(m.to_report_string(), e.to_report_string());
    assert_eq!(m.to_report_string_pretty(), e.to_report_string_pretty());
    assert_eq!(m.to_report_string(), "context: foo");
}

#[test]
fn nested_indent_steps_and_restores() {
    let inner = MultiError(vec![leaf("first"), leaf("second")]);
    let outer = MultiError(vec![ErrorNode::Multi(inner), leaf("tail")]);
    assert_eq!(
        outer.to_report_string_pretty(),
        "Multiple errors occurred\n* Multiple errors occurred\n  * first\n  * second\n* tail"
    );
}

#[test]
fn rendering_is_idempotent() {
    let e = wrap("outer error", wrap("middle error: inner error", leaf("inner error")));
    assert_eq!(e.to_report_string(), e.to_report_string());
    assert_eq!(e.to_report_string_pretty(), e.to_report_string_pretty());
}

#[test]
fn three_node_chain_scenario() {
    let e = wrap("outer error", wrap("middle error: inner error", leaf("inner error")));
    assert_eq!(e.to_report_string(), "outer error: middle error: inner error");
    assert_eq!(
        e.to_report_string_pretty(),
        "outer error\n\nCaused by these errors (recent errors listed first):\n 1: middle error\n 2: inner error\n"
    );
}

#[test]
fn two_element_multi_compact_scenario() {
    let m = MultiError(vec![leaf("foo"), leaf("bar")]);
    assert_eq!(m.to_report_string(), "Multiple errors occurred: [foo], [bar]");
}

#[test]
fn cleaning_trims_whitespace_and_one_colon() {
    let e = wrap("ctx:   inner", leaf("inner"));
    assert_eq!(e.to_report_string(), "ctx: inner");
}

#[test]
fn cleaning_can_empty_a_message() {
    let e = wrap("inner error", leaf("inner error"));
    assert_eq!(e.to_report_string(), "inner error");
    assert_eq!(e.to_report_string_pretty(), "inner error");
}

#[test]
fn source_follows_the_chain() {
    let e = wrap("outer", leaf("inner"));
    assert_eq!(e.source().unwrap().message(false), "inner");
    assert!(e.source().unwrap().source().is_none());

    let singleton = ErrorNode::Multi(MultiError(vec![wrap("outer", leaf("inner"))]));
    assert_eq!(singleton.source().unwrap().message(false), "inner");

    let wide = ErrorNode::Multi(MultiError(vec![leaf("a"), leaf("b")]));
    assert!(wide.source().is_none());
}

#[test]
fn long_chain_aligns_ordinals() {
    let mut node = leaf("cause 11");
    let mut i: usize = 10;
    while i >= 1 {
        node = wrap(&format!("cause {}", i), node);
        i -= 1;
    }
    let mut expected = String::from("cause 1\n\nCaused by these errors (recent errors listed first):\n");
    for k in 1..=10usize {
        if k < 10 {
            expected.push_str(&format!(" {}: cause {}\n", k, k + 1));
        } else {
            expected.push_str(&format!("{}: cause {}\n", k, k + 1));
        }
    }
    assert_eq!(node.to_report_string_pretty(), expected);
}
