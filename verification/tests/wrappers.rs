use thiserror_ext::{
    AsDyn, AsReport, BacktraceValue, DisableBacktrace, ErrorArc, ErrorBox, ErrorNode,
    MaybeBacktrace, MultiError, NoExtraBacktrace, Report,
};

fn leaf(text: &str) -> ErrorNode {
    ErrorNode::Message { text: text.to_string(), source: None, backtrace: None }
}

fn wrap(text: &str, source: ErrorNode) -> ErrorNode {
    ErrorNode::Message { text: text.to_string(), source: Some(Box::new(source)), backtrace: None }
}

fn with_trace(text: &str, trace: &str) -> ErrorNode {
    ErrorNode::Message {
        text: text.to_string(),
        source: None,
        backtrace: Some(BacktraceValue { captured: true, text: trace.to_string() }),
    }
}

#[test]
fn backtrace_trailer_compact() {
    let e = with_trace("boom", "trace line one");
    assert_eq!(e.to_report_string(), "boom");
    assert_eq!(e.to_report_string_with_backtrace(), "boom\n\nBacktrace:\ntrace line one\n");
}

#[test]
fn backtrace_trailer_pretty() {
    let e = ErrorNode::Message {
        text: "outer".to_string(),
        source: Some(Box::new(leaf("inner"))),
        backtrace: Some(BacktraceValue { captured: true, text: "trace".to_string() }),
    };
    assert_eq!(
        e.to_report_string_pretty_with_backtrace(),
        "outer\n\nCaused by:\n    inner\n\nBacktrace:\ntrace\n"
    );
}

#[test]
fn disabled_capture_is_omitted() {
    let e = ErrorNode::Message {
        text: "boom".to_string(),
        source: None,
        backtrace: Some(BacktraceValue { captured: false, text: String::new() }),
    };
    assert_eq!(e.to_report_string_with_backtrace(), "boom");
}

#[test]
fn disable_backtrace_hides_captures() {
    let hidden = DisableBacktrace(with_trace("boom", "trace line one"));
    assert_eq!(hidden.to_report_string_with_backtrace(), "boom");
    assert!(hidden.request_backtrace().is_none());
    assert_eq!(hidden.as_dyn().message(false), "boom");
}

#[test]
fn multi_forwards_backtrace_to_every_element() {
    let m = MultiError(vec![leaf("quiet"), with_trace("loud", "second trace")]);
    assert_eq!(m.request_backtrace().unwrap().text, "second trace");

    let first_wins = MultiError(vec![with_trace("a", "first"), with_trace("b", "second")]);
    assert_eq!(first_wins.request_backtrace().unwrap().text, "first");
}

#[test]
fn error_box_round_trip() {
    let mut b: ErrorBox<NoExtraBacktrace> = ErrorBox::new(wrap("context", leaf("foo")));
    assert_eq!(b.inner().message(false), "context");
    assert_eq!(b.to_report_string(), "context: foo");
    assert_eq!(b.as_dyn().to_report_string(), "context: foo");

    *b.inner_mut() = leaf("other");
    assert!(matches!(b.into_inner(), ErrorNode::Message { text, .. } if text == "other"));
}

#[test]
fn error_arc_shares_one_error() {
    let a: ErrorArc<NoExtraBacktrace> = ErrorArc::new(wrap("context", leaf("foo")));
    let b = a.clone();
    assert_eq!(a.to_report_string(), "context: foo");
    assert_eq!(b.to_report_string(), a.to_report_string());
    assert_eq!(b.inner().message(false), "context");
}

#[test]
fn maybe_backtrace_keeps_an_existing_capture() {
    let b: ErrorBox<MaybeBacktrace> = ErrorBox::new(with_trace("boom", "existing trace"));
    assert_eq!(b.request_backtrace().unwrap().text, "existing trace");
    assert_eq!(
        b.to_report_string_with_backtrace(),
        "boom\n\nBacktrace:\nexisting trace\n"
    );
}

#[test]
fn walker_reports_cleaning() {
    let e = wrap("outer error", wrap("middle error: inner error", leaf("inner error")));
    let steps = e.as_report().cleaned_error_trace(false);
    let texts: Vec<(&str, bool)> =
        steps.iter().map(|(s, f)| (s.as_str(), *f)).collect();
    assert_eq!(
        texts,
        vec![("outer error", false), ("middle error", true), ("inner error", false)]
    );
}

#[test]
fn report_renders_directly() {
    let e = wrap("context", leaf("foo"));
    let r = Report::new(&e, None);
    assert_eq!(r.render(false, false), "context: foo");
    assert_eq!(r.render(true, false), "context\n\nCaused by:\n    foo\n");
}

#[test]
fn debug_text_forms() {
    assert_eq!(MultiError(vec![]).debug_text(), "");
    assert_eq!(MultiError(vec![leaf("only")]).debug_text(), "only");
    assert_eq!(
        MultiError(vec![leaf("a"), leaf("b")]).debug_text(),
        "MultiError([a, b])"
    );
    assert_eq!(wrap("outer", leaf("inner")).debug_text(), "outer");
}

#[test]
fn multi_message_pretty() {
    let m = MultiError(vec![leaf("foo"), leaf("bar")]);
    assert_eq!(m.message(true), "Multiple errors occurred\n* foo\n* bar");
    assert_eq!(m.message(false), "Multiple errors occurred: [foo], [bar]");
}
