use thiserror_ext::{AsReport, ErrorBox, ErrorNode, NoExtraBacktrace};

type BoxError = ErrorBox<NoExtraBacktrace>;

fn leaf(text: &str) -> ErrorNode {
    ErrorNode::Message { text: text.to_string(), source: None, backtrace: None }
}

#[test]
fn macro_test() {
    let a: BoxError = BoxError::new(leaf(&format!("hello {}", 42)));
    assert!(matches!(a.inner(), ErrorNode::Message { text, .. } if text == "hello 42"));

    let b: BoxError = BoxError::new(leaf(&format!("hello {}", 88)));
    assert!(matches!(b.inner(), ErrorNode::Message { text, .. } if text == "hello 88"));

    let c = BoxError::new(leaf("233"));
    assert!(matches!(c.into_inner(), ErrorNode::Message { text, .. } if text == "233"));
}

#[test]
fn test_bail() {
    fn test() -> Result<(), BoxError> {
        match 1 + 1 {
            3 => Ok(()),
            _ => Err(BoxError::new(leaf("1 + 1 != 3"))),
        }
    }

    let error = test().unwrap_err();
    assert!(matches!(error.inner(), ErrorNode::Message { text, .. } if text == "1 + 1 != 3"));
}

#[test]
fn test_struct() {
    let a = leaf(&format!("hello {}", 42));
    assert!(matches!(&a, ErrorNode::Message { text, .. } if text == "hello 42"));

    fn test() -> Result<(), ErrorNode> {
        match 1 + 1 {
            3 => Ok(()),
            _ => Err(leaf("1 + 1 != 3")),
        }
    }

    let error = test().unwrap_err();
    assert!(matches!(&error, ErrorNode::Message { text, .. } if text == "1 + 1 != 3"));
}

#[test]
fn test_error_as_message() {
    let a = leaf("not implemented: hello world, issue: Some(42)");
    assert_eq!(a.to_report_string(), "not implemented: hello world, issue: Some(42)");
}
