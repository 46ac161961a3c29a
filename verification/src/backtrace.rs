//! Backtrace capture policies used by the boxed error wrappers.
//!
//! Capturing is an operation of the surrounding runtime: whether a capture
//! actually takes place depends on the environment, so nothing is promised
//! about the captured value itself, only about when a policy holds one.

use vstd::prelude::*;

use crate::node::{BacktraceValue, ErrorNode};

verus! {

/// Relies on `std::backtrace::Backtrace`: `capture` obtains a backtrace
/// for the current thread, `status` says whether a capture actually took
/// place, and the `Display` form is its text.  The outcome depends on the
/// environment, so nothing is promised of the result.
#[verifier::external_body]
fn capture_backtrace() -> (r: BacktraceValue) {
    let bt = std::backtrace::Backtrace::capture();
    let captured = bt.status() == std::backtrace::BacktraceStatus::Captured;
    BacktraceValue { captured, text: format!("{}", bt) }
}

/// How a boxed error obtains a backtrace at construction.
pub trait WithBacktrace: Sized {
    /// The capture this policy holds, if any.
    spec fn spec_value(&self) -> Option<BacktraceValue>;

    /// Decides, from the error being boxed, whether to capture.
    fn capture(inner: &ErrorNode) -> Self;

    /// The capture to hand to a backtrace request, if any.
    fn provide<'a>(&'a self) -> (r: Option<&'a BacktraceValue>)
        ensures
            r is Some <==> self.spec_value() is Some,
            r matches Some(b) ==> self.spec_value() == Some(*b),
    ;
}

/// Captures no extra backtrace.
pub struct NoExtraBacktrace;

impl WithBacktrace for NoExtraBacktrace {
    open spec fn spec_value(&self) -> Option<BacktraceValue> {
        None
    }

    fn capture(inner: &ErrorNode) -> (r: Self)
        ensures
            r.spec_value() is None,
    {
        NoExtraBacktrace
    }

    fn provide<'a>(&'a self) -> (r: Option<&'a BacktraceValue>) {
        None
    }
}

/// Captures a backtrace only when the error being boxed does not already
/// expose one of its own.
pub struct MaybeBacktrace(Option<BacktraceValue>);

impl WithBacktrace for MaybeBacktrace {
    closed spec fn spec_value(&self) -> Option<BacktraceValue> {
        self.0
    }

    fn capture(inner: &ErrorNode) -> (r: Self)
        ensures
            (r.spec_value() is Some) == (inner.spec_backtrace() is None),
    {
        match inner.request_backtrace() {
            Some(_) => MaybeBacktrace(None),
            None => MaybeBacktrace(Some(capture_backtrace())),
        }
    }

    fn provide<'a>(&'a self) -> (r: Option<&'a BacktraceValue>) {
        match &self.0 {
            Some(b) => Some(b),
            None => None,
        }
    }
}

} // verus!
