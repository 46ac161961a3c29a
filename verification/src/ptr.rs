//! Boxed and reference-counted error wrappers that capture a backtrace at
//! construction, following one of the policies of [`crate::backtrace`].

use std::sync::Arc;

use vstd::prelude::*;

use crate::as_dyn::AsDyn;
use crate::backtrace::WithBacktrace;
use crate::node::{BacktraceValue, ErrorNode};
use crate::report::{AsReport, Report};

verus! {

/// Relies on std's `Arc::clone`: the result is a new handle to the same
/// allocation, so it carries the same value.
#[verifier::external_body]
fn arc_clone<T>(a: &Arc<T>) -> (r: Arc<T>)
    ensures
        r == *a,
{
    Arc::clone(a)
}

/// A boxed error with an optional backtrace captured at construction.
pub struct ErrorBox<B> {
    inner: Box<(ErrorNode, B)>,
}

impl<B: WithBacktrace> ErrorBox<B> {
    /// The boxed error.
    pub closed spec fn spec_inner(self) -> ErrorNode {
        self.inner.0
    }

    /// The capture made at construction, if any.
    pub closed spec fn spec_trace(self) -> Option<BacktraceValue> {
        self.inner.1.spec_value()
    }

    /// The answer this box gives to a backtrace request: its own capture
    /// first, then whatever the boxed error answers.
    pub open spec fn spec_backtrace(self) -> Option<BacktraceValue> {
        match self.spec_trace() {
            Some(b) => Some(b),
            None => self.spec_inner().spec_backtrace(),
        }
    }

    /// Boxes an error, letting the policy `B` decide whether to capture a
    /// backtrace for it.
    pub fn new(t: ErrorNode) -> (r: Self)
        ensures
            r.spec_inner() == t,
    {
        let trace = B::capture(&t);
        ErrorBox { inner: Box::new((t, trace)) }
    }

    /// The boxed error.
    pub fn inner(&self) -> (r: &ErrorNode)
        ensures
            *r == self.spec_inner(),
    {
        &self.inner.0
    }

    /// Mutable access to the boxed error.
    pub fn inner_mut(&mut self) -> (r: &mut ErrorNode)
        ensures
            *r == old(self).spec_inner(),
            final(self).spec_inner() == *final(r),
            final(self).spec_trace() == old(self).spec_trace(),
    {
        &mut self.inner.0
    }

    /// Unwraps the boxed error, dropping the capture.
    pub fn into_inner(self) -> (r: ErrorNode)
        ensures
            r == self.spec_inner(),
    {
        (*self.inner).0
    }

    /// See [`ErrorBox::spec_backtrace`].
    pub fn request_backtrace(&self) -> (r: Option<&BacktraceValue>)
        ensures
            r is Some <==> self.spec_backtrace() is Some,
            r matches Some(b) ==> self.spec_backtrace() == Some(*b),
    {
        match self.inner.1.provide() {
            Some(b) => Some(b),
            None => self.inner.0.request_backtrace(),
        }
    }
}

impl<B: WithBacktrace> AsDyn for ErrorBox<B> {
    open spec fn spec_dyn(&self) -> ErrorNode {
        self.spec_inner()
    }

    fn as_dyn<'a>(&'a self) -> (r: &'a ErrorNode) {
        &self.inner.0
    }
}

impl<B: WithBacktrace> AsReport for ErrorBox<B> {
    open spec fn report_node(&self) -> ErrorNode {
        self.spec_inner()
    }

    open spec fn report_backtrace(&self) -> Option<BacktraceValue> {
        self.spec_backtrace()
    }

    fn as_report<'a>(&'a self) -> (r: Report<'a>) {
        Report::new(&self.inner.0, self.request_backtrace())
    }
}

/// A shared, reference-counted error with an optional backtrace captured
/// at construction.
pub struct ErrorArc<B> {
    inner: Arc<(ErrorNode, B)>,
}

impl<B: WithBacktrace> ErrorArc<B> {
    /// The shared error.
    pub closed spec fn spec_inner(self) -> ErrorNode {
        self.inner.0
    }

    /// The capture made at construction, if any.
    pub closed spec fn spec_trace(self) -> Option<BacktraceValue> {
        self.inner.1.spec_value()
    }

    /// The answer this handle gives to a backtrace request: its own
    /// capture first, then whatever the shared error answers.
    pub open spec fn spec_backtrace(self) -> Option<BacktraceValue> {
        match self.spec_trace() {
            Some(b) => Some(b),
            None => self.spec_inner().spec_backtrace(),
        }
    }

    /// Shares an error, letting the policy `B` decide whether to capture
    /// a backtrace for it.
    pub fn new(t: ErrorNode) -> (r: Self)
        ensures
            r.spec_inner() == t,
    {
        let trace = B::capture(&t);
        ErrorArc { inner: Arc::new((t, trace)) }
    }

    /// The shared error.
    pub fn inner(&self) -> (r: &ErrorNode)
        ensures
            *r == self.spec_inner(),
    {
        &self.inner.0
    }

    /// See [`ErrorArc::spec_backtrace`].
    pub fn request_backtrace(&self) -> (r: Option<&BacktraceValue>)
        ensures
            r is Some <==> self.spec_backtrace() is Some,
            r matches Some(b) ==> self.spec_backtrace() == Some(*b),
    {
        match self.inner.1.provide() {
            Some(b) => Some(b),
            None => self.inner.0.request_backtrace(),
        }
    }
}

impl<B: WithBacktrace> Clone for ErrorArc<B> {
    /// Clones the handle, sharing the same error and capture.
    fn clone(&self) -> (r: Self)
        ensures
            r == *self,
    {
        ErrorArc { inner: arc_clone(&self.inner) }
    }
}

impl<B: WithBacktrace> AsDyn for ErrorArc<B> {
    open spec fn spec_dyn(&self) -> ErrorNode {
        self.spec_inner()
    }

    fn as_dyn<'a>(&'a self) -> (r: &'a ErrorNode) {
        &self.inner.0
    }
}

impl<B: WithBacktrace> AsReport for ErrorArc<B> {
    open spec fn report_node(&self) -> ErrorNode {
        self.spec_inner()
    }

    open spec fn report_backtrace(&self) -> Option<BacktraceValue> {
        self.spec_backtrace()
    }

    fn as_report<'a>(&'a self) -> (r: Report<'a>) {
        Report::new(&self.inner.0, self.request_backtrace())
    }
}

} // verus!
