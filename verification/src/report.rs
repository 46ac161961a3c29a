//! The public reporting interface: [`Report`] wraps an error for display,
//! and [`AsReport`] is the capability an error-like value offers to be
//! reported.
//!
//! A report renders in two modes — compact, one line joined by `": "`, and
//! pretty, a head line followed by a cause block — and in two verbosity
//! levels: message only, or message plus a backtrace trailer when a capture
//! is present and was not disabled.

use vstd::prelude::*;

use crate::node::{BacktraceValue, DisableBacktrace, ErrorNode, MultiError};
use crate::render::{
    render_chain, render_chain_multi, render_report, render_report_multi, renderable,
    spec_chain, spec_clean_chain, spec_full_report, texts_of,
};

verus! {

enum Target<'a> {
    Node(&'a ErrorNode),
    Multi(&'a MultiError),
}

/// A view over an error that renders its causal chain in a cleaned-up way.
///
/// Obtained from [`AsReport::as_report`].  The wrapped error and the answer
/// it gave to a backtrace request are both captured when the report is
/// made; rendering is then a pure function of them.
pub struct Report<'a> {
    target: Target<'a>,
    backtrace: Option<&'a BacktraceValue>,
}

impl<'a> Report<'a> {
    /// The reported error, seen as a node.
    pub closed spec fn spec_node(self) -> ErrorNode {
        match self.target {
            Target::Node(n) => *n,
            Target::Multi(m) => ErrorNode::Multi(*m),
        }
    }

    /// The answer the reported error gave to a backtrace request.
    pub closed spec fn spec_backtrace(self) -> Option<BacktraceValue> {
        match self.backtrace {
            Some(b) => Some(*b),
            None => None,
        }
    }

    /// Wraps a borrowed node, together with the answer it gave to a
    /// backtrace request, for rendering.
    pub fn new(node: &'a ErrorNode, backtrace: Option<&'a BacktraceValue>) -> (r: Report<'a>)
        ensures
            r.spec_node() == *node,
            r.spec_backtrace() == match backtrace {
                Some(b) => Some(*b),
                None => None::<BacktraceValue>,
            },
    {
        Report { target: Target::Node(node), backtrace }
    }

    /// Renders the report in the chosen mode, with the backtrace trailer
    /// when asked for and a non-disabled capture is present.
    pub fn render(&self, pretty: bool, want_backtrace: bool) -> (r: String)
        requires
            renderable(self.spec_node()),
        ensures
            r@ == spec_full_report(
                self.spec_node(),
                self.spec_backtrace(),
                pretty,
                want_backtrace,
            ),
    {
        let mut out = match &self.target {
            Target::Node(n) => render_report(n, pretty, pretty, 0),
            Target::Multi(m) => render_report_multi(m, pretty, pretty, 0),
        };
        if want_backtrace {
            match self.backtrace {
                Some(b) => {
                    if b.captured {
                        if !pretty {
                            out.append("\n");
                        }
                        out.append("\nBacktrace:\n");
                        out.append(b.text.as_str());
                        out.append("\n");
                        proof {
                            assert(out@ =~= spec_full_report(
                                self.spec_node(),
                                self.spec_backtrace(),
                                pretty,
                                want_backtrace,
                            ));
                        }
                    }
                },
                None => {},
            }
        }
        out
    }

    /// The chain walker's output for this report's error: one step per
    /// node of the causal chain, root first, holding the node's message
    /// cleaned against its cause's text and a flag saying whether cleaning
    /// removed anything.
    ///
    /// The messages are rendered as the report in the given mode would
    /// render them: the head at the top level, the causes at the
    /// indentation of the pretty cause block.
    pub fn cleaned_error_trace(&self, pretty: bool) -> (r: Vec<(String, bool)>)
        requires
            renderable(self.spec_node()),
        ensures
            ({
                let raw = spec_chain(
                    self.spec_node(),
                    pretty,
                    0,
                    if pretty {
                        4nat
                    } else {
                        0nat
                    },
                );
                let cleaned = spec_clean_chain(raw);
                &&& r@.len() == raw.len()
                &&& forall|i: int|
                    0 <= i < r@.len() ==> r@[i].0@ == cleaned[i] && r@[i].1 == (cleaned[i].len()
                        != raw[i].len())
            }),
    {
        let tail_depth: usize = if pretty {
            4
        } else {
            0
        };
        let raw = match &self.target {
            Target::Node(n) => render_chain(n, pretty, 0, tail_depth),
            Target::Multi(m) => render_chain_multi(m, pretty, 0, tail_depth),
        };
        let ghost raw_texts = texts_of(raw@);
        let mut out: Vec<(String, bool)> = Vec::new();
        let n = raw.len();
        for i in 0..n
            invariant
                n == raw@.len(),
                raw_texts == texts_of(raw@),
                out@.len() == i,
                forall|j: int|
                    0 <= j < i ==> out@[j].0@ == spec_clean_chain(raw_texts)[j] && out@[j].1 == (
                    spec_clean_chain(raw_texts)[j].len() != raw_texts[j].len()),
        {
            let step = if i + 1 < n {
                crate::text::clean_text(&raw[i], &raw[i + 1])
            } else {
                raw[i].clone()
            };
            let truncated = step.as_str().unicode_len() != raw[i].as_str().unicode_len();
            out.push((step, truncated));
        }
        out
    }
}

/// The capability of being rendered as a [`Report`].
///
/// Every error-like value of this library offers it: plain nodes,
/// aggregates, boxed errors, and the backtrace-hiding wrapper.
pub trait AsReport {
    /// The reported error, seen as a node.
    spec fn report_node(&self) -> ErrorNode;

    /// The answer the error gives to a backtrace request.
    spec fn report_backtrace(&self) -> Option<BacktraceValue>;

    /// Wraps the error for reporting.
    fn as_report<'a>(&'a self) -> (r: Report<'a>)
        ensures
            r.spec_node() == self.report_node(),
            r.spec_backtrace() == self.report_backtrace(),
    ;

    /// The compact report text.
    fn to_report_string(&self) -> (r: String)
        requires
            renderable(self.report_node()),
        ensures
            r@ == spec_full_report(self.report_node(), self.report_backtrace(), false, false),
    {
        self.as_report().render(false, false)
    }

    /// The compact report text, with the backtrace trailer when one is
    /// available.
    fn to_report_string_with_backtrace(&self) -> (r: String)
        requires
            renderable(self.report_node()),
        ensures
            r@ == spec_full_report(self.report_node(), self.report_backtrace(), false, true),
    {
        self.as_report().render(false, true)
    }

    /// The pretty report text.
    fn to_report_string_pretty(&self) -> (r: String)
        requires
            renderable(self.report_node()),
        ensures
            r@ == spec_full_report(self.report_node(), self.report_backtrace(), true, false),
    {
        self.as_report().render(true, false)
    }

    /// The pretty report text, with the backtrace trailer when one is
    /// available.
    fn to_report_string_pretty_with_backtrace(&self) -> (r: String)
        requires
            renderable(self.report_node()),
        ensures
            r@ == spec_full_report(self.report_node(), self.report_backtrace(), true, true),
    {
        self.as_report().render(true, true)
    }
}

impl AsReport for ErrorNode {
    open spec fn report_node(&self) -> ErrorNode {
        *self
    }

    open spec fn report_backtrace(&self) -> Option<BacktraceValue> {
        self.spec_backtrace()
    }

    fn as_report<'a>(&'a self) -> (r: Report<'a>) {
        Report { target: Target::Node(self), backtrace: self.request_backtrace() }
    }
}

impl AsReport for MultiError {
    open spec fn report_node(&self) -> ErrorNode {
        ErrorNode::Multi(*self)
    }

    open spec fn report_backtrace(&self) -> Option<BacktraceValue> {
        self.spec_backtrace()
    }

    fn as_report<'a>(&'a self) -> (r: Report<'a>) {
        Report { target: Target::Multi(self), backtrace: self.request_backtrace() }
    }
}

impl AsReport for DisableBacktrace {
    open spec fn report_node(&self) -> ErrorNode {
        self.0
    }

    open spec fn report_backtrace(&self) -> Option<BacktraceValue> {
        None
    }

    fn as_report<'a>(&'a self) -> (r: Report<'a>) {
        Report { target: Target::Node(&self.0), backtrace: None }
    }
}

} // verus!
