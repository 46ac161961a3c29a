//! The error data model: a node is either a plain message with an optional
//! causal source, or an aggregate of independently owned sub-errors.
//!
//! Because sub-errors and sources are owned, an error value is always a
//! finite tree: a cyclic causal chain cannot be represented, so every walk
//! over a chain terminates.

use vstd::prelude::*;

verus! {

/// An opaque diagnostic capture attached to an error.
///
/// A value whose `captured` flag is `false` stands for a disabled or
/// unsupported capture; reports omit such values.
pub struct BacktraceValue {
    /// Whether a capture actually took place.
    pub captured: bool,
    /// The textual form of the capture.
    pub text: String,
}

impl BacktraceValue {
    /// A value standing for a capture that was disabled.
    pub fn disabled() -> (r: Self)
        ensures
            !r.captured,
            r.text@ == Seq::<char>::empty(),
    {
        BacktraceValue { captured: false, text: String::new() }
    }
}

impl Clone for BacktraceValue {
    fn clone(&self) -> (r: Self)
        ensures
            r == *self,
    {
        BacktraceValue { captured: self.captured, text: self.text.clone() }
    }
}

/// An ordered aggregate of independently failing sub-errors.
///
/// The order is the order in which the errors were collected; the first
/// element is the primary one.  An aggregate holding exactly one element
/// behaves exactly like that element.
pub struct MultiError(pub Vec<ErrorNode>);

/// An error value that can be rendered as a report.
///
/// A `Message` node carries its own rendered description verbatim, an
/// optional single causal predecessor, and an optional diagnostic capture.
/// A `Multi` node aggregates several independent errors.
pub enum ErrorNode {
    Message {
        /// The node's rendered description, independent of the causal chain.
        text: String,
        /// The single causal predecessor, `None` for a root cause.
        source: Option<Box<ErrorNode>>,
        /// A diagnostic capture owned by this node, if any.
        backtrace: Option<BacktraceValue>,
    },
    Multi(MultiError),
}

/// The total number of nodes held by the elements of `s`.
pub open spec fn seq_size(s: Seq<ErrorNode>) -> nat
    decreases s,
{
    if s.len() == 0 {
        0
    } else {
        s.first().size() + seq_size(s.drop_first())
    }
}

/// The first diagnostic capture exposed by an element of `s`, in order.
pub open spec fn seq_backtrace(s: Seq<ErrorNode>) -> Option<BacktraceValue>
    decreases s,
{
    if s.len() == 0 {
        None
    } else {
        match s.first().spec_backtrace() {
            Some(b) => Some(b),
            None => seq_backtrace(s.drop_first()),
        }
    }
}

impl ErrorNode {
    /// The number of nodes in this error tree.
    pub open spec fn size(self) -> nat
        decreases self,
    {
        match self {
            ErrorNode::Message { source, .. } => match source {
                Some(b) => 1 + b.size(),
                None => 1,
            },
            ErrorNode::Multi(m) => 1 + m.size(),
        }
    }

    /// The single causal predecessor of this node.
    ///
    /// An aggregate delegates to its element when it holds exactly one;
    /// with any other number of elements there is no single next cause.
    pub open spec fn spec_source(self) -> Option<ErrorNode>
        decreases self,
    {
        match self {
            ErrorNode::Message { source, .. } => match source {
                Some(b) => Some(*b),
                None => None,
            },
            ErrorNode::Multi(m) => if m.0@.len() == 1 {
                m.0@[0].spec_source()
            } else {
                None
            },
        }
    }

    /// The answer this node gives to a backtrace request: its own capture
    /// if it holds one, otherwise the request is forwarded down the chain;
    /// an aggregate forwards it to every element in order and the first
    /// answer wins.
    pub open spec fn spec_backtrace(self) -> Option<BacktraceValue>
        decreases self,
    {
        match self {
            ErrorNode::Message { backtrace, source, .. } => match backtrace {
                Some(b) => Some(b),
                None => match source {
                    Some(s) => s.spec_backtrace(),
                    None => None,
                },
            },
            ErrorNode::Multi(m) => m.spec_backtrace(),
        }
    }

    /// See [`ErrorNode::spec_source`].
    pub fn source(&self) -> (r: Option<&ErrorNode>)
        ensures
            r is Some <==> self.spec_source() is Some,
            r matches Some(n) ==> self.spec_source() == Some(*n),
        decreases self,
    {
        match self {
            ErrorNode::Message { source, .. } => match source {
                Some(b) => Some(&**b),
                None => None,
            },
            ErrorNode::Multi(m) => if m.0.len() == 1 {
                m.0[0].source()
            } else {
                None
            },
        }
    }

    /// See [`ErrorNode::spec_backtrace`].
    pub fn request_backtrace(&self) -> (r: Option<&BacktraceValue>)
        ensures
            r is Some <==> self.spec_backtrace() is Some,
            r matches Some(b) ==> self.spec_backtrace() == Some(*b),
        decreases self,
    {
        match self {
            ErrorNode::Message { backtrace, source, .. } => match backtrace {
                Some(b) => Some(b),
                None => match source {
                    Some(s) => s.request_backtrace(),
                    None => None,
                },
            },
            ErrorNode::Multi(m) => m.request_backtrace(),
        }
    }
}

impl MultiError {
    /// The total number of nodes held by this aggregate's elements.
    pub open spec fn size(self) -> nat
        decreases self,
    {
        seq_size(self.0@)
    }

    /// See [`ErrorNode::spec_backtrace`].
    pub open spec fn spec_backtrace(self) -> Option<BacktraceValue>
        decreases self,
    {
        seq_backtrace(self.0@)
    }

    /// Collects an aggregate from an ordered sequence of errors.
    pub fn new(errors: Vec<ErrorNode>) -> (r: Self)
        ensures
            r.0 == errors,
    {
        MultiError(errors)
    }

    /// Read-only access to the owned sequence of errors.
    pub fn errors(&self) -> (r: &Vec<ErrorNode>)
        ensures
            *r == self.0,
    {
        &self.0
    }

    /// Forwards a backtrace request to every element, in order; the first
    /// answer wins.
    pub fn request_backtrace(&self) -> (r: Option<&BacktraceValue>)
        ensures
            r is Some <==> self.spec_backtrace() is Some,
            r matches Some(b) ==> self.spec_backtrace() == Some(*b),
        decreases self,
    {
        let n = self.0.len();
        proof {
            assert(self.0@.skip(0) =~= self.0@);
        }
        for i in 0..n
            invariant
                n == self.0@.len(),
                seq_backtrace(self.0@) == seq_backtrace(self.0@.skip(i as int)),
        {
            proof {
                assert(self.0@.skip(i as int).first() == self.0@[i as int]);
                assert(self.0@.skip(i as int).drop_first() =~= self.0@.skip(i + 1));
            }
            match self.0[i].request_backtrace() {
                Some(b) => {
                    return Some(b);
                },
                None => {},
            }
        }
        proof {
            assert(self.0@.skip(n as int).len() == 0);
        }
        None
    }
}

/// A wrapper that hides any diagnostic capture held below it: its answer to
/// a backtrace request is always empty, so a report over it never appends a
/// backtrace trailer.
pub struct DisableBacktrace(pub ErrorNode);

impl DisableBacktrace {
    /// The wrapped error.
    pub fn inner(&self) -> (r: &ErrorNode)
        ensures
            *r == self.0,
    {
        &self.0
    }

    /// Answers every backtrace request with nothing, whatever the wrapped
    /// error holds.
    pub fn request_backtrace(&self) -> (r: Option<&BacktraceValue>)
        ensures
            r is None,
    {
        None
    }
}

} // verus!
