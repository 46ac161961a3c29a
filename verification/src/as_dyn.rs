//! Viewing any error-like value of this library as a plain node.

use vstd::prelude::*;

use crate::node::{DisableBacktrace, ErrorNode};

verus! {

/// The capability of being borrowed as a plain [`ErrorNode`], so that one
/// rendering engine serves every error-like value.
pub trait AsDyn {
    /// The node this value stands for.
    spec fn spec_dyn(&self) -> ErrorNode;

    /// Borrows the value as a plain node.
    fn as_dyn<'a>(&'a self) -> (r: &'a ErrorNode)
        ensures
            *r == self.spec_dyn(),
    ;
}

impl AsDyn for ErrorNode {
    open spec fn spec_dyn(&self) -> ErrorNode {
        *self
    }

    fn as_dyn<'a>(&'a self) -> (r: &'a ErrorNode) {
        self
    }
}

impl AsDyn for DisableBacktrace {
    open spec fn spec_dyn(&self) -> ErrorNode {
        self.0
    }

    fn as_dyn<'a>(&'a self) -> (r: &'a ErrorNode) {
        &self.0
    }
}

} // verus!
