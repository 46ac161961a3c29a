//! Rendering of causally linked error chains and multi-error aggregates.
//!
//! An [`ErrorNode`](node::ErrorNode) is either a plain message with an
//! optional cause, or a [`MultiError`](node::MultiError) holding an ordered
//! sequence of independent sub-errors.  A [`Report`](report::Report) walks
//! the causal chain, removes each cause's text where it reappears as a
//! trailing suffix of its effect's message, and lays the remaining messages
//! out in a compact single-line form or a pretty multi-line form.

pub mod as_dyn;
pub mod backtrace;
pub mod laws;
pub mod node;
pub mod ptr;
pub mod render;
pub mod report;
pub mod text;

pub use as_dyn::AsDyn;
pub use backtrace::{MaybeBacktrace, NoExtraBacktrace, WithBacktrace};
pub use node::{BacktraceValue, DisableBacktrace, ErrorNode, MultiError};
pub use ptr::{ErrorArc, ErrorBox};
pub use report::{AsReport, Report};
