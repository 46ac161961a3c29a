//! The report renderer: walks a causal chain, cleans duplicated trailing
//! text, and lays the remaining messages out in compact or pretty form.
//!
//! Two independent flags drive rendering.  The *layout* flag chooses how the
//! messages of one causal chain are arranged: on a single line joined by
//! `": "`, or as a head line followed by a numbered cause list.  The
//! *pretty* flag tells aggregates how to render their own message: as a
//! bracketed single-line list, or as a bullet list indented by the current
//! nesting depth.  A nested report inside an aggregate's message always uses
//! the compact chain layout, so the pretty chain layout appears only at the
//! top of a report.
//!
//! The nesting depth is threaded through the recursion as an explicit
//! parameter: each level of aggregate nesting renders its children two
//! columns deeper, and siblings of a nested aggregate are unaffected by it.

use vstd::prelude::*;

use crate::node::{seq_size, BacktraceValue, ErrorNode, MultiError};
use crate::text::{clean_text, push_ordinal, push_spaces, spec_clean, spec_ordinal, spec_spaces};

verus! {

/// Every error tree holds at least one node.
pub proof fn lemma_size_at_least_one(n: ErrorNode)
    ensures
        n.size() >= 1,
{
}

/// The elements of `s` together hold at least `s.len()` nodes, and at least
/// as many more as any single element holds.
pub proof fn lemma_seq_size_bound(s: Seq<ErrorNode>, i: int)
    requires
        0 <= i < s.len(),
    ensures
        seq_size(s) >= s[i].size() + s.len() - 1,
    decreases s.len(),
{
    lemma_size_at_least_one(s.first());
    if i == 0 {
        lemma_seq_size_rest(s.drop_first());
    } else {
        lemma_seq_size_bound(s.drop_first(), i - 1);
    }
}

/// The elements of `s` together hold at least `s.len()` nodes.
pub proof fn lemma_seq_size_rest(s: Seq<ErrorNode>)
    ensures
        seq_size(s) >= s.len(),
    decreases s.len(),
{
    if s.len() > 0 {
        lemma_size_at_least_one(s.first());
        lemma_seq_size_rest(s.drop_first());
    }
}

/// Whether an error tree is small enough that every indentation width met
/// while rendering it at depth `depth` fits in a machine word.
pub open spec fn render_fits(n: ErrorNode, depth: nat) -> bool {
    &&& depth + 2 * n.size() + 8 <= usize::MAX
    &&& 2 * n.size() + 12 <= usize::MAX
}

/// An aggregate small enough to render leaves every element small enough
/// to render, wherever the element appears in the rendering.
proof fn lemma_element_fits(m: MultiError, i: int, depth: nat)
    requires
        0 <= i < m.0@.len(),
        render_fits(ErrorNode::Multi(m), depth),
    ensures
        render_fits(m.0@[i], depth),
        m.0@.len() >= 2 ==> render_fits(m.0@[i], depth + 2),
        render_fits(m.0@[i], 0),
        render_fits(m.0@[i], 4),
{
    lemma_seq_size_bound(m.0@, i);
    assert(ErrorNode::Multi(m).size() == 1 + m.size());
    assert(m.size() == seq_size(m.0@));
}

/// The message a node shows for itself, independent of its causal chain.
///
/// A `Message` node's text is stored verbatim.  An aggregate's message is
/// empty when it holds nothing, its element's message when it holds exactly
/// one, and otherwise a fixed header followed by every element's own
/// recursive report.
pub open spec fn spec_message(n: ErrorNode, pretty: bool, depth: nat) -> Seq<char>
    decreases n, 1int,
{
    match n {
        ErrorNode::Message { text, .. } => text@,
        ErrorNode::Multi(m) => spec_multi_message(m, pretty, depth),
    }
}

/// The message of an aggregate; see [`spec_message`].
pub open spec fn spec_multi_message(m: MultiError, pretty: bool, depth: nat) -> Seq<char>
    decreases m, 1int,
{
    if m.0@.len() == 0 {
        Seq::empty()
    } else if m.0@.len() == 1 {
        spec_message(m.0@[0], pretty, depth)
    } else if pretty {
        "Multiple errors occurred"@ + "\n"@ + spec_bullets(m.0@, depth)
    } else {
        "Multiple errors occurred"@ + ": "@ + spec_brackets(m.0@)
    }
}

/// The bullet list of an aggregate's elements: each element's own report,
/// prefixed with `depth` spaces and a bullet, one line per element, with
/// the element itself rendered one indentation step deeper.
pub open spec fn spec_bullets(s: Seq<ErrorNode>, depth: nat) -> Seq<char>
    decreases s, 1int,
{
    if s.len() == 0 {
        Seq::empty()
    } else if s.len() == 1 {
        spec_spaces(depth) + "* "@ + spec_report(s.last(), false, true, depth + 2)
    } else {
        spec_bullets(s.drop_last(), depth) + "\n"@ + spec_spaces(depth) + "* "@ + spec_report(
            s.last(),
            false,
            true,
            depth + 2,
        )
    }
}

/// The bracketed list of an aggregate's elements: each element's own
/// compact report in brackets, comma-separated.
pub open spec fn spec_brackets(s: Seq<ErrorNode>) -> Seq<char>
    decreases s, 1int,
{
    if s.len() == 0 {
        Seq::empty()
    } else if s.len() == 1 {
        "["@ + spec_report(s.last(), false, false, 0) + "]"@
    } else {
        spec_brackets(s.drop_last()) + ", "@ + "["@ + spec_report(s.last(), false, false, 0)
            + "]"@
    }
}

/// The raw texts of a node's causal chain, root first, one per node: the
/// node's own message, then the messages of its sources in order.  The head
/// is rendered at `head_depth`, every later message at `tail_depth`.
pub open spec fn spec_chain(n: ErrorNode, pretty: bool, head_depth: nat, tail_depth: nat) -> Seq<
    Seq<char>,
>
    decreases n, 2int,
{
    match n {
        ErrorNode::Message { text, source, .. } => match source {
            Some(b) => seq![text@] + spec_chain(*b, pretty, tail_depth, tail_depth),
            None => seq![text@],
        },
        ErrorNode::Multi(m) => spec_chain_multi(m, pretty, head_depth, tail_depth),
    }
}

/// The raw chain texts of an aggregate: with exactly one element the
/// aggregate is transparent and the chain is its element's chain; with any
/// other number of elements the aggregate's message is the whole chain.
pub open spec fn spec_chain_multi(
    m: MultiError,
    pretty: bool,
    head_depth: nat,
    tail_depth: nat,
) -> Seq<Seq<char>>
    decreases m, 2int,
{
    if m.0@.len() == 1 {
        spec_chain(m.0@[0], pretty, head_depth, tail_depth)
    } else {
        seq![spec_multi_message(m, pretty, head_depth)]
    }
}

/// Cleans each chain text against the raw text of its direct cause; the
/// last text, the root cause, is kept as it is.
pub open spec fn spec_clean_chain(ts: Seq<Seq<char>>) -> Seq<Seq<char>> {
    Seq::new(
        ts.len(),
        |i: int|
            if i + 1 < ts.len() {
                spec_clean(ts[i], ts[i + 1])
            } else {
                ts[i]
            },
    )
}

/// The texts of `ts` that are not empty, in order.
pub open spec fn spec_nonempty(ts: Seq<Seq<char>>) -> Seq<Seq<char>>
    decreases ts,
{
    if ts.len() == 0 {
        Seq::empty()
    } else if ts.last().len() == 0 {
        spec_nonempty(ts.drop_last())
    } else {
        spec_nonempty(ts.drop_last()).push(ts.last())
    }
}

/// The first `k` messages joined on one line by `": "`.
pub open spec fn spec_joined_upto(msgs: Seq<Seq<char>>, k: int) -> Seq<char>
    decreases k,
{
    if k <= 0 {
        Seq::empty()
    } else if k == 1 {
        msgs[0]
    } else {
        spec_joined_upto(msgs, k - 1) + ": "@ + msgs[k - 1]
    }
}

/// The numbered cause lines for messages `1 .. k`: a padded one-based
/// ordinal, a colon, the message, and a line break each.
pub open spec fn spec_numbered_upto(msgs: Seq<Seq<char>>, k: int) -> Seq<char>
    decreases k,
{
    if k <= 1 {
        Seq::empty()
    } else {
        spec_numbered_upto(msgs, k - 1) + spec_ordinal((k - 1) as nat) + ": "@ + msgs[k - 1]
            + "\n"@
    }
}

/// Lays out the non-empty cleaned messages of one chain.
///
/// Compact layout joins everything on one line.  Pretty layout emits the
/// head alone, under it a cause block: nothing for a single message, a
/// `Caused by:` line with the one cause indented for two messages, and a
/// numbered list, most recent cause first, for more.
pub open spec fn spec_layout(msgs: Seq<Seq<char>>, layout_pretty: bool) -> Seq<char> {
    if msgs.len() == 0 {
        Seq::empty()
    } else if !layout_pretty {
        spec_joined_upto(msgs, msgs.len() as int)
    } else if msgs.len() == 1 {
        msgs[0]
    } else if msgs.len() == 2 {
        msgs[0] + "\n\nCaused by:\n"@ + "    "@ + msgs[1] + "\n"@
    } else {
        msgs[0] + "\n\nCaused by these errors (recent errors listed first):\n"@
            + spec_numbered_upto(msgs, msgs.len() as int)
    }
}

/// The report text of a node: its chain, cleaned, filtered of empty
/// messages, and laid out.  In the pretty chain layout the cause messages
/// are rendered at the indentation of the cause block they appear in.
pub open spec fn spec_report(
    n: ErrorNode,
    layout_pretty: bool,
    pretty: bool,
    depth: nat,
) -> Seq<char>
    decreases n, 3int,
{
    spec_layout(
        spec_nonempty(
            spec_clean_chain(
                spec_chain(
                    n,
                    pretty,
                    depth,
                    if layout_pretty {
                        4
                    } else {
                        depth
                    },
                ),
            ),
        ),
        layout_pretty,
    )
}

/// The report text of a top-level node in the given mode.
pub open spec fn spec_report_text(n: ErrorNode, pretty: bool) -> Seq<char> {
    spec_report(n, pretty, pretty, 0)
}

/// The backtrace trailer appended to a report when a capture is present
/// and was not disabled.  The compact report does not end with a line
/// break, so one is added before the trailer there.
pub open spec fn spec_trailer(bt: Option<BacktraceValue>, pretty: bool) -> Seq<char> {
    match bt {
        Some(b) => if b.captured {
            (if pretty {
                Seq::<char>::empty()
            } else {
                "\n"@
            }) + "\nBacktrace:\n"@ + b.text@ + "\n"@
        } else {
            Seq::empty()
        },
        None => Seq::empty(),
    }
}

/// A complete rendered report: the chain text, and, when backtraces were
/// asked for, the trailer for the given backtrace answer.
pub open spec fn spec_full_report(
    n: ErrorNode,
    bt: Option<BacktraceValue>,
    pretty: bool,
    want_backtrace: bool,
) -> Seq<char> {
    spec_report_text(n, pretty) + if want_backtrace {
        spec_trailer(bt, pretty)
    } else {
        Seq::empty()
    }
}

/// The views of a sequence of owned strings.
pub open spec fn texts_of(v: Seq<String>) -> Seq<Seq<char>> {
    v.map_values(|s: String| s@)
}

/// Whether an error tree is small enough to render at all: every
/// indentation width met while rendering it from the top fits in a machine
/// word.  Anything that fits in memory by a wide margin satisfies this.
pub open spec fn renderable(n: ErrorNode) -> bool {
    2 * n.size() + 12 <= usize::MAX
}

/// See [`spec_message`].
pub fn render_message(n: &ErrorNode, pretty: bool, depth: usize) -> (r: String)
    requires
        render_fits(*n, depth as nat),
    ensures
        r@ == spec_message(*n, pretty, depth as nat),
    decreases n, 1int,
{
    match n {
        ErrorNode::Message { text, .. } => text.clone(),
        ErrorNode::Multi(m) => render_multi_message(m, pretty, depth),
    }
}

/// See [`spec_multi_message`].
pub fn render_multi_message(m: &MultiError, pretty: bool, depth: usize) -> (r: String)
    requires
        render_fits(ErrorNode::Multi(*m), depth as nat),
    ensures
        r@ == spec_multi_message(*m, pretty, depth as nat),
    decreases m, 1int,
{
    let len = m.0.len();
    if len == 0 {
        String::new()
    } else if len == 1 {
        proof {
            lemma_element_fits(*m, 0, depth as nat);
        }
        render_message(&m.0[0], pretty, depth)
    } else {
        let mut out = String::new();
        out.append("Multiple errors occurred");
        if pretty {
            out.append("\n");
            for i in 0..len
                invariant
                    len == m.0@.len(),
                    2 <= len,
                    render_fits(ErrorNode::Multi(*m), depth as nat),
                    out@ == "Multiple errors occurred"@ + "\n"@ + spec_bullets(
                        m.0@.take(i as int),
                        depth as nat,
                    ),
            {
                proof {
                    lemma_element_fits(*m, i as int, depth as nat);
                }
                if i > 0 {
                    out.append("\n");
                }
                push_spaces(&mut out, depth);
                out.append("* ");
                let child = render_report(&m.0[i], false, true, depth + 2);
                out.append(child.as_str());
                proof {
                    assert(m.0@.take(i + 1).drop_last() =~= m.0@.take(i as int));
                    assert(m.0@.take(i + 1).last() == m.0@[i as int]);
                    assert(out@ =~= "Multiple errors occurred"@ + "\n"@ + spec_bullets(
                        m.0@.take(i + 1),
                        depth as nat,
                    ));
                }
            }
            proof {
                assert(m.0@.take(len as int) =~= m.0@);
            }
        } else {
            out.append(": ");
            for i in 0..len
                invariant
                    len == m.0@.len(),
                    2 <= len,
                    render_fits(ErrorNode::Multi(*m), depth as nat),
                    out@ == "Multiple errors occurred"@ + ": "@ + spec_brackets(
                        m.0@.take(i as int),
                    ),
            {
                proof {
                    lemma_element_fits(*m, i as int, depth as nat);
                }
                if i > 0 {
                    out.append(", ");
                }
                out.append("[");
                let child = render_report(&m.0[i], false, false, 0);
                out.append(child.as_str());
                out.append("]");
                proof {
                    assert(m.0@.take(i + 1).drop_last() =~= m.0@.take(i as int));
                    assert(m.0@.take(i + 1).last() == m.0@[i as int]);
                    assert(out@ =~= "Multiple errors occurred"@ + ": "@ + spec_brackets(
                        m.0@.take(i + 1),
                    ));
                }
            }
            proof {
                assert(m.0@.take(len as int) =~= m.0@);
            }
        }
        out
    }
}

/// See [`spec_chain`].
pub fn render_chain(n: &ErrorNode, pretty: bool, head_depth: usize, tail_depth: usize) -> (r: Vec<
    String,
>)
    requires
        render_fits(*n, head_depth as nat),
        render_fits(*n, tail_depth as nat),
    ensures
        texts_of(r@) == spec_chain(*n, pretty, head_depth as nat, tail_depth as nat),
    decreases n, 2int,
{
    match n {
        ErrorNode::Message { text, source, .. } => {
            let mut v: Vec<String> = Vec::new();
            v.push(text.clone());
            match source {
                Some(b) => {
                    let mut rest = render_chain(&**b, pretty, tail_depth, tail_depth);
                    let ghost rest_texts = texts_of(rest@);
                    v.append(&mut rest);
                    proof {
                        assert(texts_of(v@) =~= seq![text@] + rest_texts);
                    }
                },
                None => {},
            }
            proof {
                assert(texts_of(v@) =~= spec_chain(
                    *n,
                    pretty,
                    head_depth as nat,
                    tail_depth as nat,
                ));
            }
            v
        },
        ErrorNode::Multi(m) => render_chain_multi(m, pretty, head_depth, tail_depth),
    }
}

/// See [`spec_chain_multi`].
pub fn render_chain_multi(
    m: &MultiError,
    pretty: bool,
    head_depth: usize,
    tail_depth: usize,
) -> (r: Vec<String>)
    requires
        render_fits(ErrorNode::Multi(*m), head_depth as nat),
        render_fits(ErrorNode::Multi(*m), tail_depth as nat),
    ensures
        texts_of(r@) == spec_chain_multi(*m, pretty, head_depth as nat, tail_depth as nat),
    decreases m, 2int,
{
    if m.0.len() == 1 {
        proof {
            lemma_element_fits(*m, 0, head_depth as nat);
            lemma_element_fits(*m, 0, tail_depth as nat);
        }
        render_chain(&m.0[0], pretty, head_depth, tail_depth)
    } else {
        let mut v: Vec<String> = Vec::new();
        v.push(render_multi_message(m, pretty, head_depth));
        proof {
            assert(texts_of(v@) =~= seq![
                spec_multi_message(*m, pretty, head_depth as nat),
            ]);
        }
        v
    }
}

/// See [`spec_clean_chain`].
fn clean_chain_texts(raw: &Vec<String>) -> (r: Vec<String>)
    ensures
        texts_of(r@) == spec_clean_chain(texts_of(raw@)),
{
    let mut out: Vec<String> = Vec::new();
    let n = raw.len();
    for i in 0..n
        invariant
            n == raw@.len(),
            out@.len() == i,
            forall|j: int| 0 <= j < i ==> out@[j]@ == spec_clean_chain(texts_of(raw@))[j],
    {
        if i + 1 < n {
            out.push(clean_text(&raw[i], &raw[i + 1]));
        } else {
            out.push(raw[i].clone());
        }
    }
    proof {
        assert(texts_of(out@) =~= spec_clean_chain(texts_of(raw@)));
    }
    out
}

/// See [`spec_nonempty`].
fn keep_nonempty(v: Vec<String>) -> (r: Vec<String>)
    ensures
        texts_of(r@) == spec_nonempty(texts_of(v@)),
{
    let mut out: Vec<String> = Vec::new();
    let n = v.len();
    for i in 0..n
        invariant
            n == v@.len(),
            texts_of(out@) == spec_nonempty(texts_of(v@).take(i as int)),
    {
        proof {
            assert(texts_of(v@).take(i + 1).drop_last() =~= texts_of(v@).take(i as int));
            assert(texts_of(v@).take(i + 1).last() == v@[i as int]@);
        }
        if !v[i].as_str().is_empty() {
            out.push(v[i].clone());
            proof {
                assert(texts_of(out@) =~= spec_nonempty(texts_of(v@).take(i + 1)));
            }
        }
    }
    proof {
        assert(texts_of(v@).take(n as int) =~= texts_of(v@));
    }
    out
}

/// See [`spec_layout`].
fn layout_messages(msgs: &Vec<String>, layout_pretty: bool) -> (r: String)
    ensures
        r@ == spec_layout(texts_of(msgs@), layout_pretty),
{
    let n = msgs.len();
    if n == 0 {
        return String::new();
    }
    let mut out: String = msgs[0].clone();
    if !layout_pretty {
        for i in 1..n
            invariant
                n == msgs@.len(),
                out@ == spec_joined_upto(texts_of(msgs@), i as int),
        {
            out.append(": ");
            out.append(msgs[i].as_str());
            proof {
                assert(out@ =~= spec_joined_upto(texts_of(msgs@), i + 1));
            }
        }
        out
    } else if n == 1 {
        out
    } else if n == 2 {
        out.append("\n\nCaused by:\n");
        out.append("    ");
        out.append(msgs[1].as_str());
        out.append("\n");
        proof {
            assert(out@ =~= spec_layout(texts_of(msgs@), layout_pretty));
        }
        out
    } else {
        out.append("\n\nCaused by these errors (recent errors listed first):\n");
        for i in 1..n
            invariant
                n == msgs@.len(),
                3 <= n,
                out@ == texts_of(msgs@)[0]
                    + "\n\nCaused by these errors (recent errors listed first):\n"@
                    + spec_numbered_upto(texts_of(msgs@), i as int),
        {
            push_ordinal(&mut out, i);
            out.append(": ");
            out.append(msgs[i].as_str());
            out.append("\n");
            proof {
                assert(out@ =~= texts_of(msgs@)[0]
                    + "\n\nCaused by these errors (recent errors listed first):\n"@
                    + spec_numbered_upto(texts_of(msgs@), i + 1));
            }
        }
        out
    }
}

/// See [`spec_report`]: renders one node's report.
pub fn render_report(n: &ErrorNode, layout_pretty: bool, pretty: bool, depth: usize) -> (r:
    String)
    requires
        render_fits(*n, depth as nat),
    ensures
        r@ == spec_report(*n, layout_pretty, pretty, depth as nat),
    decreases n, 3int,
{
    let tail_depth: usize = if layout_pretty {
        4
    } else {
        depth
    };
    let raw = render_chain(n, pretty, depth, tail_depth);
    let cleaned = clean_chain_texts(&raw);
    let msgs = keep_nonempty(cleaned);
    layout_messages(&msgs, layout_pretty)
}

/// See [`spec_report`]: renders an aggregate's report without wrapping the
/// aggregate in a node first.
pub fn render_report_multi(
    m: &MultiError,
    layout_pretty: bool,
    pretty: bool,
    depth: usize,
) -> (r: String)
    requires
        render_fits(ErrorNode::Multi(*m), depth as nat),
    ensures
        r@ == spec_report(ErrorNode::Multi(*m), layout_pretty, pretty, depth as nat),
{
    let tail_depth: usize = if layout_pretty {
        4
    } else {
        depth
    };
    let raw = render_chain_multi(m, pretty, depth, tail_depth);
    let cleaned = clean_chain_texts(&raw);
    let msgs = keep_nonempty(cleaned);
    layout_messages(&msgs, layout_pretty)
}

/// The structural debug form of a node, for low-level diagnostics: a
/// `Message` node shows its own text; see [`spec_debug_multi`] for
/// aggregates.
pub open spec fn spec_debug(n: ErrorNode) -> Seq<char>
    decreases n,
{
    match n {
        ErrorNode::Message { text, .. } => text@,
        ErrorNode::Multi(m) => spec_debug_multi(m),
    }
}

/// The structural debug form of an aggregate: empty when it holds nothing,
/// its element's debug form when it holds exactly one, and otherwise a
/// labeled dump of every element, neither deduplicated nor indented.
pub open spec fn spec_debug_multi(m: MultiError) -> Seq<char>
    decreases m,
{
    if m.0@.len() == 0 {
        Seq::empty()
    } else if m.0@.len() == 1 {
        spec_debug(m.0@[0])
    } else {
        "MultiError(["@ + spec_debug_items(m.0@) + "])"@
    }
}

/// The elements' debug forms, comma-separated.
pub open spec fn spec_debug_items(s: Seq<ErrorNode>) -> Seq<char>
    decreases s,
{
    if s.len() == 0 {
        Seq::empty()
    } else if s.len() == 1 {
        spec_debug(s.last())
    } else {
        spec_debug_items(s.drop_last()) + ", "@ + spec_debug(s.last())
    }
}

impl ErrorNode {
    /// The node's rendered description, independent of its causal chain;
    /// see [`spec_message`].
    pub fn message(&self, pretty: bool) -> (r: String)
        requires
            renderable(*self),
        ensures
            r@ == spec_message(*self, pretty, 0),
    {
        render_message(self, pretty, 0)
    }

    /// See [`spec_debug`].
    pub fn debug_text(&self) -> (r: String)
        ensures
            r@ == spec_debug(*self),
        decreases self,
    {
        match self {
            ErrorNode::Message { text, .. } => text.clone(),
            ErrorNode::Multi(m) => m.debug_text(),
        }
    }
}

impl MultiError {
    /// This aggregate seen as an error node.
    pub open spec fn as_node(self) -> ErrorNode {
        ErrorNode::Multi(self)
    }

    /// The aggregate's rendered description; see [`spec_multi_message`].
    pub fn message(&self, pretty: bool) -> (r: String)
        requires
            renderable(self.as_node()),
        ensures
            r@ == spec_multi_message(*self, pretty, 0),
    {
        render_multi_message(self, pretty, 0)
    }

    /// See [`spec_debug_multi`].
    pub fn debug_text(&self) -> (r: String)
        ensures
            r@ == spec_debug_multi(*self),
        decreases self,
    {
        let len = self.0.len();
        if len == 0 {
            String::new()
        } else if len == 1 {
            self.0[0].debug_text()
        } else {
            let mut out = String::new();
            out.append("MultiError([");
            for i in 0..len
                invariant
                    len == self.0@.len(),
                    2 <= len,
                    out@ == "MultiError(["@ + spec_debug_items(self.0@.take(i as int)),
            {
                if i > 0 {
                    out.append(", ");
                }
                let piece = self.0[i].debug_text();
                out.append(piece.as_str());
                proof {
                    assert(self.0@.take(i + 1).drop_last() =~= self.0@.take(i as int));
                    assert(self.0@.take(i + 1).last() == self.0@[i as int]);
                    assert(out@ =~= "MultiError(["@ + spec_debug_items(self.0@.take(i + 1)));
                }
            }
            out.append("])");
            proof {
                assert(self.0@.take(len as int) =~= self.0@);
                assert(out@ =~= spec_debug_multi(*self));
            }
            out
        }
    }
}

} // verus!
