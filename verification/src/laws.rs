//! Laws of the report renderer, stated and proved against the rendering
//! specification: what a report shows for a root error, for empty and
//! singleton aggregates, how nested bullet lists indent, and the exact
//! shape of a pretty three-node chain.

use vstd::prelude::*;

use crate::node::{seq_backtrace, BacktraceValue, ErrorNode, MultiError};
use crate::render::{
    spec_bullets, spec_chain, spec_chain_multi, spec_clean_chain, spec_full_report, spec_joined_upto,
    spec_message, spec_multi_message, spec_nonempty, spec_numbered_upto, spec_report,
    spec_report_text,
};
use crate::text::{spec_clean, spec_ordinal, spec_spaces};

verus! {

/// The chain of an error with no causal predecessor is its message alone.
proof fn lemma_chain_of_root(n: ErrorNode, pretty: bool, hd: nat, td: nat)
    requires
        n.spec_source() is None,
    ensures
        spec_chain(n, pretty, hd, td) == seq![spec_message(n, pretty, hd)],
    decreases n,
{
    match n {
        ErrorNode::Message { text, .. } => {
            assert(spec_message(n, pretty, hd) == text@);
            assert(spec_chain(n, pretty, hd, td) =~= seq![text@]);
        },
        ErrorNode::Multi(m) => {
            assert(spec_chain(n, pretty, hd, td) == spec_chain_multi(m, pretty, hd, td));
            assert(spec_message(n, pretty, hd) == spec_multi_message(m, pretty, hd));
            if m.0@.len() == 1 {
                lemma_chain_of_root(m.0@[0], pretty, hd, td);
                assert(spec_chain_multi(m, pretty, hd, td) == spec_chain(
                    m.0@[0],
                    pretty,
                    hd,
                    td,
                ));
                assert(spec_multi_message(m, pretty, hd) == spec_message(m.0@[0], pretty, hd));
            } else {
                assert(spec_chain_multi(m, pretty, hd, td) =~= seq![
                    spec_multi_message(m, pretty, hd),
                ]);
            }
        },
    }
}

/// A report over an error with no causal predecessor shows, in compact
/// mode without backtraces, exactly the error's own message.
pub proof fn lemma_root_compact_report(n: ErrorNode, bt: Option<BacktraceValue>)
    requires
        n.spec_source() is None,
    ensures
        spec_full_report(n, bt, false, false) == spec_message(n, false, 0),
{
    lemma_chain_of_root(n, false, 0, 0);
    let t = spec_message(n, false, 0);
    let s1 = seq![t];
    assert(spec_clean_chain(s1) =~= s1);
    assert(s1.drop_last() =~= Seq::<Seq<char>>::empty());
    assert(spec_nonempty(Seq::<Seq<char>>::empty()) =~= Seq::<Seq<char>>::empty());
    if t.len() == 0 {
        assert(spec_nonempty(s1) =~= Seq::<Seq<char>>::empty());
        assert(spec_full_report(n, bt, false, false) =~= t);
    } else {
        assert(spec_nonempty(s1) =~= s1);
        assert(spec_joined_upto(s1, 1) == t);
        assert(spec_full_report(n, bt, false, false) =~= t);
    }
}

/// A report over an aggregate of no errors is empty, in both modes.
pub proof fn lemma_empty_multi_report(m: MultiError, bt: Option<BacktraceValue>, pretty: bool)
    requires
        m.0@.len() == 0,
    ensures
        spec_full_report(ErrorNode::Multi(m), bt, pretty, false) == Seq::<char>::empty(),
{
    let n = ErrorNode::Multi(m);
    let td: nat = if pretty { 4 } else { 0 };
    let empty = Seq::<char>::empty();
    assert(spec_multi_message(m, pretty, 0) == empty);
    assert(spec_chain(n, pretty, 0, td) == spec_chain_multi(m, pretty, 0, td));
    assert(spec_chain_multi(m, pretty, 0, td) =~= seq![empty]);
    assert(spec_clean_chain(seq![empty]) =~= seq![empty]);
    assert(seq![empty].drop_last() =~= Seq::<Seq<char>>::empty());
    assert(spec_nonempty(Seq::<Seq<char>>::empty()) =~= Seq::<Seq<char>>::empty());
    assert(spec_nonempty(seq![empty]) =~= Seq::<Seq<char>>::empty());
    assert(spec_full_report(n, bt, pretty, false) =~= empty);
}

/// A report over an aggregate of exactly one error is byte-identical to
/// the report over that error alone, in both modes and both verbosity
/// levels.
pub proof fn lemma_singleton_multi_report(m: MultiError, e: ErrorNode, pretty: bool, want: bool)
    requires
        m.0@ == seq![e],
    ensures
        spec_full_report(
            ErrorNode::Multi(m),
            ErrorNode::Multi(m).spec_backtrace(),
            pretty,
            want,
        ) == spec_full_report(e, e.spec_backtrace(), pretty, want),
{
    let n = ErrorNode::Multi(m);
    let td: nat = if pretty { 4 } else { 0 };
    assert(m.0@[0] == e);
    assert(spec_chain(n, pretty, 0, td) == spec_chain_multi(m, pretty, 0, td));
    assert(spec_chain_multi(m, pretty, 0, td) == spec_chain(e, pretty, 0, td));
    assert(spec_report(n, pretty, pretty, 0) == spec_report(e, pretty, pretty, 0));
    assert(n.spec_backtrace() == m.spec_backtrace());
    assert(m.spec_backtrace() == seq_backtrace(m.0@));
    assert(m.0@.first() == e);
    assert(m.0@.drop_first() =~= Seq::<ErrorNode>::empty());
    assert(seq_backtrace(Seq::<ErrorNode>::empty()) is None);
    assert(seq_backtrace(m.0@) == e.spec_backtrace());
}

/// Rendering is pure: the same error with the same backtrace answer, in
/// the same mode and verbosity, always yields the same text.
pub proof fn lemma_rendering_deterministic(
    n1: ErrorNode,
    n2: ErrorNode,
    b1: Option<BacktraceValue>,
    b2: Option<BacktraceValue>,
    pretty: bool,
    want: bool,
)
    requires
        n1 == n2,
        b1 == b2,
    ensures
        spec_full_report(n1, b1, pretty, want) == spec_full_report(n2, b2, pretty, want),
{
}

/// One bullet line of a pretty aggregate message: the nesting depth in
/// spaces, a bullet, and the element's own report one step deeper.
pub open spec fn spec_bullet_item(e: ErrorNode, depth: nat) -> Seq<char> {
    spec_spaces(depth) + "* "@ + spec_report(e, false, true, depth + 2)
}

/// The bullet list splits around any interior position: the items before,
/// a line break, and the items after, each rendered independently.
proof fn lemma_bullets_split(s: Seq<ErrorNode>, k: int, depth: nat)
    requires
        1 <= k < s.len(),
    ensures
        spec_bullets(s, depth) == spec_bullets(s.take(k), depth) + "\n"@ + spec_bullets(
            s.skip(k),
            depth,
        ),
    decreases s.len(),
{
    if k == s.len() - 1 {
        assert(s.take(k) =~= s.drop_last());
        assert(s.skip(k) =~= seq![s.last()]);
        assert(s.skip(k).last() == s.last());
    } else {
        lemma_bullets_split(s.drop_last(), k, depth);
        assert(s.drop_last().take(k) =~= s.take(k));
        assert(s.skip(k).drop_last() =~= s.drop_last().skip(k));
        assert(s.skip(k).last() == s.last());
        assert(s.skip(k).len() >= 2);
        assert(spec_bullets(s, depth) =~= spec_bullets(s.take(k), depth) + "\n"@
            + spec_bullets(s.skip(k), depth));
    }
}

/// Every element of a bullet list contributes one bullet line of the shape
/// [`spec_bullet_item`]: the list is those lines, oldest first, separated
/// by line breaks.
pub proof fn lemma_bullets_last(s: Seq<ErrorNode>, depth: nat)
    requires
        s.len() >= 1,
    ensures
        spec_bullets(s, depth) == if s.len() == 1 {
            spec_bullet_item(s.last(), depth)
        } else {
            spec_bullets(s.drop_last(), depth) + "\n"@ + spec_bullet_item(s.last(), depth)
        },
{
}

/// The report of an aggregate of two or more errors is exactly the
/// aggregate's own message: such an aggregate has no causal chain to walk.
proof fn lemma_report_of_wide_multi(m: MultiError, layout_pretty: bool, pretty: bool, depth: nat)
    requires
        m.0@.len() >= 2,
    ensures
        spec_report(ErrorNode::Multi(m), layout_pretty, pretty, depth) == spec_multi_message(
            m,
            pretty,
            depth,
        ),
{
    let n = ErrorNode::Multi(m);
    let msg = spec_multi_message(m, pretty, depth);
    reveal_strlit("Multiple errors occurred");
    assert(msg.len() > 0);
    let td: nat = if layout_pretty { 4 } else { depth };
    assert(spec_chain(n, pretty, depth, td) == spec_chain_multi(m, pretty, depth, td));
    assert(spec_chain_multi(m, pretty, depth, td) =~= seq![msg]);
    assert(spec_clean_chain(seq![msg]) =~= seq![msg]);
    assert(seq![msg].drop_last() =~= Seq::<Seq<char>>::empty());
    assert(spec_nonempty(Seq::<Seq<char>>::empty()) =~= Seq::<Seq<char>>::empty());
    assert(spec_nonempty(seq![msg]) =~= seq![msg]);
    assert(spec_joined_upto(seq![msg], 1) == msg);
    assert(spec_report(n, layout_pretty, pretty, depth) =~= msg);
}

/// Nested pretty aggregates indent by one fixed step per level, and the
/// depth is restored for the elements that follow a nested aggregate.
///
/// In the bullet list of `outer` rendered at depth `d`, the line of an
/// element that is itself an aggregate of two or more errors shows that
/// aggregate's header and its own bullet list at depth `d + 2` — exactly
/// one indentation step deeper than the outer bullets — and the elements
/// after it are laid out just as they would be without the nested
/// aggregate before them, at the original depth `d`.
pub proof fn lemma_nested_indent(outer: Seq<ErrorNode>, inner: MultiError, i: int, d: nat)
    requires
        0 <= i < outer.len(),
        outer[i] == ErrorNode::Multi(inner),
        inner.0@.len() >= 2,
    ensures
        spec_bullet_item(outer[i], d) == spec_spaces(d) + "* "@ + ("Multiple errors occurred"@
            + "\n"@ + spec_bullets(inner.0@, d + 2)),
        spec_spaces(d + 2) == spec_spaces(d) + spec_spaces(2),
        i + 1 < outer.len() ==> spec_bullets(outer, d) == spec_bullets(outer.take(i + 1), d)
            + "\n"@ + spec_bullets(outer.skip(i + 1), d),
{
    lemma_report_of_wide_multi(inner, false, true, d + 2);
    crate::text::lemma_spaces_add(d, 2);
    if i + 1 < outer.len() {
        lemma_bullets_split(outer, i + 1, d);
    }
}

/// For a three-node chain `A -> B -> C` where `B`'s message literally ends
/// with the text of the root cause `C` — usually followed back up the
/// chain by a colon and a space — the pretty report shows `A`'s message as
/// the head and the two causes as numbered lines, most recent first, with
/// the duplicated text stripped from `B`.
pub proof fn lemma_pretty_three_node_chain(
    n_a: ErrorNode,
    n_b: ErrorNode,
    n_c: ErrorNode,
    a: Seq<char>,
    b: Seq<char>,
    c: Seq<char>,
)
    requires
        n_c matches ErrorNode::Message { text: tc, source: None, .. } && tc@ == c,
        n_b matches ErrorNode::Message {
            text: tb,
            source: Some(sb),
            ..
        } && tb@ == b && *sb == n_c,
        n_a matches ErrorNode::Message {
            text: ta,
            source: Some(sa),
            ..
        } && ta@ == a && *sa == n_b,
        b.len() >= c.len() && b.skip(b.len() - c.len()) == c,
        a.len() > 0,
        c.len() > 0,
        spec_clean(a, b) == a,
        spec_clean(b, c).len() > 0,
    ensures
        spec_report_text(n_a, true) == a
            + "\n\nCaused by these errors (recent errors listed first):\n"@ + spec_ordinal(1)
            + ": "@ + spec_clean(b, c) + "\n"@ + spec_ordinal(2) + ": "@ + c + "\n"@,
{
    let raw = spec_chain(n_a, true, 0, 4);
    assert(spec_chain(n_c, true, 4, 4) =~= seq![c]);
    assert(spec_chain(n_b, true, 4, 4) =~= seq![b] + spec_chain(n_c, true, 4, 4));
    assert(spec_chain(n_b, true, 4, 4) =~= seq![b, c]);
    assert(raw =~= seq![a] + spec_chain(n_b, true, 4, 4));
    assert(raw =~= seq![a, b, c]);
    let cb = spec_clean(b, c);
    let cleaned = spec_clean_chain(raw);
    assert(cleaned =~= seq![spec_clean(a, b), cb, c]);
    assert(cleaned =~= seq![a, cb, c]);
    assert(cleaned.drop_last() =~= seq![a, cb]);
    assert(seq![a, cb].drop_last() =~= seq![a]);
    assert(seq![a].drop_last() =~= Seq::<Seq<char>>::empty());
    assert(spec_nonempty(Seq::<Seq<char>>::empty()) =~= Seq::<Seq<char>>::empty());
    assert(spec_nonempty(seq![a]) =~= seq![a]);
    assert(spec_nonempty(seq![a, cb]) =~= seq![a, cb]);
    assert(spec_nonempty(cleaned) =~= seq![a, cb, c]);
    let msgs = seq![a, cb, c];
    assert(spec_numbered_upto(msgs, 1) =~= Seq::<char>::empty());
    assert(spec_numbered_upto(msgs, 2) =~= spec_ordinal(1) + ": "@ + cb + "\n"@);
    assert(spec_numbered_upto(msgs, 3) =~= spec_numbered_upto(msgs, 2) + spec_ordinal(2) + ": "@
        + c + "\n"@);
    assert(spec_report_text(n_a, true) =~= a
        + "\n\nCaused by these errors (recent errors listed first):\n"@ + spec_ordinal(1)
        + ": "@ + spec_clean(b, c) + "\n"@ + spec_ordinal(2) + ": "@ + c + "\n"@);
}

} // verus!
