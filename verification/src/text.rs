//! Verified text utilities used by the report renderer: whitespace
//! classification, suffix-based message cleaning, indentation, and decimal
//! ordinals.

use vstd::prelude::*;
use vstd::string::*;

verus! {

/// The characters treated as trailing whitespace when a message is cleaned:
/// the Unicode `White_Space` code points.
pub open spec fn is_space(c: char) -> bool {
    c == ' ' || c == '\t' || c == '\n' || c == '\u{0b}' || c == '\u{0c}' || c == '\r'
        || c == '\u{85}' || c == '\u{a0}' || c == '\u{1680}' || (c as u32 >= 0x2000 && c
        as u32 <= 0x200a) || c == '\u{2028}' || c == '\u{2029}' || c == '\u{202f}'
        || c == '\u{205f}' || c == '\u{3000}'
}

fn char_is_space(c: char) -> (b: bool)
    ensures
        b == is_space(c),
{
    c == ' ' || c == '\t' || c == '\n' || c == '\u{0b}' || c == '\u{0c}' || c == '\r'
        || c == '\u{85}' || c == '\u{a0}' || c == '\u{1680}' || (c as u32 >= 0x2000 && c
        as u32 <= 0x200a) || c == '\u{2028}' || c == '\u{2029}' || c == '\u{202f}'
        || c == '\u{205f}' || c == '\u{3000}'
}

/// `t` with the exact trailing occurrence of `s` removed, when there is one.
pub open spec fn strip_suffix(t: Seq<char>, s: Seq<char>) -> Seq<char> {
    if s.len() <= t.len() && t.skip(t.len() - s.len()) == s {
        t.take(t.len() - s.len())
    } else {
        t
    }
}

/// `t` with every trailing whitespace character removed.
pub open spec fn trim_trailing_space(t: Seq<char>) -> Seq<char>
    decreases t.len(),
{
    if t.len() > 0 && is_space(t.last()) {
        trim_trailing_space(t.drop_last())
    } else {
        t
    }
}

/// `t` with a single trailing `':'` removed, when there is one.
pub open spec fn strip_one_colon(t: Seq<char>) -> Seq<char> {
    if t.len() > 0 && t.last() == ':' {
        t.drop_last()
    } else {
        t
    }
}

/// The cleaned form of a message `t` whose direct cause renders as `s`:
/// the trailing occurrence of `s` is removed, then trailing whitespace,
/// then a single trailing colon, in that order.
pub open spec fn spec_clean(t: Seq<char>, s: Seq<char>) -> Seq<char> {
    strip_one_colon(trim_trailing_space(strip_suffix(t, s)))
}

proof fn lemma_trim_prefix_step(t: Seq<char>, k: int)
    requires
        0 < k <= t.len(),
        is_space(t[k - 1]),
    ensures
        trim_trailing_space(t.take(k)) == trim_trailing_space(t.take(k - 1)),
{
    assert(t.take(k).last() == t[k - 1]);
    assert(t.take(k).drop_last() =~= t.take(k - 1));
}

/// Does `s` occur in `t` starting at position `off` and running to the end?
fn suffix_matches(t: &str, s: &str, off: usize) -> (b: bool)
    requires
        off + s@.len() == t@.len(),
    ensures
        b == (t@.skip(off as int) == s@),
{
    let n = s.unicode_len();
    let tn = t.unicode_len();
    for i in 0..n
        invariant
            off + s@.len() == t@.len(),
            n == s@.len(),
            tn == t@.len(),
            forall|j: int| 0 <= j < i ==> t@[off + j] == s@[j],
    {
        assert(off + i < tn);
        if t.get_char(off + i) != s.get_char(i) {
            proof {
                assert(t@.skip(off as int)[i as int] != s@[i as int]);
            }
            return false;
        }
    }
    proof {
        assert(t@.skip(off as int) =~= s@);
    }
    true
}

/// Cleans message `t` against the rendering `src` of its direct cause.
pub fn clean_text(t: &String, src: &String) -> (r: String)
    ensures
        r@ == spec_clean(t@, src@),
{
    let tl = t.as_str().unicode_len();
    let sl = src.as_str().unicode_len();
    let mut k: usize = tl;
    if sl <= tl && suffix_matches(t.as_str(), src.as_str(), tl - sl) {
        k = tl - sl;
    }
    proof {
        assert(strip_suffix(t@, src@) =~= t@.take(k as int));
    }
    let ghost k0: int = k as int;
    while k > 0 && char_is_space(t.as_str().get_char(k - 1))
        invariant
            0 <= k <= k0 <= t@.len(),
            tl == t@.len(),
            trim_trailing_space(t@.take(k0)) == trim_trailing_space(t@.take(k as int)),
        decreases k,
    {
        proof {
            lemma_trim_prefix_step(t@, k as int);
        }
        k = k - 1;
    }
    proof {
        assert(trim_trailing_space(t@.take(k as int)) == t@.take(k as int));
    }
    let ghost k1: int = k as int;
    if k > 0 && t.as_str().get_char(k - 1) == ':' {
        k = k - 1;
        proof {
            assert(t@.take(k1).last() == ':');
            assert(t@.take(k1).drop_last() =~= t@.take(k as int));
        }
    }
    let r = t.as_str().substring_char(0, k);
    proof {
        assert(r@ =~= t@.take(k as int));
    }
    r.to_owned()
}

/// A run of `n` space characters, used for bullet indentation.
pub open spec fn spec_spaces(n: nat) -> Seq<char>
    decreases n,
{
    if n == 0 {
        Seq::empty()
    } else {
        spec_spaces((n - 1) as nat).push(' ')
    }
}

pub proof fn lemma_spaces_len(n: nat)
    ensures
        spec_spaces(n).len() == n,
        forall|i: int| 0 <= i < n ==> spec_spaces(n)[i] == ' ',
    decreases n,
{
    if n > 0 {
        lemma_spaces_len((n - 1) as nat);
    }
}

/// Indentation one step deeper extends the shallower indentation.
pub proof fn lemma_spaces_add(a: nat, b: nat)
    ensures
        spec_spaces(a + b) == spec_spaces(a) + spec_spaces(b),
    decreases b,
{
    lemma_spaces_len(a);
    lemma_spaces_len(b);
    lemma_spaces_len(a + b);
    assert(spec_spaces(a + b) =~= spec_spaces(a) + spec_spaces(b));
}

/// Appends `n` spaces to `out`.
pub fn push_spaces(out: &mut String, n: usize)
    ensures
        final(out)@ == old(out)@ + spec_spaces(n as nat),
{
    let ghost start = out@;
    for i in 0..n
        invariant
            out@ == start + spec_spaces(i as nat),
    {
        out.append(" ");
        proof {
            reveal_strlit(" ");
            assert(" "@ =~= seq![' ']);
            assert(start + spec_spaces((i + 1) as nat) =~= out@);
        }
    }
}

/// The decimal digit character for `d` (meaningful for `d < 10`).
pub open spec fn spec_digit(d: nat) -> char {
    if d == 0 {
        '0'
    } else if d == 1 {
        '1'
    } else if d == 2 {
        '2'
    } else if d == 3 {
        '3'
    } else if d == 4 {
        '4'
    } else if d == 5 {
        '5'
    } else if d == 6 {
        '6'
    } else if d == 7 {
        '7'
    } else if d == 8 {
        '8'
    } else {
        '9'
    }
}

/// The decimal representation of `n`, most significant digit first.
pub open spec fn spec_decimal(n: nat) -> Seq<char>
    decreases n,
{
    if n < 10 {
        seq![spec_digit(n)]
    } else {
        spec_decimal(n / 10).push(spec_digit(n % 10))
    }
}

fn digit_str(d: usize) -> (r: &'static str)
    requires
        d < 10,
    ensures
        r@ =~= seq![spec_digit(d as nat)],
{
    proof {
        reveal_strlit("0");
        reveal_strlit("1");
        reveal_strlit("2");
        reveal_strlit("3");
        reveal_strlit("4");
        reveal_strlit("5");
        reveal_strlit("6");
        reveal_strlit("7");
        reveal_strlit("8");
        reveal_strlit("9");
    }
    if d == 0 {
        "0"
    } else if d == 1 {
        "1"
    } else if d == 2 {
        "2"
    } else if d == 3 {
        "3"
    } else if d == 4 {
        "4"
    } else if d == 5 {
        "5"
    } else if d == 6 {
        "6"
    } else if d == 7 {
        "7"
    } else if d == 8 {
        "8"
    } else {
        "9"
    }
}

/// Appends the decimal representation of `n` to `out`.
pub fn push_decimal(out: &mut String, n: usize)
    ensures
        final(out)@ == old(out)@ + spec_decimal(n as nat),
    decreases n,
{
    if n >= 10 {
        push_decimal(out, n / 10);
    }
    out.append(digit_str(n % 10));
    proof {
        assert(out@ =~= old(out)@ + spec_decimal(n as nat));
    }
}

/// A one-based ordinal, right-aligned to a width of at least two characters,
/// as used for the numbered lines of a pretty report.
pub open spec fn spec_ordinal(n: nat) -> Seq<char> {
    if n < 10 {
        seq![' '] + spec_decimal(n)
    } else {
        spec_decimal(n)
    }
}

/// Appends the padded ordinal for `n` to `out`.
pub fn push_ordinal(out: &mut String, n: usize)
    ensures
        final(out)@ == old(out)@ + spec_ordinal(n as nat),
{
    if n < 10 {
        proof {
            reveal_strlit(" ");
        }
        out.append(" ");
        proof {
            assert(" "@ =~= seq![' ']);
        }
    }
    push_decimal(out, n);
    proof {
        if n < 10 {
            assert(out@ =~= old(out)@ + spec_ordinal(n as nat));
        }
    }
}

} // verus!
