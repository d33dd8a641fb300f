//! Keeping the blank nodes of different sources apart.
//!
//! A blank-node identifier means something only within the source that it
//! came from. When several sources are merged into one stream, every
//! identifier of a source gets that source's suffix appended. The suffixes of
//! one run all have the same length and differ from source to source, so
//! two identifiers from different sources can never become equal.

use vstd::prelude::*;
use crate::term::{Quad, QuadView, Term, TermView};

verus! {

/// The number of hexadecimal digits that one number takes in a suffix.
pub const HEX_WIDTH: usize = 16;

/// The hexadecimal digit for `d`, which is below 16.
pub open spec fn hex_char(d: nat) -> char {
    if d == 0 {
        '0'
    } else if d == 1 {
        '1'
    } else if d == 2 {
        '2'
    } else if d == 3 {
        '3'
    } else if d == 4 {
        '4'
    } else if d == 5 {
        '5'
    } else if d == 6 {
        '6'
    } else if d == 7 {
        '7'
    } else if d == 8 {
        '8'
    } else if d == 9 {
        '9'
    } else if d == 10 {
        'a'
    } else if d == 11 {
        'b'
    } else if d == 12 {
        'c'
    } else if d == 13 {
        'd'
    } else if d == 14 {
        'e'
    } else {
        'f'
    }
}

/// The last `width` hexadecimal digits of `n`, most significant first.
pub open spec fn hex_digits(n: nat, width: nat) -> Seq<char>
    decreases width,
{
    if width == 0 {
        Seq::empty()
    } else {
        hex_digits(n / 16, (width - 1) as nat).push(hex_char(n % 16))
    }
}

/// The suffix of the source with the given index, in the run with the given
/// token: an underscore and the token, an underscore and the index, each
/// number in sixteen hexadecimal digits.
pub open spec fn source_suffix(run: u64, index: u64) -> Seq<char> {
    seq!['_'] + hex_digits(run as nat, HEX_WIDTH as nat) + seq!['_'] + hex_digits(
        index as nat,
        HEX_WIDTH as nat,
    )
}

/// What a term becomes when `suffix` is appended to each of its blank-node
/// identifiers, those inside quoted triples included.
pub open spec fn suffixed_term(t: TermView, suffix: Seq<char>) -> TermView
    decreases t,
{
    match t {
        TermView::BlankNode(id) => TermView::BlankNode(id + suffix),
        TermView::Triple(s, p, o) => TermView::Triple(
            Box::new(suffixed_term(*s, suffix)),
            Box::new(suffixed_term(*p, suffix)),
            Box::new(suffixed_term(*o, suffix)),
        ),
        _ => t,
    }
}

/// What a quad becomes when `suffix` is appended to each of its blank-node
/// identifiers.
pub open spec fn suffixed_quad(q: QuadView, suffix: Seq<char>) -> QuadView {
    QuadView {
        s: suffixed_term(q.s, suffix),
        p: suffixed_term(q.p, suffix),
        o: suffixed_term(q.o, suffix),
        g: match q.g {
            Some(g) => Some(suffixed_term(g, suffix)),
            None => None,
        },
    }
}

/// The blank-node identifiers that occur in a term.
pub open spec fn bnode_ids(t: TermView) -> Set<Seq<char>>
    decreases t,
{
    match t {
        TermView::BlankNode(id) => set![id],
        TermView::Triple(s, p, o) => bnode_ids(*s).union(bnode_ids(*p)).union(bnode_ids(*o)),
        _ => Set::empty(),
    }
}

/// The blank-node identifiers that occur in a quad.
pub open spec fn quad_bnode_ids(q: QuadView) -> Set<Seq<char>> {
    bnode_ids(q.s).union(bnode_ids(q.p)).union(bnode_ids(q.o)).union(
        match q.g {
            Some(g) => bnode_ids(g),
            None => Set::empty(),
        },
    )
}

/// Whether `text` ends with `suffix`.
pub open spec fn ends_with(text: Seq<char>, suffix: Seq<char>) -> bool {
    text.len() >= suffix.len() && text.subrange(text.len() - suffix.len(), text.len() as int)
        == suffix
}

/// The text of one hexadecimal digit.
fn hex_digit_text(d: u64) -> (r: &'static str)
    requires
        d < 16,
    ensures
        r@ == seq![hex_char(d as nat)],
{
    proof {
        reveal_strlit("0");
        reveal_strlit("1");
        reveal_strlit("2");
        reveal_strlit("3");
        reveal_strlit("4");
        reveal_strlit("5");
        reveal_strlit("6");
        reveal_strlit("7");
        reveal_strlit("8");
        reveal_strlit("9");
        reveal_strlit("a");
        reveal_strlit("b");
        reveal_strlit("c");
        reveal_strlit("d");
        reveal_strlit("e");
        reveal_strlit("f");
    }
    let r = if d == 0 {
        "0"
    } else if d == 1 {
        "1"
    } else if d == 2 {
        "2"
    } else if d == 3 {
        "3"
    } else if d == 4 {
        "4"
    } else if d == 5 {
        "5"
    } else if d == 6 {
        "6"
    } else if d == 7 {
        "7"
    } else if d == 8 {
        "8"
    } else if d == 9 {
        "9"
    } else if d == 10 {
        "a"
    } else if d == 11 {
        "b"
    } else if d == 12 {
        "c"
    } else if d == 13 {
        "d"
    } else if d == 14 {
        "e"
    } else {
        "f"
    };
    assert(r@ =~= seq![hex_char(d as nat)]);
    r
}

/// Appends the last `width` hexadecimal digits of `n` to `out`.
fn push_hex(out: &mut String, n: u64, width: usize)
    ensures
        final(out)@ == old(out)@ + hex_digits(n as nat, width as nat),
    decreases width,
{
    if width > 0 {
        push_hex(out, n / 16, width - 1);
        out.append(hex_digit_text(n % 16));
        assert(out@ =~= old(out)@ + hex_digits(n as nat, width as nat));
    } else {
        assert(out@ =~= old(out)@ + hex_digits(n as nat, width as nat));
    }
}

/// The suffix for the blank nodes of one source: `run` is the token of the
/// run, `index` the place of the source among the resolved sources of the
/// run.
pub fn bnode_suffix(run: u64, index: u64) -> (r: String)
    ensures
        r@ == source_suffix(run, index),
{
    proof {
        reveal_strlit("_");
    }
    let mut out = String::new();
    out.append("_");
    push_hex(&mut out, run, HEX_WIDTH);
    out.append("_");
    push_hex(&mut out, index, HEX_WIDTH);
    assert(out@ =~= source_suffix(run, index));
    out
}

/// Appends `suffix` to every blank-node identifier of `term`.
pub fn add_bnode_suffix_t(term: Term, suffix: &str) -> (r: Term)
    ensures
        r@ == suffixed_term(term@, suffix@),
    decreases term,
{
    match term {
        Term::BlankNode(id) => Term::BlankNode(id.concat(suffix)),
        Term::Triple(s, p, o) => {
            let s_new = add_bnode_suffix_t(*s, suffix);
            let p_new = add_bnode_suffix_t(*p, suffix);
            let o_new = add_bnode_suffix_t(*o, suffix);
            Term::Triple(Box::new(s_new), Box::new(p_new), Box::new(o_new))
        },
        other => other,
    }
}

/// Appends `suffix` to every blank-node identifier of `quad`.
pub fn add_bnode_suffix_q(quad: Quad, suffix: &str) -> (r: Quad)
    ensures
        r@ == suffixed_quad(quad@, suffix@),
{
    let Quad { s, p, o, g } = quad;
    let g_new = match g {
        Some(g) => Some(add_bnode_suffix_t(g, suffix)),
        None => None,
    };
    Quad {
        s: add_bnode_suffix_t(s, suffix),
        p: add_bnode_suffix_t(p, suffix),
        o: add_bnode_suffix_t(o, suffix),
        g: g_new,
    }
}

/// The hexadecimal digits of a number are as many as asked for.
pub proof fn lemma_hex_digits_len(n: nat, width: nat)
    ensures
        hex_digits(n, width).len() == width,
    decreases width,
{
    if width > 0 {
        lemma_hex_digits_len(n / 16, (width - 1) as nat);
    }
}

/// Sixteen to the power `width`.
pub open spec fn pow16(width: nat) -> nat
    decreases width,
{
    if width == 0 {
        1
    } else {
        16 * pow16((width - 1) as nat)
    }
}

/// Two numbers that fit in `width` hexadecimal digits and have the same
/// digits are the same number.
pub proof fn lemma_hex_digits_injective(n: nat, m: nat, width: nat)
    requires
        n < pow16(width),
        m < pow16(width),
        hex_digits(n, width) == hex_digits(m, width),
    ensures
        n == m,
    decreases width,
{
    if width > 0 {
        let w = (width - 1) as nat;
        let a = hex_digits(n / 16, w);
        let b = hex_digits(m / 16, w);
        lemma_hex_digits_len(n / 16, w);
        lemma_hex_digits_len(m / 16, w);
        assert(a.push(hex_char(n % 16)).last() == hex_char(n % 16));
        assert(b.push(hex_char(m % 16)).last() == hex_char(m % 16));
        assert(hex_char(n % 16) == hex_char(m % 16));
        assert(n % 16 == m % 16);
        assert(a.push(hex_char(n % 16)).drop_last() =~= a);
        assert(b.push(hex_char(m % 16)).drop_last() =~= b);
        assert(a == b);
        lemma_hex_digits_injective(n / 16, m / 16, w);
    }
}

/// Every `u64` fits in sixteen hexadecimal digits.
pub proof fn lemma_u64_fits(n: u64)
    ensures
        (n as nat) < pow16(HEX_WIDTH as nat),
{
    assert(pow16(16) == 0x1_0000_0000_0000_0000nat) by {
        reveal_with_fuel(pow16, 17);
    }
}

/// The suffixes of one run all have the same length.
pub proof fn lemma_source_suffix_len(run: u64, index: u64)
    ensures
        source_suffix(run, index).len() == 2 * HEX_WIDTH + 2,
{
    lemma_hex_digits_len(run as nat, HEX_WIDTH as nat);
    lemma_hex_digits_len(index as nat, HEX_WIDTH as nat);
}

/// Two sources of one run with different indices have different suffixes.
pub proof fn lemma_source_suffix_injective(run: u64, a: u64, b: u64)
    requires
        a != b,
    ensures
        source_suffix(run, a) != source_suffix(run, b),
{
    let w = HEX_WIDTH as nat;
    let head = seq!['_'] + hex_digits(run as nat, w) + seq!['_'];
    lemma_hex_digits_len(run as nat, w);
    lemma_hex_digits_len(a as nat, w);
    lemma_hex_digits_len(b as nat, w);
    if source_suffix(run, a) == source_suffix(run, b) {
        let sa = source_suffix(run, a);
        let sb = source_suffix(run, b);
        assert(sa.subrange(head.len() as int, sa.len() as int) =~= hex_digits(a as nat, w));
        assert(sb.subrange(head.len() as int, sb.len() as int) =~= hex_digits(b as nat, w));
        lemma_u64_fits(a);
        lemma_u64_fits(b);
        lemma_hex_digits_injective(a as nat, b as nat, w);
    }
}

/// Every blank-node identifier of a suffixed term ends with the suffix.
pub proof fn lemma_suffixed_ids_end_with_suffix(t: TermView, suffix: Seq<char>, id: Seq<char>)
    requires
        bnode_ids(suffixed_term(t, suffix)).contains(id),
    ensures
        ends_with(id, suffix),
    decreases t,
{
    match t {
        TermView::BlankNode(old_id) => {
            assert(id == old_id + suffix);
            assert(id.subrange(id.len() - suffix.len(), id.len() as int) =~= suffix);
        },
        TermView::Triple(s, p, o) => {
            if bnode_ids(suffixed_term(*s, suffix)).contains(id) {
                lemma_suffixed_ids_end_with_suffix(*s, suffix, id);
            } else if bnode_ids(suffixed_term(*p, suffix)).contains(id) {
                lemma_suffixed_ids_end_with_suffix(*p, suffix, id);
            } else {
                lemma_suffixed_ids_end_with_suffix(*o, suffix, id);
            }
        },
        _ => {},
    }
}

/// Appending a suffix keeps apart what was apart: within one source, two
/// different identifiers stay different.
pub proof fn lemma_suffix_keeps_ids_distinct(a: Seq<char>, b: Seq<char>, suffix: Seq<char>)
    requires
        a != b,
    ensures
        a + suffix != b + suffix,
{
    if a + suffix == b + suffix {
        assert((a + suffix).subrange(0, a.len() as int) =~= a);
        assert((b + suffix).subrange(0, b.len() as int) =~= b);
        assert(a.len() == b.len());
    }
}

/// No text ends with two different suffixes of the same length.
pub proof fn lemma_one_suffix_per_length(text: Seq<char>, s1: Seq<char>, s_new: Seq<char>)
    requires
        s1.len() == s_new.len(),
        ends_with(text, s1),
        ends_with(text, s_new),
    ensures
        s1 == s_new,
{
}

/// Blank nodes of different sources never collide: whatever two terms the
/// sources with indices `a` and `b` of one run produce, once each carries its
/// source's suffix no blank-node identifier occurs in both.
pub proof fn lemma_sources_share_no_blank_node(
    run: u64,
    a: u64,
    b: u64,
    ta: TermView,
    tb: TermView,
)
    requires
        a != b,
    ensures
        bnode_ids(suffixed_term(ta, source_suffix(run, a))).disjoint(
            bnode_ids(suffixed_term(tb, source_suffix(run, b))),
        ),
{
    let sa = source_suffix(run, a);
    let sb = source_suffix(run, b);
    lemma_source_suffix_len(run, a);
    lemma_source_suffix_len(run, b);
    lemma_source_suffix_injective(run, a, b);
    assert forall|id: Seq<char>|
        !(bnode_ids(suffixed_term(ta, sa)).contains(id) && bnode_ids(
            suffixed_term(tb, sb),
        ).contains(id)) by {
        if bnode_ids(suffixed_term(ta, sa)).contains(id) && bnode_ids(
            suffixed_term(tb, sb),
        ).contains(id) {
            lemma_suffixed_ids_end_with_suffix(ta, sa, id);
            lemma_suffixed_ids_end_with_suffix(tb, sb, id);
            lemma_one_suffix_per_length(id, sa, sb);
        }
    }
}

/// The same for whole quads: two quads from different sources of one run
/// share no blank-node identifier once each carries its source's suffix.
pub proof fn lemma_source_quads_share_no_blank_node(
    run: u64,
    a: u64,
    b: u64,
    qa: QuadView,
    qb: QuadView,
)
    requires
        a != b,
    ensures
        quad_bnode_ids(suffixed_quad(qa, source_suffix(run, a))).disjoint(
            quad_bnode_ids(suffixed_quad(qb, source_suffix(run, b))),
        ),
{
    let sa = source_suffix(run, a);
    let sb = source_suffix(run, b);
    lemma_sources_share_no_blank_node(run, a, b, qa.s, qb.s);
    lemma_sources_share_no_blank_node(run, a, b, qa.s, qb.p);
    lemma_sources_share_no_blank_node(run, a, b, qa.s, qb.o);
    lemma_sources_share_no_blank_node(run, a, b, qa.p, qb.s);
    lemma_sources_share_no_blank_node(run, a, b, qa.p, qb.p);
    lemma_sources_share_no_blank_node(run, a, b, qa.p, qb.o);
    lemma_sources_share_no_blank_node(run, a, b, qa.o, qb.s);
    lemma_sources_share_no_blank_node(run, a, b, qa.o, qb.p);
    lemma_sources_share_no_blank_node(run, a, b, qa.o, qb.o);
    if qa.g is Some {
        lemma_sources_share_no_blank_node(run, a, b, qa.g->0, qb.s);
        lemma_sources_share_no_blank_node(run, a, b, qa.g->0, qb.p);
        lemma_sources_share_no_blank_node(run, a, b, qa.g->0, qb.o);
    }
    if qb.g is Some {
        lemma_sources_share_no_blank_node(run, a, b, qa.s, qb.g->0);
        lemma_sources_share_no_blank_node(run, a, b, qa.p, qb.g->0);
        lemma_sources_share_no_blank_node(run, a, b, qa.o, qb.g->0);
    }
    if qa.g is Some && qb.g is Some {
        lemma_sources_share_no_blank_node(run, a, b, qa.g->0, qb.g->0);
    }
}

} // verus!
