//! The indexed collection that holds the quads of a stream, each once.
//!
//! The collection is the in-memory dataset of `sophia`. It is filled with
//! numbers that stand for the terms: every term of the stream gets the
//! number of its first occurrence among the terms, so that two terms have
//! the same number where they are the same term, and nowhere else. What the
//! dataset hands out is turned back into quads.

use vstd::prelude::*;
use crate::quad_iter::quads_view;
use crate::term::{Quad, QuadView, Term, TermView, option_term_view};

verus! {

/// A quad of numbers that stand for terms: subject, predicate, object and,
/// where there is one, graph name.
pub type IdQuad = (usize, usize, usize, Option<usize>);

/// The mathematical model of an [`IdQuad`].
pub type IdQuadModel = (int, int, int, Option<int>);

/// The model of one quad of numbers.
pub open spec fn id_quad_view(q: IdQuad) -> IdQuadModel {
    (
        q.0 as int,
        q.1 as int,
        q.2 as int,
        match q.3 {
            Some(g) => Some(g as int),
            None => None,
        },
    )
}

/// The models of the quads of numbers of a sequence.
pub open spec fn id_quads_view(quads: Seq<IdQuad>) -> Seq<IdQuadModel> {
    Seq::new(quads.len(), |i: int| id_quad_view(quads[i]))
}

/// The dataset of `sophia` that holds quads of numbers.
#[verifier::external_body]
pub struct QuadIndex {
    inner: sophia::inmem::dataset::LightDataset,
}

/// The quads of numbers that were put into a dataset, in the order in which
/// they were put in.
pub uninterp spec fn filled(d: QuadIndex) -> Seq<IdQuadModel>;

/// Whether a dataset that was filled with `history` takes `quad` as well:
/// it does not where it has no room for another term.
pub uninterp spec fn takes(history: Seq<IdQuadModel>, quad: IdQuadModel) -> bool;

/// The quads of numbers that a dataset hands out after it was filled with
/// `history`, in the order in which it hands them out.
pub uninterp spec fn handed_out(history: Seq<IdQuadModel>) -> Seq<IdQuadModel>;

/// `LightDataset::new` makes a dataset that holds nothing.
#[verifier::external_body]
pub(crate) fn new_dataset() -> (d: QuadIndex)
    ensures
        filled(d) == Seq::<IdQuadModel>::empty(),
{
    QuadIndex { inner: sophia::inmem::dataset::LightDataset::new() }
}

/// Puts a quad of numbers into the dataset with `MutableDataset::insert`,
/// each number as the integer literal that `sophia_api` makes of a `usize`.
/// The call fails where the index of the dataset is full; whether it does
/// goes by the name above. Where it succeeds, the quad is in the dataset
/// afterwards, with all that was there before.
#[verifier::external_body]
pub(crate) fn insert(d: &mut QuadIndex, quad: IdQuad) -> (r: bool)
    ensures
        r == takes(filled(*old(d)), id_quad_view(quad)),
        r ==> filled(*final(d)) == filled(*old(d)).push(id_quad_view(quad)),
{
    sophia::api::dataset::MutableDataset::insert(&mut d.inner, quad.0, quad.1, quad.2, quad.3)
        .is_ok()
}

/// Reads the quads of the dataset with `Dataset::quads` and turns each term
/// back into its number with `usize::try_from_term`. The dataset keeps its
/// quads in a set that is ordered by the places of the terms in its index:
/// it hands out every quad that was put in, each once, and nothing else; the
/// order goes by the name above.
#[verifier::external_body]
pub(crate) fn read_out(d: &QuadIndex) -> (r: Vec<IdQuad>)
    ensures
        id_quads_view(r@) == handed_out(filled(*d)),
        forall|i: int, j: int|
            0 <= i < j < r@.len() ==> id_quad_view(r@[i]) != id_quad_view(r@[j]),
        forall|i: int| 0 <= i < r@.len() ==> filled(*d).contains(id_quad_view(#[trigger] r@[i])),
        forall|k: int|
            0 <= k < filled(*d).len() ==> id_quads_view(r@).contains(#[trigger] filled(*d)[k]),
{
    sophia::api::dataset::Dataset::quads(&d.inner)
        .map(|q| {
            let (g, [s, p, o]) = q.unwrap_or_else(|e| match e {});
            let n = |t| <usize as sophia::api::term::TryFromTerm>::try_from_term(t).unwrap_or(0);
            (n(s), n(p), n(o), g.map(n))
        })
        .collect()
}

/// The term in one of the four places of a quad: subject, predicate, object
/// and graph name, which a quad of the default graph does not have.
pub open spec fn slot(q: QuadView, k: int) -> Option<TermView> {
    if k == 0 {
        Some(q.s)
    } else if k == 1 {
        Some(q.p)
    } else if k == 2 {
        Some(q.o)
    } else {
        q.g
    }
}

/// The terms of the quads, place by place and quad by quad.
pub open spec fn slots(quads: Seq<QuadView>) -> Seq<Option<TermView>> {
    Seq::new(4 * quads.len(), |i: int| slot(quads[i / 4], i % 4))
}

/// The items among the first `upto` of `s`, each once, in the order in which
/// they first occur.
pub open spec fn firsts_upto<T>(s: Seq<T>, upto: int) -> Seq<T>
    decreases upto,
{
    if upto <= 0 {
        Seq::empty()
    } else {
        entered(firsts_upto(s, upto - 1), s[upto - 1])
    }
}

/// The table `t` with `x` in it: `x` is put behind the others where it is
/// new.
pub open spec fn entered<T>(t: Seq<T>, x: T) -> Seq<T> {
    if t.contains(x) {
        t
    } else {
        t.push(x)
    }
}

/// The index of the first `x` in `s` at or after `from`; the length of `s`
/// where there is none.
pub open spec fn place<T>(s: Seq<T>, x: T, from: int) -> int
    decreases s.len() - from,
{
    if from >= s.len() {
        s.len() as int
    } else if s[from] == x {
        from
    } else {
        place(s, x, from + 1)
    }
}

/// The table of the terms of the quads: each term once, in the order in
/// which the terms first occur.
pub open spec fn table(quads: Seq<QuadView>) -> Seq<Option<TermView>> {
    firsts_upto(slots(quads), 4 * (quads.len() as int))
}

/// The numbers that stand for the terms of `q`: the places of the terms in
/// the table.
pub open spec fn numbers(t: Seq<Option<TermView>>, q: QuadView) -> IdQuadModel {
    (
        place(t, Some(q.s), 0),
        place(t, Some(q.p), 0),
        place(t, Some(q.o), 0),
        match q.g {
            Some(_) => Some(place(t, q.g, 0)),
            None => None,
        },
    )
}

/// The quads of numbers that stand for the quads.
pub open spec fn ids_of(quads: Seq<QuadView>) -> Seq<IdQuadModel> {
    Seq::new(quads.len(), |k: int| numbers(table(quads), quads[k]))
}

/// Whether a dataset takes all of `ids`, one after the other.
pub open spec fn accepted(ids: Seq<IdQuadModel>) -> bool {
    forall|k: int| 0 <= k < ids.len() ==> takes(ids.take(k), #[trigger] ids[k])
}

/// The quad that a quad of numbers stands for.
pub open spec fn quad_back(t: Seq<Option<TermView>>, q: IdQuadModel) -> QuadView {
    QuadView {
        s: t[q.0]->0,
        p: t[q.1]->0,
        o: t[q.2]->0,
        g: match q.3 {
            Some(g) => t[g],
            None => None,
        },
    }
}

/// The quads of a stream as the dataset hands them out once it holds them
/// all; `None` where it does not take them all.
pub open spec fn indexed(quads: Seq<QuadView>) -> Option<Seq<QuadView>> {
    let ids = ids_of(quads);
    if accepted(ids) {
        Some(
            Seq::new(handed_out(ids).len(), |j: int| quad_back(table(quads), handed_out(ids)[j])),
        )
    } else {
        None
    }
}

/// Whether `all` holds the quads of `quads`, each once, and nothing else.
pub open spec fn each_once(all: Seq<QuadView>, quads: Seq<QuadView>) -> bool {
    &&& forall|i: int, j: int| 0 <= i < j < all.len() ==> all[i] != all[j]
    &&& forall|i: int| 0 <= i < all.len() ==> quads.contains(#[trigger] all[i])
    &&& forall|k: int| 0 <= k < quads.len() ==> all.contains(#[trigger] quads[k])
}

/// The first place of an item is a place of that item, and none lies before
/// it.
pub proof fn lemma_place<T>(s: Seq<T>, x: T, from: int)
    requires
        0 <= from <= s.len(),
    ensures
        from <= place(s, x, from) <= s.len(),
        place(s, x, from) < s.len() ==> s[place(s, x, from)] == x,
        forall|k: int| from <= k < place(s, x, from) ==> s[k] != x,
    decreases s.len() - from,
{
    if from < s.len() && s[from] != x {
        lemma_place(s, x, from + 1);
    }
}

/// An item that stands at `i`, and nowhere before, has `i` for its place.
pub proof fn lemma_place_is<T>(s: Seq<T>, x: T, from: int, i: int)
    requires
        0 <= from <= i < s.len(),
        s[i] == x,
        forall|k: int| from <= k < i ==> s[k] != x,
    ensures
        place(s, x, from) == i,
    decreases i - from,
{
    if from < i {
        lemma_place_is(s, x, from + 1, i);
    }
}

/// A table grows at its end only, holds no item twice, and holds every item
/// that was entered.
pub proof fn lemma_firsts<T>(s: Seq<T>, m: int, upto: int)
    requires
        0 <= m <= upto <= s.len(),
    ensures
        firsts_upto(s, m).len() <= firsts_upto(s, upto).len(),
        firsts_upto(s, upto).take(firsts_upto(s, m).len() as int) == firsts_upto(s, m),
        forall|i: int, j: int|
            0 <= i < j < firsts_upto(s, upto).len() ==> firsts_upto(s, upto)[i] != firsts_upto(
                s,
                upto,
            )[j],
        forall|k: int| 0 <= k < upto ==> firsts_upto(s, upto).contains(#[trigger] s[k]),
        forall|i: int|
            0 <= i < firsts_upto(s, upto).len() ==> s.take(upto).contains(
                #[trigger] firsts_upto(s, upto)[i],
            ),
    decreases upto,
{
    let now = firsts_upto(s, upto);
    if upto == 0 {
        assert(now.take(0) =~= firsts_upto(s, m));
    } else {
        let before = firsts_upto(s, upto - 1);
        let x = s[upto - 1];
        if m < upto {
            lemma_firsts(s, m, upto - 1);
            assert(now.take(firsts_upto(s, m).len() as int) =~= before.take(
                firsts_upto(s, m).len() as int,
            ));
        } else {
            lemma_firsts(s, upto - 1, upto - 1);
            assert(now.take(now.len() as int) =~= now);
        }
        assert forall|i: int, j: int| 0 <= i < j < now.len() implies now[i] != now[j] by {
            if j < before.len() {
                assert(now[i] == before[i] && now[j] == before[j]);
            } else {
                assert(!before.contains(x));
                assert(now[i] == before[i]);
            }
        }
        assert forall|k: int| 0 <= k < upto implies now.contains(#[trigger] s[k]) by {
            if k < upto - 1 {
                let i = choose|i: int| 0 <= i < before.len() && #[trigger] before[i] == s[k];
                assert(now[i] == s[k]);
            } else if before.contains(x) {
            } else {
                assert(now[before.len() as int] == x);
            }
        }
        assert(s.take(upto)[upto - 1] == x);
        assert forall|i: int| 0 <= i < now.len() implies s.take(upto).contains(
            #[trigger] now[i],
        ) by {
            if i < before.len() {
                assert(now[i] == before[i]);
                let k = choose|k: int|
                    0 <= k < s.take(upto - 1).len() && #[trigger] s.take(upto - 1)[k] == before[i];
                assert(s.take(upto)[k] == before[i]);
            }
        }
    }
}

/// The numbers of a quad of the stream lead back to that quad.
pub proof fn lemma_numbers_lead_back(quads: Seq<QuadView>, k: int)
    requires
        0 <= k < quads.len(),
    ensures
        ({
            let t = table(quads);
            let n = numbers(t, quads[k]);
            &&& 0 <= n.0 < t.len() && t[n.0] == Some(quads[k].s)
            &&& 0 <= n.1 < t.len() && t[n.1] == Some(quads[k].p)
            &&& 0 <= n.2 < t.len() && t[n.2] == Some(quads[k].o)
            &&& n.3 matches Some(g) ==> 0 <= g < t.len() && t[g] == quads[k].g
            &&& quad_back(t, n) == quads[k]
        }),
{
    let s = slots(quads);
    let t = table(quads);
    let q = quads[k];
    lemma_firsts(s, 0, 4 * (quads.len() as int));
    assert(s[4 * k] == Some(q.s));
    assert(s[4 * k + 1] == Some(q.p));
    assert(s[4 * k + 2] == Some(q.o));
    assert(s[4 * k + 3] == q.g);
    assert(t.contains(Some(q.s)));
    assert(t.contains(Some(q.p)));
    assert(t.contains(Some(q.o)));
    assert(t.contains(q.g));
    lemma_place(t, Some(q.s), 0);
    lemma_place(t, Some(q.p), 0);
    lemma_place(t, Some(q.o), 0);
    lemma_place(t, q.g, 0);
}

/// The views of the entries of a table.
pub open spec fn table_view(t: Seq<Option<Term>>) -> Seq<Option<TermView>> {
    Seq::new(t.len(), |i: int| option_term_view(t[i]))
}

/// Whether two entries are the same.
fn same_entry(a: &Option<Term>, b: &Option<Term>) -> (r: bool)
    ensures
        r == (option_term_view(*a) == option_term_view(*b)),
{
    match (a, b) {
        (Some(x), Some(y)) => x.same(y),
        (None, None) => true,
        _ => false,
    }
}

/// A copy of an entry.
fn copy_entry(a: &Option<Term>) -> (r: Option<Term>)
    ensures
        option_term_view(r) == option_term_view(*a),
{
    match a {
        Some(x) => Some(x.clone()),
        None => None,
    }
}

/// The number of `x` in `table`, where `x` is entered if it is new.
fn number(table: &mut Vec<Option<Term>>, x: &Option<Term>) -> (r: usize)
    ensures
        table_view(final(table)@) == entered(table_view(old(table)@), option_term_view(*x)),
        r == place(table_view(final(table)@), option_term_view(*x), 0),
        r < final(table)@.len(),
{
    let ghost before = table_view(table@);
    let ghost want = option_term_view(*x);
    let mut i: usize = 0;
    while i < table.len()
        invariant
            i <= table@.len(),
            before == table_view(table@),
            want == option_term_view(*x),
            forall|k: int| 0 <= k < i ==> before[k] != want,
        decreases table.len() - i,
    {
        if same_entry(&table[i], x) {
            proof {
                assert(before[i as int] == want);
                lemma_place_is(before, want, 0, i as int);
            }
            return i;
        }
        i += 1;
    }
    table.push(copy_entry(x));
    proof {
        assert(!before.contains(want));
        assert(table_view(table@) =~= before.push(want));
        lemma_place_is(table_view(table@), want, 0, i as int);
    }
    i
}

/// The quads of a stream as the dataset hands them out once it holds them
/// all: every quad of the stream, each once, and nothing else. There are
/// none where the dataset does not take them all.
pub fn unique(quads: Vec<Quad>) -> (r: Option<Vec<Quad>>)
    ensures
        match r {
            Some(all) => indexed(quads_view(quads@)) == Some(quads_view(all@)) && each_once(
                quads_view(all@),
                quads_view(quads@),
            ),
            None => indexed(quads_view(quads@)) is None,
        },
{
    let ghost all = quads_view(quads@);
    let ghost s = slots(all);
    let ghost t = table(all);
    let n = quads.len();
    let mut entries: Vec<Option<Term>> = Vec::new();
    let mut ids: Vec<IdQuad> = Vec::new();
    let mut k: usize = 0;
    assert(table_view(entries@) =~= firsts_upto(s, 0));
    while k < n
        invariant
            k <= n,
            n == quads@.len(),
            all == quads_view(quads@),
            s == slots(all),
            t == table(all),
            table_view(entries@) == firsts_upto(s, 4 * k),
            ids@.len() == k,
            forall|j: int| 0 <= j < k ==> id_quad_view(#[trigger] ids@[j]) == numbers(t, all[j]),
        decreases n - k,
    {
        let q = &quads[k];
        let ghost qv = all[k as int];
        assert(qv == q@);
        proof {
            assert(s[4 * k] == Some(qv.s));
            assert(s[4 * k + 1] == Some(qv.p));
            assert(s[4 * k + 2] == Some(qv.o));
            assert(s[4 * k + 3] == qv.g);
            lemma_firsts(s, 4 * k + 1, 4 * n);
            lemma_firsts(s, 4 * k + 2, 4 * n);
            lemma_firsts(s, 4 * k + 3, 4 * n);
            lemma_firsts(s, 4 * k + 4, 4 * n);
        }
        let subject = Some(q.s.clone());
        let a = number(&mut entries, &subject);
        proof {
            assert(table_view(entries@) == firsts_upto(s, 4 * k + 1));
            lemma_place_in_front(table_view(entries@), t, Some(qv.s));
        }
        let predicate = Some(q.p.clone());
        let b = number(&mut entries, &predicate);
        proof {
            assert(table_view(entries@) == firsts_upto(s, 4 * k + 2));
            lemma_place_in_front(table_view(entries@), t, Some(qv.p));
        }
        let object = Some(q.o.clone());
        let c = number(&mut entries, &object);
        proof {
            assert(table_view(entries@) == firsts_upto(s, 4 * k + 3));
            lemma_place_in_front(table_view(entries@), t, Some(qv.o));
        }
        let graph = copy_entry(&q.g);
        let d = number(&mut entries, &graph);
        proof {
            assert(table_view(entries@) == firsts_upto(s, 4 * k + 4));
            lemma_place_in_front(table_view(entries@), t, qv.g);
        }
        let g = if graph.is_some() {
            Some(d)
        } else {
            None
        };
        ids.push((a, b, c, g));
        k += 1;
    }
    let ghost wanted = ids_of(all);
    assert(id_quads_view(ids@) =~= wanted);
    let mut dataset = new_dataset();
    let mut i: usize = 0;
    assert(wanted.take(0) =~= Seq::<IdQuadModel>::empty());
    while i < ids.len()
        invariant
            i <= ids@.len(),
            all == quads_view(quads@),
            wanted == ids_of(all),
            id_quads_view(ids@) == wanted,
            filled(dataset) == wanted.take(i as int),
            forall|j: int| 0 <= j < i ==> takes(wanted.take(j), #[trigger] wanted[j]),
        decreases ids.len() - i,
    {
        assert(id_quad_view(ids@[i as int]) == wanted[i as int]);
        if !insert(&mut dataset, ids[i]) {
            assert(!takes(wanted.take(i as int), wanted[i as int]));
            assert(!accepted(wanted));
            return None;
        }
        assert(wanted.take(i as int).push(wanted[i as int]) =~= wanted.take(i + 1));
        i += 1;
    }
    assert(wanted.take(wanted.len() as int) =~= wanted);
    let order = read_out(&dataset);
    let ghost handed = id_quads_view(order@);
    let mut out: Vec<Quad> = Vec::new();
    let mut j: usize = 0;
    while j < order.len()
        invariant
            j <= order@.len(),
            out@.len() == j,
            all == quads_view(quads@),
            t == table(all),
            wanted == ids_of(all),
            table_view(entries@) == t,
            handed == id_quads_view(order@),
            forall|m: int| 0 <= m < order@.len() ==> wanted.contains(#[trigger] handed[m]),
            forall|m: int| 0 <= m < j ==> (#[trigger] out@[m])@ == quad_back(t, handed[m]),
        decreases order.len() - j,
    {
        let (a, b, c, g) = order[j];
        proof {
            assert(handed[j as int] == id_quad_view(order@[j as int]));
            assert(wanted.contains(handed[j as int]));
            let w = choose|w: int| 0 <= w < wanted.len() && #[trigger] wanted[w] == handed[j as int];
            lemma_numbers_lead_back(all, w);
        }
        let subject = match &entries[a] {
            Some(x) => x.clone(),
            None => vstd::pervasive::unreached(),
        };
        let predicate = match &entries[b] {
            Some(x) => x.clone(),
            None => vstd::pervasive::unreached(),
        };
        let object = match &entries[c] {
            Some(x) => x.clone(),
            None => vstd::pervasive::unreached(),
        };
        let graph = match g {
            Some(g) => copy_entry(&entries[g]),
            None => None,
        };
        out.push(Quad { s: subject, p: predicate, o: object, g: graph });
        j += 1;
    }
    proof {
        let found = quads_view(out@);
        assert(found =~= indexed(all)->0);
        assert forall|x: int, y: int| 0 <= x < y < found.len() implies found[x] != found[y] by {
            let wx = choose|w: int| 0 <= w < wanted.len() && #[trigger] wanted[w] == handed[x];
            let wy = choose|w: int| 0 <= w < wanted.len() && #[trigger] wanted[w] == handed[y];
            lemma_numbers_lead_back(all, wx);
            lemma_numbers_lead_back(all, wy);
            assert(id_quad_view(order@[x]) != id_quad_view(order@[y]));
        }
        assert forall|x: int| 0 <= x < found.len() implies all.contains(#[trigger] found[x]) by {
            let w = choose|w: int| 0 <= w < wanted.len() && #[trigger] wanted[w] == handed[x];
            lemma_numbers_lead_back(all, w);
            assert(all[w] == found[x]);
        }
        assert forall|w: int| 0 <= w < all.len() implies found.contains(#[trigger] all[w]) by {
            lemma_numbers_lead_back(all, w);
            assert(handed.contains(wanted[w]));
            let x = choose|x: int| 0 <= x < handed.len() && #[trigger] handed[x] == wanted[w];
            assert(found[x] == all[w]);
        }
    }
    Some(out)
}

/// A table that stands in front of a longer one gives an item that it holds
/// the place that the longer one gives it.
pub proof fn lemma_place_in_front<T>(front: Seq<T>, whole: Seq<T>, x: T)
    requires
        front.len() <= whole.len(),
        whole.take(front.len() as int) == front,
        place(front, x, 0) < front.len(),
    ensures
        place(whole, x, 0) == place(front, x, 0),
{
    lemma_place(front, x, 0);
    let i = place(front, x, 0);
    assert forall|k: int| 0 <= k <= i implies whole[k] == front[k] by {
        assert(whole.take(front.len() as int)[k] == whole[k]);
    }
    lemma_place_is(whole, x, 0, i);
}

} // verus!
