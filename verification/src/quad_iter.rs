//! The stream of quads that goes from one stage of a pipeline to the next.
//!
//! A stream is pulled item by item, in the order in which its producer
//! emitted the items. An item is a quad or an error; an error does not end
//! the stream, what becomes of it is up to the stage that pulls it.

use vstd::prelude::*;
use crate::sequence::reversed;
use crate::term::{Quad, QuadView};

verus! {

/// The error that a stream carries in place of a quad that its producer
/// could not deliver.
#[derive(Debug, PartialEq, Eq)]
pub struct QuadIterError(pub String);

impl View for QuadIterError {
    type V = Seq<char>;

    open spec fn view(&self) -> Seq<char> {
        self.0@
    }
}

impl Clone for QuadIterError {
    fn clone(&self) -> (r: Self)
        ensures
            r == *self,
    {
        QuadIterError(self.0.clone())
    }
}

impl QuadIterError {
    /// An error with the given message.
    pub fn new(message: &str) -> (r: Self)
        ensures
            r@ == message@,
    {
        QuadIterError(message.to_owned())
    }

    /// The message of this error.
    pub fn to_string(&self) -> (r: String)
        ensures
            r@ == self@,
    {
        self.0.clone()
    }
}

/// What a stream yields: a quad, or an error in its place.
pub type QuadIterItem = Result<Quad, QuadIterError>;

/// The mathematical model of a [`QuadIterItem`].
pub type ItemView = Result<QuadView, Seq<char>>;

/// The view of one item.
pub open spec fn item_view(item: QuadIterItem) -> ItemView {
    match item {
        Ok(q) => Ok(q@),
        Err(e) => Err(e@),
    }
}

/// The views of the items of a sequence, in order.
pub open spec fn items_view(items: Seq<QuadIterItem>) -> Seq<ItemView> {
    Seq::new(items.len(), |i: int| item_view(items[i]))
}

/// The views of the quads of a sequence, in order.
pub open spec fn quads_view(quads: Seq<Quad>) -> Seq<QuadView> {
    Seq::new(quads.len(), |i: int| quads[i]@)
}

/// The index of the first error of a stream; its length where it has none.
pub open spec fn first_error(items: Seq<ItemView>) -> int
    decreases items.len(),
{
    if items.len() == 0 {
        0
    } else if items[0] is Err {
        0
    } else {
        1 + first_error(items.drop_first())
    }
}

/// What consuming a stream gives: its first error, if it has one.
pub open spec fn consumed(items: Seq<ItemView>) -> Result<(), Seq<char>> {
    if first_error(items) < items.len() {
        Err(items[first_error(items)]->Err_0)
    } else {
        Ok(())
    }
}

/// The first error stands in the stream, and only quads stand before it.
pub proof fn lemma_first_error(items: Seq<ItemView>)
    ensures
        0 <= first_error(items) <= items.len(),
        first_error(items) < items.len() ==> items[first_error(items)] is Err,
        forall|i: int| 0 <= i < first_error(items) ==> (#[trigger] items[i]) is Ok,
    decreases items.len(),
{
    if items.len() > 0 && items[0] is Ok {
        let rest = items.drop_first();
        lemma_first_error(rest);
        assert forall|i: int| 0 <= i < first_error(items) implies (#[trigger] items[i]) is Ok by {
            if i > 0 {
                assert(items[i] == rest[i - 1]);
            }
        }
    }
}

/// The quads of a stream without errors.
pub open spec fn quads_of(items: Seq<ItemView>) -> Seq<QuadView> {
    Seq::new(items.len(), |i: int| items[i]->Ok_0)
}

/// What collecting a stream gives: its quads, or its first error.
pub open spec fn collected(items: Seq<ItemView>) -> Result<Seq<QuadView>, Seq<char>> {
    if first_error(items) < items.len() {
        Err(items[first_error(items)]->Err_0)
    } else {
        Ok(quads_of(items))
    }
}

/// The view of the result of collecting a stream.
pub open spec fn collected_view(r: Result<Vec<Quad>, QuadIterError>) -> Result<
    Seq<QuadView>,
    Seq<char>,
> {
    match r {
        Ok(v) => Ok(quads_view(v@)),
        Err(e) => Err(e@),
    }
}

/// The stream that yields the given quads and no error.
pub open spec fn ok_items(quads: Seq<QuadView>) -> Seq<ItemView> {
    Seq::new(quads.len(), |i: int| Ok::<QuadView, Seq<char>>(quads[i]))
}

/// The quads among the first `upto` items of a stream, in order.
pub open spec fn oks_upto(items: Seq<ItemView>, upto: int) -> Seq<QuadView>
    decreases upto,
{
    if upto <= 0 {
        Seq::empty()
    } else {
        let before = oks_upto(items, upto - 1);
        match items[upto - 1] {
            Ok(q) => before.push(q),
            Err(_) => before,
        }
    }
}

/// Every quad of a stream, in order: what is left when its errors are taken
/// out.
pub open spec fn ok_quads(items: Seq<ItemView>) -> Seq<QuadView> {
    oks_upto(items, items.len() as int)
}

/// Every quad of a stream is among its quads, at the place that the quads
/// before it leave, so that the quads keep their number and their order.
pub proof fn lemma_ok_quads_hold_each_quad(items: Seq<ItemView>, i: int)
    requires
        0 <= i < items.len(),
        items[i] is Ok,
    ensures
        0 <= oks_upto(items, i).len() < ok_quads(items).len(),
        ok_quads(items)[oks_upto(items, i).len() as int] == items[i]->Ok_0,
    decreases items.len() - i,
{
    lemma_oks_grow(items, i + 1, items.len() as int);
    assert(oks_upto(items, i + 1) == oks_upto(items, i).push(items[i]->Ok_0));
    let at = oks_upto(items, i).len() as int;
    assert(ok_quads(items).take(at + 1)[at] == oks_upto(items, i + 1)[at]);
}

/// The quads of a longer part of a stream begin with the quads of a shorter
/// part.
pub proof fn lemma_oks_grow(items: Seq<ItemView>, i: int, upto: int)
    requires
        0 <= i <= upto <= items.len(),
    ensures
        oks_upto(items, i).len() <= oks_upto(items, upto).len(),
        oks_upto(items, upto).take(oks_upto(items, i).len() as int) == oks_upto(items, i),
    decreases upto - i,
{
    if i < upto {
        lemma_oks_grow(items, i, upto - 1);
        let part = oks_upto(items, i);
        assert(oks_upto(items, upto).take(part.len() as int) =~= oks_upto(items, upto - 1).take(
            part.len() as int,
        ));
    } else {
        assert(oks_upto(items, i).take(oks_upto(items, i).len() as int) =~= oks_upto(items, i));
    }
}

/// Nothing but the quads of a stream is among its quads: each of them is an
/// item of the stream.
pub proof fn lemma_ok_quads_hold_nothing_else(items: Seq<ItemView>, upto: int, k: int) -> (i: int)
    requires
        0 <= upto <= items.len(),
        0 <= k < oks_upto(items, upto).len(),
    ensures
        0 <= i < upto,
        items[i] == Ok::<QuadView, Seq<char>>(oks_upto(items, upto)[k]),
        k == oks_upto(items, i).len(),
    decreases upto,
{
    let before = oks_upto(items, upto - 1);
    if k < before.len() {
        let i = lemma_ok_quads_hold_nothing_else(items, upto - 1, k);
        i
    } else {
        upto - 1
    }
}

/// The successful items of a stream before its first error.
pub open spec fn quads_before_error(items: Seq<ItemView>) -> Seq<QuadView> {
    quads_of(items.take(first_error(items)))
}

/// A copy of an item.
pub fn clone_item(item: &QuadIterItem) -> (r: QuadIterItem)
    ensures
        r == *item,
{
    match item {
        Ok(q) => Ok(q.clone()),
        Err(e) => Err(e.clone()),
    }
}

/// A stream of quads. Its view is the sequence of the items that are still
/// to come.
#[derive(Debug)]
pub struct QuadIter {
    /// The items to come, the next one last.
    rest: Vec<QuadIterItem>,
}

impl View for QuadIter {
    type V = Seq<ItemView>;

    closed spec fn view(&self) -> Seq<ItemView> {
        Seq::new(self.rest@.len(), |i: int| item_view(self.rest@[self.rest@.len() - 1 - i]))
    }
}

impl QuadIter {
    /// The stream that yields `items` in order.
    pub fn new(items: Vec<QuadIterItem>) -> (r: Self)
        ensures
            r@ == items_view(items@),
    {
        let ghost all = items@;
        let rest = reversed(items);
        let r = QuadIter { rest };
        assert(r@ =~= items_view(all));
        r
    }

    /// The stream without items.
    pub fn empty() -> (r: Self)
        ensures
            r@ == Seq::<ItemView>::empty(),
    {
        let r = QuadIter { rest: Vec::new() };
        assert(r@ =~= Seq::<ItemView>::empty());
        r
    }

    /// Pulls the next item, if there is one.
    pub fn next(&mut self) -> (r: Option<QuadIterItem>)
        ensures
            match r {
                Some(item) => {
                    &&& old(self)@.len() > 0
                    &&& item_view(item) == old(self)@[0]
                    &&& final(self)@ == old(self)@.drop_first()
                },
                None => old(self)@.len() == 0 && final(self)@ == old(self)@,
            },
    {
        let r = self.rest.pop();
        assert(r is Some ==> self@ =~= old(self)@.drop_first());
        assert(r is None ==> self@ =~= old(self)@);
        r
    }

    /// How many items are still to come.
    pub fn count(&self) -> (n: usize)
        ensures
            n == self@.len(),
    {
        self.rest.len()
    }

    /// Lower and upper bound of the number of items to come; both are the
    /// exact number.
    pub fn size_hint(&self) -> (r: (usize, Option<usize>))
        ensures
            r.0 == self@.len(),
            r.1 == Some(self@.len() as usize),
    {
        (self.rest.len(), Some(self.rest.len()))
    }

    /// Pulls all remaining items.
    pub fn collect(self) -> (r: Vec<QuadIterItem>)
        ensures
            items_view(r@) == self@,
    {
        let mut this = self;
        let mut out: Vec<QuadIterItem> = Vec::new();
        while this.count() > 0
            invariant
                items_view(out@) + this@ == self@,
            decreases this@.len(),
        {
            let ghost before = this@;
            let ghost out_before = out@;
            let item = this.next().unwrap();
            out.push(item);
            assert(items_view(out@) =~= items_view(out_before).push(before[0]));
            assert(items_view(out@) + this@ =~= items_view(out_before) + before);
        }
        assert(items_view(out@) =~= items_view(out@) + this@);
        out
    }
}


impl QuadIter {
    /// The stream that yields `quads` in order, and no error.
    pub fn from_quads(quads: Vec<Quad>) -> (r: Self)
        ensures
            r@ == ok_items(quads_view(quads@)),
    {
        let ghost all = quads_view(quads@);
        let ghost n = quads@.len();
        let mut rest = quads;
        let mut reversed: Vec<QuadIterItem> = Vec::new();
        while rest.len() > 0
            invariant
                rest@.len() + reversed@.len() == n,
                n == all.len(),
                forall|k: int| 0 <= k < rest@.len() ==> (#[trigger] rest@[k])@ == all[k],
                forall|k: int|
                    0 <= k < reversed@.len() ==> item_view(#[trigger] reversed@[k]) == Ok::<
                        QuadView,
                        Seq<char>,
                    >(all[n - 1 - k]),
            decreases rest@.len(),
        {
            let q = rest.pop().unwrap();
            reversed.push(Ok(q));
        }
        let r = QuadIter { rest: reversed };
        assert(r@ =~= ok_items(all));
        r
    }

    /// Pulls all quads of the stream, up to its first error: with an error,
    /// the result is that error.
    pub fn collect_quads(self) -> (r: Result<Vec<Quad>, QuadIterError>)
        ensures
            collected_view(r) == collected(self@),
    {
        let (quads, error) = self.drain_until_error();
        match error {
            Some(e) => Err(e),
            None => {
                proof {
                    lemma_first_error(self@);
                    assert(self@.take(self@.len() as int) =~= self@);
                }
                Ok(quads)
            },
        }
    }

    /// Pulls quads until the stream ends or yields an error. The result is
    /// the quads before the first error, and that error, if there is one.
    pub fn drain_until_error(self) -> (r: (Vec<Quad>, Option<QuadIterError>))
        ensures
            quads_view(r.0@) == quads_before_error(self@),
            r.0@.len() == first_error(self@),
            forall|k: int| 0 <= k < r.0@.len() ==> (#[trigger] r.0@[k])@ == self@[k]->Ok_0,
            match r.1 {
                Some(e) => first_error(self@) < self@.len() && self@[first_error(self@)] == Err::<
                    QuadView,
                    Seq<char>,
                >(e@),
                None => first_error(self@) == self@.len(),
            },
    {
        let mut rest = self;
        let mut out: Vec<Quad> = Vec::new();
        proof {
            lemma_first_error(self@);
            assert(quads_view(out@) =~= quads_of(self@.take(0)));
        }
        loop
            invariant
                out@.len() <= first_error(self@) <= self@.len(),
                forall|k: int| 0 <= k < out@.len() ==> (#[trigger] out@[k])@ == self@[k]->Ok_0,
                rest@ == self@.skip(out@.len() as int),
                quads_view(out@) == quads_of(self@.take(out@.len() as int)),
                forall|i: int| 0 <= i < first_error(self@) ==> (#[trigger] self@[i]) is Ok,
                first_error(self@) < self@.len() ==> self@[first_error(self@)] is Err,
            decreases rest@.len(),
        {
            let ghost n = out@.len() as int;
            let ghost before = quads_view(out@);
            match rest.next() {
                None => {
                    assert(n == self@.len());
                    assert(self@.take(n) =~= self@);
                    return (out, None);
                },
                Some(Ok(q)) => {
                    assert(self@.skip(n)[0] == self@[n]);
                    assert(self@[n] == Ok::<QuadView, Seq<char>>(q@));
                    assert(n < first_error(self@));
                    out.push(q);
                    assert(rest@ =~= self@.skip(n + 1));
                    assert forall|i: int| 0 <= i < n + 1 implies quads_view(out@)[i] == quads_of(
                        self@.take(n + 1),
                    )[i] by {
                        if i < n {
                            assert(quads_view(out@)[i] == before[i]);
                            assert(self@.take(n)[i] == self@.take(n + 1)[i]);
                        }
                    }
                    assert(quads_view(out@) =~= quads_of(self@.take(n + 1)));
                },
                Some(Err(e)) => {
                    assert(self@.skip(n)[0] == self@[n]);
                    assert(self@[n] is Err);
                    assert(n == first_error(self@));
                    return (out, Some(e));
                },
            }
        }
    }
}

} // verus!
