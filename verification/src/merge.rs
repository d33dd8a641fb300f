//! Merging named graphs into the default graph.
//!
//! In duplicate mode every quad of a named graph is passed through and
//! followed at once by the same statement in the default graph. In drop mode
//! every quad loses its graph name and nothing is added.

use vstd::prelude::*;
use crate::cli::{
    ArgError, ArgFailure, OptSpec, arity_failure, check_arity, flag_of, option_given, parsed_view,
    piped, pipeline_of, scan_strings, scan_tokens,
};
use crate::pipe::{PipeSubcommand, pipeline_view};
use crate::quad_handler::{Handled, handled, pass_on, rank};
use crate::stage::StageView;
use crate::quad_iter::{ItemView, QuadIter, QuadIterItem, item_view, items_view};
use crate::term::{Quad, QuadView};
use crate::text::texts;

verus! {

/// The arguments of the stage that merges named graphs into the default
/// graph.
#[derive(Debug, PartialEq, Eq)]
pub struct Args {
    /// Drop the graph names and add nothing, instead of duplicating.
    pub drop: bool,
    /// The next stage, unparsed.
    pub pipeline: Option<PipeSubcommand>,
}

/// The mathematical model of [`Args`].
pub struct ArgsView {
    pub drop: bool,
    pub pipeline: Option<Seq<Seq<char>>>,
}

impl View for Args {
    type V = ArgsView;

    open spec fn view(&self) -> ArgsView {
        ArgsView { drop: self.drop, pipeline: pipeline_view(self.pipeline) }
    }
}

/// The options of the stage: `-d`, `--drop`.
pub open spec fn options() -> Seq<OptSpec> {
    seq![OptSpec { short: 'd', long: "drop", takes_value: false }]
}

/// The arguments that the tokens from `start` on stand for. The stage takes
/// no positional argument.
pub open spec fn args_of(tokens: Seq<Seq<char>>, start: int) -> Result<ArgsView, ArgFailure> {
    match scan_tokens(options(), tokens, start) {
        Err(e) => Err(e),
        Ok(m) => match arity_failure(m, 0, 0, tokens.len() as int) {
            Some(e) => Err(e),
            None => Ok(ArgsView { drop: flag_of(m, 0), pipeline: pipeline_of(tokens, m) }),
        },
    }
}

impl Args {
    /// Parses the arguments of the stage from the tokens from `start` on.
    pub fn from_tokens(tokens: &Vec<String>, start: usize) -> (r: Result<Args, ArgError>)
        requires
            start <= tokens@.len(),
        ensures
            parsed_view(r) == args_of(texts(tokens@), start as int),
    {
        let opts = vec![OptSpec { short: 'd', long: "drop", takes_value: false }];
        assert(opts@ =~= options());
        let scan = match scan_strings(&opts, tokens, start) {
            Ok(scan) => scan,
            Err(e) => {
                return Err(e);
            },
        };
        match check_arity(&scan, 0, 0, tokens.len()) {
            Ok(_) => {},
            Err(e) => {
                return Err(e);
            },
        }
        Ok(Args { drop: option_given(&scan, 0), pipeline: piped(tokens, &scan) })
    }
}

/// Whether an item is a quad of a named graph.
pub open spec fn is_labelled(item: ItemView) -> bool {
    item matches Ok(q) && q.g is Some
}

/// The same statement in the default graph.
pub open spec fn without_graph(q: QuadView) -> QuadView {
    QuadView { s: q.s, p: q.p, o: q.o, g: None }
}

/// What one item of the input gives in duplicate mode: the item itself and,
/// after a quad of a named graph, its statement in the default graph.
pub open spec fn merged_item(item: ItemView) -> Seq<ItemView> {
    if is_labelled(item) {
        seq![item, Ok(without_graph(item->Ok_0))]
    } else {
        seq![item]
    }
}

/// The output of duplicate mode for a whole input.
pub open spec fn merged(input: Seq<ItemView>) -> Seq<ItemView>
    decreases input.len(),
{
    if input.len() == 0 {
        Seq::empty()
    } else {
        merged_item(input[0]) + merged(input.drop_first())
    }
}

/// What one item of the input gives in drop mode.
pub open spec fn dropped_item(item: ItemView) -> ItemView {
    match item {
        Ok(q) => Ok(without_graph(q)),
        Err(e) => Err(e),
    }
}

/// The output of drop mode for a whole input.
pub open spec fn dropped(input: Seq<ItemView>) -> Seq<ItemView> {
    Seq::new(input.len(), |i: int| dropped_item(input[i]))
}

/// How many items of the input are quads of a named graph.
pub open spec fn count_labelled(input: Seq<ItemView>) -> nat
    decreases input.len(),
{
    if input.len() == 0 {
        0
    } else {
        (if is_labelled(input[0]) {
            1nat
        } else {
            0nat
        }) + count_labelled(input.drop_first())
    }
}

/// Where the item with index `i` of the input stands in the output of
/// duplicate mode: behind everything that the items before it gave.
pub open spec fn merged_position(input: Seq<ItemView>, i: int) -> int {
    merged(input.take(i)).len() as int
}

/// The stream that duplicate mode makes of another stream. One pull takes at
/// most one item from the stream it reads from, and between two pulls it
/// holds at most one quad of its own.
pub struct MergeDefaultGraph {
    quads: QuadIter,
    buffer: Option<Quad>,
}

impl View for MergeDefaultGraph {
    type V = Seq<ItemView>;

    /// The items that are still to come.
    closed spec fn view(&self) -> Seq<ItemView> {
        match self.buffer {
            Some(q) => seq![Ok(q@)] + merged(self.quads@),
            None => merged(self.quads@),
        }
    }
}

impl MergeDefaultGraph {
    /// Whether nothing is buffered.
    pub closed spec fn is_empty_state(&self) -> bool {
        self.buffer is None
    }

    /// The stream that is still to be read.
    pub closed spec fn source(&self) -> Seq<ItemView> {
        self.quads@
    }

    /// Duplicate mode over `quads`, with nothing buffered.
    pub fn new(quads: QuadIter) -> (r: Self)
        ensures
            r@ == merged(quads@),
            r.is_empty_state(),
            r.source() == quads@,
    {
        MergeDefaultGraph { quads, buffer: None }
    }

    /// Pulls the next item of the output. A buffered duplicate goes out
    /// first. Otherwise the next item of the input is pulled and passed
    /// through, and if it is a quad of a named graph its statement in the
    /// default graph is buffered for the following pull.
    pub fn next(&mut self) -> (r: Option<QuadIterItem>)
        ensures
            match r {
                Some(item) => {
                    &&& old(self)@.len() > 0
                    &&& item_view(item) == old(self)@[0]
                    &&& final(self)@ == old(self)@.drop_first()
                },
                None => old(self)@.len() == 0 && final(self)@ == old(self)@,
            },
            !old(self).is_empty_state() ==> final(self).is_empty_state() && final(self).source()
                == old(self).source(),
            old(self).is_empty_state() && old(self).source().len() > 0 ==> {
                &&& final(self).source() == old(self).source().drop_first()
                &&& final(self).is_empty_state() == !is_labelled(old(self).source()[0])
            },
            old(self).is_empty_state() && old(self).source().len() == 0 ==> {
                &&& r is None
                &&& final(self).source() == old(self).source()
                &&& final(self).is_empty_state()
            },
    {
        match self.buffer.take() {
            Some(q) => {
                assert(self@ =~= old(self)@.drop_first());
                Some(Ok(q))
            },
            None => {
                match self.quads.next() {
                    None => None,
                    Some(Ok(q)) => {
                        if q.g.is_some() {
                            let copy = Quad {
                                s: q.s.clone(),
                                p: q.p.clone(),
                                o: q.o.clone(),
                                g: None,
                            };
                            assert(copy@ == without_graph(q@));
                            self.buffer = Some(copy);
                        }
                        assert(self@ =~= old(self)@.drop_first());
                        Some(Ok(q))
                    },
                    Some(Err(e)) => {
                        assert(self@ =~= old(self)@.drop_first());
                        Some(Err(e))
                    },
                }
            },
        }
    }

    /// Pulls everything that is still to come into a stream of its own.
    pub fn into_stream(self) -> (r: QuadIter)
        ensures
            r@ == self@,
    {
        let mut this = self;
        let mut out: Vec<QuadIterItem> = Vec::new();
        loop
            invariant_except_break
                items_view(out@) + this@ == self@,
            ensures
                items_view(out@) == self@,
            decreases this@.len(),
        {
            let ghost before = this@;
            let ghost out_before = out@;
            match this.next() {
                None => {
                    assert(items_view(out@) =~= items_view(
                        out@,
                    ) + this@);
                    break ;
                },
                Some(item) => {
                    out.push(item);
                    assert(items_view(out@) =~= items_view(
                        out_before,
                    ).push(before[0]));
                    assert(items_view(out@) + this@
                        =~= items_view(out_before) + before);
                },
            }
        }
        QuadIter::new(out)
    }
}

/// Drop mode: every quad loses its graph name, errors pass unchanged, and
/// nothing is added or left out.
pub fn drop_graphs(quads: QuadIter) -> (r: QuadIter)
    ensures
        r@ == dropped(quads@),
        r@.len() == quads@.len(),
        forall|i: int| 0 <= i < r@.len() ==> !is_labelled(#[trigger] r@[i]),
{
    let mut quads = quads;
    let ghost input = quads@;
    let mut out: Vec<QuadIterItem> = Vec::new();
    while quads.count() > 0
        invariant
            out@.len() + quads@.len() == input.len(),
            quads@ == input.skip(out@.len() as int),
            items_view(out@) == dropped(input).take(out@.len() as int),
        decreases quads@.len(),
    {
        let ghost out_before = out@;
        let item = match quads.next().unwrap() {
            Ok(q) => {
                let Quad { s, p, o, g: _ } = q;
                Ok(Quad { s, p, o, g: None })
            },
            Err(e) => Err(e),
        };
        assert(item_view(item) == dropped_item(input[out_before.len() as int]));
        out.push(item);
        assert(quads@ =~= input.skip(out@.len() as int));
        assert(items_view(out@) =~= dropped(input).take(out@.len() as int));
    }
    assert(items_view(out@) =~= dropped(input));
    QuadIter::new(out)
}

/// Duplicate mode on two inputs in a row is duplicate mode on the first, then
/// on the second.
pub proof fn lemma_merged_concat(a: Seq<ItemView>, b: Seq<ItemView>)
    ensures
        merged(a + b) == merged(a) + merged(b),
    decreases a.len(),
{
    if a.len() == 0 {
        assert(a + b =~= b);
        assert(merged(a) + merged(b) =~= merged(b));
    } else {
        assert((a + b).drop_first() =~= a.drop_first() + b);
        lemma_merged_concat(a.drop_first(), b);
        assert(merged(a + b) =~= merged(a) + merged(b));
    }
}

/// In duplicate mode the output has one item for each item of the input, and
/// one more for each quad of a named graph.
pub proof fn lemma_merged_len(input: Seq<ItemView>)
    ensures
        merged(input).len() == input.len() + count_labelled(input),
    decreases input.len(),
{
    if input.len() > 0 {
        lemma_merged_len(input.drop_first());
    }
}

/// Duplicate mode keeps every item and duplicates the quads of named graphs:
/// the item with index `i` of the input stands in the output behind all that
/// the items before it gave; if it is a quad of a named graph, its statement
/// in the default graph is the very next item, else the next item of the
/// input follows at once.
pub proof fn lemma_merge_keeps_and_duplicates(input: Seq<ItemView>, i: int)
    requires
        0 <= i < input.len(),
    ensures
        ({
            let out = merged(input);
            let at = merged_position(input, i);
            &&& 0 <= at < out.len()
            &&& out[at] == input[i]
            &&& is_labelled(input[i]) ==> {
                &&& at + 1 < out.len()
                &&& out[at + 1] == Ok::<QuadView, Seq<char>>(without_graph(input[i]->Ok_0))
                &&& merged_position(input, i + 1) == at + 2
            }
            &&& !is_labelled(input[i]) ==> merged_position(input, i + 1) == at + 1
        }),
{
    let before = input.take(i);
    let one = seq![input[i]];
    let after = input.skip(i + 1);
    assert(input =~= before + one + after);
    lemma_merged_concat(before + one, after);
    lemma_merged_concat(before, one);
    assert(one.drop_first() =~= Seq::<ItemView>::empty());
    assert(merged(one) =~= merged_item(input[i])) by {
        reveal_with_fuel(merged, 2);
    }
    assert(input.take(i + 1) =~= before + one);
}

/// Duplicate mode adds nothing else: every item of the output is an item of
/// the input at its place, or the default-graph statement of the quad of a
/// named graph that stands just before it.
pub proof fn lemma_merge_adds_nothing_else(input: Seq<ItemView>, k: int) -> (i: int)
    requires
        0 <= k < merged(input).len(),
    ensures
        0 <= i < input.len(),
        k == merged_position(input, i) || (is_labelled(input[i]) && k == merged_position(input, i)
            + 1),
    decreases input.len(),
{
    let last = input.len() - 1;
    lemma_merge_keeps_and_duplicates(input, last);
    assert(input.take(last + 1) =~= input);
    if k >= merged_position(input, last) {
        last
    } else {
        let shorter = input.take(last);
        let i = lemma_merge_adds_nothing_else(shorter, k);
        assert(shorter.take(i) =~= input.take(i));
        i
    }
}

/// The places of the input's items in the output of duplicate mode go up with
/// the items, so the output keeps the order of the input.
pub proof fn lemma_merge_keeps_order(input: Seq<ItemView>, i: int, j: int)
    requires
        0 <= i < j < input.len(),
    ensures
        merged_position(input, i) < merged_position(input, j),
        is_labelled(input[i]) ==> merged_position(input, i) + 1 < merged_position(input, j),
    decreases j - i,
{
    lemma_merge_keeps_and_duplicates(input, i);
    if i + 1 < j {
        lemma_merge_keeps_order(input, i + 1, j);
    }
}

/// Drop mode keeps the length of the stream, and no quad of its output has a
/// graph name.
pub proof fn lemma_dropped_keeps_length_and_drops_names(input: Seq<ItemView>)
    ensures
        dropped(input).len() == input.len(),
        forall|i: int| 0 <= i < input.len() ==> !is_labelled(#[trigger] dropped(input)[i]),
        forall|i: int|
            0 <= i < input.len() ==> (#[trigger] dropped(input)[i] is Ok <==> input[i] is Ok),
{
}

/// Runs the stage: the stream is merged, in the mode that the arguments ask
/// for, and handed to what follows the stage.
pub fn run(quads: QuadIter, args: Args) -> (r: Handled)
    ensures
        r@ == handled(StageView::Merge(args@), quads@),
    decreases rank(args@.pipeline), 1nat,
{
    let out = if args.drop {
        drop_graphs(quads)
    } else {
        MergeDefaultGraph::new(quads).into_stream()
    };
    pass_on(args.pipeline, out)
}

} // verus!
