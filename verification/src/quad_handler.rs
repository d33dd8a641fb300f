//! The sink: what becomes of the stream that a stage puts out.
//!
//! A stream ends in one of three ways. It is shown on the default output,
//! one line for a quad. It is handed to the next stage, which decides its
//! fate. Or its quads are sent into a channel, where a collector gathers the
//! quads of many sources.
//!
//! The library runs a chain of stages as far as it can by itself and says
//! what is left to do: the lines to print, the files to write, the quads to
//! send, or the stage for which an engine outside the library is needed.

use vstd::prelude::*;
use crate::absolutize::absolutized_items;
use crate::bnode::{add_bnode_suffix_q, suffixed_quad};
use crate::cli::{ArgFailure, text_view};
use crate::dispatch::{FileJob, FileJobView, planned};
use crate::format::Format;
use crate::index::indexed;
use crate::merge::{dropped, merged};
use crate::null;
use crate::pipe::{PipeError, PipeFailure, PipeSubcommand, pipe_failure, pipeline_view};
use crate::quad_iter::{
    ItemView, QuadIter, QuadIterError, QuadIterItem, collected, consumed, first_error,
    items_view, lemma_first_error, ok_items, ok_quads, oks_upto, quads_view,
};
use crate::relativize::relativized_items;
use crate::render::{render_quad, rendered_quad};
use crate::sequence::reversed;
use crate::serialize::{SerializerOptions, SerializerOptionsView, chosen_format};
use crate::stage::{SinkSubcommand, StageView, lemma_next_shorter, next_tokens, stage_of};
use crate::term::{Quad, QuadView};
use crate::text::texts;

verus! {

/// A file to write.
#[derive(Debug, PartialEq, Eq)]
pub enum Job {
    /// The file of a dispatched graph, below the destination directory. A
    /// file that exists is overwritten only where that is allowed; a job that
    /// fails is reported and does not stop the others.
    Dispatch { destination: String, overwrite: bool, options: SerializerOptions, file: FileJob },
    /// The output file of a stage that also passes its quads on: it gets
    /// every quad of the stream. Without a format, which is the case where
    /// none was given and the name of the file tells none, the file cannot be
    /// written. That, like every other failure to write it, is reported and
    /// changes nothing in the result of the pipeline.
    Tee { output: String, format: Option<Format>, options: SerializerOptions, quads: Vec<Quad> },
}

/// The mathematical model of a [`Job`].
pub enum JobView {
    Dispatch {
        destination: Seq<char>,
        overwrite: bool,
        options: SerializerOptionsView,
        file: FileJobView,
    },
    Tee {
        output: Seq<char>,
        format: Option<Format>,
        options: SerializerOptionsView,
        quads: Seq<QuadView>,
    },
}

impl View for Job {
    type V = JobView;

    open spec fn view(&self) -> JobView {
        match self {
            Job::Dispatch { destination, overwrite, options, file } => JobView::Dispatch {
                destination: destination@,
                overwrite: *overwrite,
                options: options@,
                file: file@,
            },
            Job::Tee { output, format, options, quads } => JobView::Tee {
                output: output@,
                format: *format,
                options: options@,
                quads: quads_view(quads@),
            },
        }
    }
}

/// The views of the jobs of a sequence.
pub open spec fn jobs_view(jobs: Seq<Job>) -> Seq<JobView> {
    Seq::new(jobs.len(), |i: int| jobs[i]@)
}

/// Why a chain of stages stopped before its end.
#[derive(Debug, PartialEq, Eq)]
pub enum Failure {
    /// The tokens behind a pipe marker are no stage.
    Pipe(PipeError),
    /// A stage that needs its whole input found an error in it.
    Input(QuadIterError),
    /// The indexed collection of a stage has no room for all the terms of
    /// its input.
    Index,
}

/// The mathematical model of a [`Failure`].
pub enum FailureModel {
    Pipe(PipeFailure),
    Input(Seq<char>),
    Index,
}

impl View for Failure {
    type V = FailureModel;

    open spec fn view(&self) -> FailureModel {
        match self {
            Failure::Pipe(e) => FailureModel::Pipe(e@),
            Failure::Input(e) => FailureModel::Input(e@),
            Failure::Index => FailureModel::Index,
        }
    }
}

/// How a chain of stages ended.
#[derive(Debug)]
pub enum End {
    /// The quads were shown: these lines go to the default output, and the
    /// result is that of the stage.
    Printed { lines: Vec<String>, result: Result<(), QuadIterError> },
    /// The stream was consumed in silence, with this result.
    Consumed(Result<(), QuadIterError>),
    /// These quads go into the channel; the warning, if there is one, is
    /// logged.
    Sent { quads: Vec<Quad>, warning: Option<String> },
    /// The stream arrived at a stage that an engine outside the library
    /// runs.
    Delegated { stage: SinkSubcommand, stream: QuadIter },
    /// The chain stopped.
    Failed(Failure),
}

/// The mathematical model of an [`End`].
pub enum EndView {
    Printed { lines: Seq<Seq<char>>, result: Result<(), Seq<char>> },
    Consumed(Result<(), Seq<char>>),
    Sent { quads: Seq<QuadView>, warning: Option<Seq<char>> },
    Delegated { stage: StageView, stream: Seq<ItemView> },
    Failed(FailureModel),
}

impl View for End {
    type V = EndView;

    open spec fn view(&self) -> EndView {
        match self {
            End::Printed { lines, result } => EndView::Printed {
                lines: texts(lines@),
                result: null::unit_result_view(*result),
            },
            End::Consumed(result) => EndView::Consumed(null::unit_result_view(*result)),
            End::Sent { quads, warning } => EndView::Sent {
                quads: quads_view(quads@),
                warning: text_view(*warning),
            },
            End::Delegated { stage, stream } => EndView::Delegated { stage: stage@, stream: stream@ },
            End::Failed(f) => EndView::Failed(f@),
        }
    }
}

/// What a chain of stages did with a stream: the files to write, in order,
/// and how the chain ended.
#[derive(Debug)]
pub struct Handled {
    pub jobs: Vec<Job>,
    pub end: End,
}

/// The mathematical model of [`Handled`].
pub struct HandledView {
    pub jobs: Seq<JobView>,
    pub end: EndView,
}

impl View for Handled {
    type V = HandledView;

    open spec fn view(&self) -> HandledView {
        HandledView { jobs: jobs_view(self.jobs@), end: self.end@ }
    }
}

/// The default output for a stream: one line for each quad before the first
/// error; the result is that error, if there is one.
pub open spec fn printed(input: Seq<ItemView>) -> EndView {
    EndView::Printed {
        lines: Seq::new(first_error(input) as nat, |i: int| rendered_quad(input[i]->Ok_0)),
        result: consumed(input),
    }
}

/// The warning for an error in the source called `name`.
pub open spec fn source_warning(name: Seq<char>, error: Seq<char>) -> Seq<char> {
    name + ": "@ + error
}

/// The channel for a stream of the source called `name`: each quad before
/// the first error, with `suffix` on its blank nodes; with an error, a warning
/// that names the source, and nothing of what follows the error.
pub open spec fn sent(name: Seq<char>, suffix: Seq<char>, input: Seq<ItemView>) -> EndView {
    EndView::Sent {
        quads: Seq::new(
            first_error(input) as nat,
            |i: int| suffixed_quad(input[i]->Ok_0, suffix),
        ),
        warning: if first_error(input) < input.len() {
            Some(source_warning(name, input[first_error(input)]->Err_0))
        } else {
            None
        },
    }
}

/// The jobs of a dispatch, in order.
pub open spec fn dispatch_jobs(
    files: Seq<FileJobView>,
    destination: Seq<char>,
    overwrite: bool,
    options: SerializerOptionsView,
) -> Seq<JobView> {
    Seq::new(
        files.len(),
        |i: int| JobView::Dispatch { destination, overwrite, options, file: files[i] },
    )
}

/// The outcome `rest` behind the jobs `own`.
pub open spec fn with_jobs(own: Seq<JobView>, rest: HandledView) -> HandledView {
    HandledView { jobs: own + rest.jobs, end: rest.end }
}

/// An outcome without jobs.
pub open spec fn ended(end: EndView) -> HandledView {
    HandledView { jobs: Seq::empty(), end }
}

/// The measure by which a chain of stages gets shorter.
pub open spec fn rank(pipeline: Option<Seq<Seq<char>>>) -> nat {
    match pipeline {
        Some(tokens) => tokens.len() + 1,
        None => 0,
    }
}

/// What becomes of the stream `input` behind a stage whose pipe marker is
/// followed by `pipeline`: without a pipe marker it is shown on the default
/// output; else the tokens are parsed into the next stage, which gets exactly
/// this stream; where they are no stage, the chain stops.
pub open spec fn passed_on(pipeline: Option<Seq<Seq<char>>>, input: Seq<ItemView>) -> HandledView
    decreases rank(pipeline), 0nat,
{
    match pipeline {
        None => ended(printed(input)),
        Some(tokens) => match stage_of(tokens) {
            Err(e) => ended(EndView::Failed(FailureModel::Pipe(pipe_failure(e, tokens)))),
            Ok(stage) => {
                proof {
                    lemma_next_shorter(tokens);
                }
                handled(stage, input)
            },
        },
    }
}

/// What the stage `stage` and the stages behind it do with the stream
/// `input`.
pub open spec fn handled(stage: StageView, input: Seq<ItemView>) -> HandledView
    decreases rank(next_tokens(stage)), 1nat,
{
    match stage {
        StageView::Absolutize(a) => passed_on(a.pipeline, absolutized_items(a.base, input)),
        StageView::Relativize(a) => passed_on(
            a.pipeline,
            relativized_items(a.base, a.parents, input),
        ),
        StageView::Merge(a) => passed_on(
            a.pipeline,
            if a.drop {
                dropped(input)
            } else {
                merged(input)
            },
        ),
        StageView::Null => ended(EndView::Consumed(consumed(input))),
        StageView::Dispatch(a) => match collected(input) {
            Err(e) => ended(EndView::Failed(FailureModel::Input(e))),
            Ok(quads) => match indexed(quads) {
                None => ended(EndView::Failed(FailureModel::Index)),
                Some(all) => {
                    let p = planned(all, a.root, a.format, a.relativize);
                    with_jobs(
                        dispatch_jobs(p.jobs, a.destination, a.overwrite, a.options),
                        passed_on(a.pipeline, ok_items(p.forwarded)),
                    )
                },
            },
        },
        StageView::Serialize(a) => if a.pipeline is Some && a.output is Some {
            with_jobs(
                seq![
                    JobView::Tee {
                        output: a.output->0,
                        format: chosen_format(a.format, a.output),
                        options: a.options,
                        quads: ok_quads(input),
                    },
                ],
                passed_on(a.pipeline, input),
            )
        } else {
            ended(EndView::Delegated { stage, stream: input })
        },
        StageView::Canonicalize(_) | StageView::Filter(_) | StageView::Query(_) => ended(
            EndView::Delegated { stage, stream: input },
        ),
    }
}

/// The sink of a stage.
#[derive(Debug, PartialEq, Eq)]
pub enum QuadHandler {
    /// Show the quads on the default output.
    Stdout,
    /// Hand the stream to the next stage.
    Pipeline(SinkSubcommand),
    /// Send the quads of the source called `name` into a channel, with
    /// `bnode_suffix` on their blank nodes.
    Sender { name: String, bnode_suffix: String },
}

/// The mathematical model of a [`QuadHandler`].
pub enum HandlerView {
    Stdout,
    Pipeline(StageView),
    Sender { name: Seq<char>, bnode_suffix: Seq<char> },
}

impl View for QuadHandler {
    type V = HandlerView;

    open spec fn view(&self) -> HandlerView {
        match self {
            QuadHandler::Stdout => HandlerView::Stdout,
            QuadHandler::Pipeline(stage) => HandlerView::Pipeline(stage@),
            QuadHandler::Sender { name, bnode_suffix } => HandlerView::Sender {
                name: name@,
                bnode_suffix: bnode_suffix@,
            },
        }
    }
}

/// What a sink does with the stream `input`.
pub open spec fn sunk(handler: HandlerView, input: Seq<ItemView>) -> HandledView {
    match handler {
        HandlerView::Stdout => ended(printed(input)),
        HandlerView::Pipeline(stage) => handled(stage, input),
        HandlerView::Sender { name, bnode_suffix } => ended(sent(name, bnode_suffix, input)),
    }
}

/// The measure of a sink.
pub open spec fn handler_rank(handler: HandlerView) -> nat {
    match handler {
        HandlerView::Pipeline(stage) => rank(next_tokens(stage)),
        _ => 0,
    }
}

/// Shows a stream on the default output.
pub fn print_quads(quads: QuadIter) -> (r: End)
    ensures
        r@ == printed(quads@),
{
    let (found, error) = quads.drain_until_error();
    let ghost input = quads@;
    proof {
        lemma_first_error(input);
    }
    let mut lines: Vec<String> = Vec::new();
    let mut i: usize = 0;
    while i < found.len()
        invariant
            i <= found@.len(),
            lines@.len() == i,
            found@.len() == first_error(input),
            forall|k: int| 0 <= k < found@.len() ==> (#[trigger] found@[k])@ == input[k]->Ok_0,
            forall|k: int| 0 <= k < i ==> (#[trigger] lines@[k])@ == rendered_quad(input[k]->Ok_0),
        decreases found.len() - i,
    {
        lines.push(render_quad(&found[i]));
        i += 1;
    }
    let result = match error {
        Some(e) => Err(e),
        None => Ok(()),
    };
    let r = End::Printed { lines, result };
    assert(r@->Printed_lines =~= printed(input)->Printed_lines);
    r
}

/// Sends a stream of the source called `name` into a channel.
pub fn send_quads(name: &str, bnode_suffix: &str, quads: QuadIter) -> (r: End)
    ensures
        r@ == sent(name@, bnode_suffix@, quads@),
{
    let (found, error) = quads.drain_until_error();
    let ghost input = quads@;
    proof {
        lemma_first_error(input);
    }
    let ghost n = found@.len();
    let mut reversed = reversed(found);
    let mut out: Vec<Quad> = Vec::new();
    while reversed.len() > 0
        invariant
            reversed@.len() + out@.len() == n,
            n == first_error(input),
            forall|k: int|
                0 <= k < reversed@.len() ==> (#[trigger] reversed@[k])@ == input[n - 1 - k]->Ok_0,
            forall|k: int|
                0 <= k < out@.len() ==> (#[trigger] out@[k])@ == suffixed_quad(
                    input[k]->Ok_0,
                    bnode_suffix@,
                ),
        decreases reversed@.len(),
    {
        let ghost k = out@.len() as int;
        let q = reversed.pop().unwrap();
        assert(q@ == input[k]->Ok_0);
        out.push(add_bnode_suffix_q(q, bnode_suffix));
    }
    let warning = match error {
        Some(e) => {
            let mut w = String::from_str(name);
            w.append(": ");
            w.append(e.0.as_str());
            Some(w)
        },
        None => None,
    };
    let r = End::Sent { quads: out, warning };
    assert(r@->Sent_quads =~= sent(name@, bnode_suffix@, input)->Sent_quads);
    r
}

/// Every quad of `items`, copied, in order.
pub(crate) fn mirror_of(items: &Vec<QuadIterItem>) -> (r: Vec<Quad>)
    ensures
        quads_view(r@) == ok_quads(items_view(items@)),
{
    let ghost input = items_view(items@);
    let mut out: Vec<Quad> = Vec::new();
    let mut i: usize = 0;
    assert(quads_view(out@) =~= oks_upto(input, 0));
    while i < items.len()
        invariant
            i <= items@.len(),
            input == items_view(items@),
            quads_view(out@) == oks_upto(input, i as int),
        decreases items.len() - i,
    {
        let ghost before = quads_view(out@);
        match &items[i] {
            Ok(q) => {
                assert(input[i as int] == Ok::<QuadView, Seq<char>>(q@));
                out.push(q.clone());
                assert(quads_view(out@) =~= before.push(q@));
            },
            Err(_) => {
                assert(input[i as int] is Err);
            },
        }
        i += 1;
    }
    out
}

/// The outcome `rest` behind the jobs `own`.
pub(crate) fn prepend_jobs(own: Vec<Job>, rest: Handled) -> (r: Handled)
    ensures
        r@ == with_jobs(jobs_view(own@), rest@),
{
    let Handled { jobs: mut later, end } = rest;
    let mut jobs = own;
    jobs.append(&mut later);
    let r = Handled { jobs, end };
    assert(r@.jobs =~= jobs_view(own@) + rest@.jobs);
    r
}

/// An outcome without jobs.
pub(crate) fn just(end: End) -> (r: Handled)
    ensures
        r@ == ended(end@),
{
    let r = Handled { jobs: Vec::new(), end };
    assert(r@.jobs =~= Seq::<JobView>::empty());
    r
}

/// Hands the stream to what follows a stage: the default output where no
/// pipe marker follows, else the next stage, which is parsed now.
pub fn pass_on(pipeline: Option<PipeSubcommand>, quads: QuadIter) -> (r: Handled)
    ensures
        r@ == passed_on(pipeline_view(pipeline), quads@),
    decreases rank(pipeline_view(pipeline)), 0nat,
{
    match pipeline {
        None => just(print_quads(quads)),
        Some(pipe) => {
            proof {
                lemma_next_shorter(pipe@);
            }
            match pipe.parse() {
                Err(e) => just(End::Failed(Failure::Pipe(e))),
                Ok(stage) => stage.handle_quads(quads),
            }
        },
    }
}

impl SinkSubcommand {
    /// Runs this stage, and the stages behind it, on the stream `quads`.
    pub fn handle_quads(self, quads: QuadIter) -> (r: Handled)
        ensures
            r@ == handled(self@, quads@),
        decreases rank(next_tokens(self@)), 2nat,
    {
        match self {
            SinkSubcommand::Absolutize(args) => crate::absolutize::run(quads, args),
            SinkSubcommand::Canonicalize(args) => crate::canonicalize::run(quads, args),
            SinkSubcommand::Dispatch(args) => crate::dispatch::run(quads, args),
            SinkSubcommand::Filter(args) => crate::filter::run(quads, args),
            SinkSubcommand::Merge(args) => crate::merge::run(quads, args),
            SinkSubcommand::Query(args) => crate::query::run(quads, args),
            SinkSubcommand::Relativize(args) => crate::relativize::run(quads, args),
            SinkSubcommand::Serialize(args) => crate::serialize::run(quads, args),
            SinkSubcommand::Null(args) => just(End::Consumed(null::run(quads, args))),
        }
    }
}

impl QuadHandler {
    /// The sink of a stage whose pipe marker, if it has one, is followed by
    /// `pipeline`: the default output, or the next stage, which is parsed
    /// now.
    pub fn new(pipeline: Option<PipeSubcommand>) -> (r: Result<QuadHandler, PipeError>)
        ensures
            match pipeline_view(pipeline) {
                None => r == Ok::<QuadHandler, PipeError>(QuadHandler::Stdout),
                Some(tokens) => match r {
                    Ok(handler) => handler matches QuadHandler::Pipeline(stage) && stage_of(tokens)
                        == Ok::<StageView, ArgFailure>(stage@),
                    Err(e) => stage_of(tokens) matches Err(f) && e@ == pipe_failure(f, tokens),
                },
            },
    {
        match pipeline {
            None => Ok(QuadHandler::Stdout),
            Some(pipe) => match pipe.parse() {
                Ok(stage) => Ok(QuadHandler::Pipeline(stage)),
                Err(e) => Err(e),
            },
        }
    }

    /// Hands the stream `quads` to this sink.
    pub fn handle_quads(self, quads: QuadIter) -> (r: Handled)
        ensures
            r@ == sunk(self@, quads@),
    {
        match self {
            QuadHandler::Stdout => just(print_quads(quads)),
            QuadHandler::Pipeline(stage) => stage.handle_quads(quads),
            QuadHandler::Sender { name, bnode_suffix } => just(
                send_quads(name.as_str(), bnode_suffix.as_str(), quads),
            ),
        }
    }
}

/// The sink made from what follows a pipe marker does what passing the
/// stream on does: the next stage receives exactly the stream that its
/// predecessor put out.
pub proof fn lemma_sink_passes_on(tokens: Seq<Seq<char>>, stage: StageView, input: Seq<ItemView>)
    requires
        stage_of(tokens) == Ok::<StageView, ArgFailure>(stage),
    ensures
        passed_on(Some(tokens), input) == sunk(HandlerView::Pipeline(stage), input),
{
}


/// A stage that writes a file and passes its quads on gives both the same
/// quads: the file gets every quad of the stream, in order, and the next
/// stage gets the stream as it is, whose quads are the same. Nothing else
/// changes: the stages behind run as they would without the file, also
/// where no format is found for it.
pub proof fn lemma_tee_mirrors(a: crate::serialize::ArgsView, input: Seq<ItemView>)
    requires
        a.pipeline is Some,
        a.output is Some,
    ensures
        ({
            let h = handled(StageView::Serialize(a), input);
            let onward = passed_on(a.pipeline, input);
            &&& h.jobs.len() == onward.jobs.len() + 1
            &&& h.jobs[0] matches JobView::Tee { quads, format, .. } && quads == ok_quads(input)
                && format == chosen_format(a.format, a.output)
            &&& h.jobs.skip(1) == onward.jobs
            &&& h.end == onward.end
        }),
{
    let h = handled(StageView::Serialize(a), input);
    let onward = passed_on(a.pipeline, input);
    assert(h.jobs.skip(1) =~= onward.jobs);
}

/// How a stage that writes a file and passes its quads on ends: with the
/// result of the stages behind it, whatever became of the file; a failure to
/// write the file is logged.
pub fn tee_outcome(foreground: Result<(), String>, background: Result<(), String>) -> (r: (
    Result<(), String>,
    Option<String>,
))
    ensures
        r.0 == foreground,
        text_view(r.1) == match background {
            Ok(_) => None,
            Err(why) => Some(why@),
        },
{
    let log = match background {
        Ok(_) => None,
        Err(why) => Some(why),
    };
    (foreground, log)
}

} // verus!
