//! The grammar of a stage's arguments.
//!
//! The arguments of a stage are a list of tokens. A token is an option, the
//! value of the option before it, a positional argument, or the pipe marker
//! `!`, behind which the tokens of the next stage follow. Scanning does not
//! look into those: they are kept as they stand until the next stage is
//! needed.
//!
//! An option is written `--name`, `--name=value`, `--name value`, `-n`,
//! `-nvalue`, `-n=value` or `-n value`; options without value may share one
//! dash (`-ab`), and the last option behind a dash may have a value. The
//! token `--` ends the options: every token behind it is a positional
//! argument, a `!` too. No option may be given twice.

use vstd::prelude::*;
use crate::format::{Format, format_named};
use crate::pipe::{PipeSubcommand, pipeline_view};
use crate::text::{
    chars_of_all, find_char, find_from, lemma_find_from_bounds, rows, slice_is, tail_of, text_is,
    texts, tokens_from,
};

verus! {

/// One option of a stage.
#[derive(Clone, Copy, Debug)]
pub struct OptSpec {
    /// The letter behind a single dash.
    pub short: char,
    /// The name behind two dashes.
    pub long: &'static str,
    /// Whether the option has a value.
    pub takes_value: bool,
}

/// Why a list of tokens is not a stage with its arguments.
#[derive(Clone, Copy, Debug, PartialEq, Eq, Structural)]
pub enum ArgErrorKind {
    /// There is no token that could name a stage.
    MissingStage,
    /// No stage has that name.
    UnknownStage,
    /// The stage has no such option.
    UnknownOption,
    /// The option needs a value, and no token follows it.
    MissingValue,
    /// The option has no value, and one was given with `=`.
    UnexpectedValue,
    /// The option was given before.
    RepeatedOption,
    /// A positional argument that the stage needs is not there.
    MissingArgument,
    /// The stage takes no positional argument at this place.
    UnexpectedArgument,
    /// The text is not a value that the option or the argument accepts.
    InvalidValue,
}

/// Why a list of tokens was refused, and at which token. For an argument
/// that is not there, that is the number of tokens.
#[derive(Clone, Copy, Debug, PartialEq, Eq, Structural)]
pub struct ArgError {
    pub kind: ArgErrorKind,
    pub at: usize,
}

/// What a scan found. It points into the tokens: a value is the text of a
/// token from some character on.
#[derive(Debug)]
pub struct Scan {
    /// For each option of the stage, in the order of its table: where its
    /// value stands (token and first character), if the option was given.
    /// For an option without value that is the end of its token.
    pub values: Vec<Option<(usize, usize)>>,
    /// The tokens that are positional arguments, in order.
    pub positionals: Vec<usize>,
    /// The index of the first token behind the pipe marker, if there is a
    /// pipe marker.
    pub pipeline: Option<usize>,
}

/// The mathematical model of a [`Scan`].
pub struct ScanModel {
    pub values: Seq<Option<(int, int)>>,
    pub positionals: Seq<int>,
    pub pipeline: Option<int>,
}

/// The mathematical model of a [`ArgError`].
pub struct ArgFailure {
    pub kind: ArgErrorKind,
    pub at: int,
}

impl View for ArgError {
    type V = ArgFailure;

    open spec fn view(&self) -> ArgFailure {
        ArgFailure { kind: self.kind, at: self.at as int }
    }
}

/// The place of a value, as mathematical integers.
pub open spec fn place_view(p: Option<(usize, usize)>) -> Option<(int, int)> {
    match p {
        Some((t, c)) => Some((t as int, c as int)),
        None => None,
    }
}

impl View for Scan {
    type V = ScanModel;

    open spec fn view(&self) -> ScanModel {
        ScanModel {
            values: Seq::new(self.values@.len(), |i: int| place_view(self.values@[i])),
            positionals: Seq::new(self.positionals@.len(), |i: int| self.positionals@[i] as int),
            pipeline: match self.pipeline {
                Some(p) => Some(p as int),
                None => None,
            },
        }
    }
}

/// The first option at or after `from` whose long name is `name`.
pub open spec fn find_long(opts: Seq<OptSpec>, name: Seq<char>, from: int) -> Option<int>
    decreases opts.len() - from,
{
    if from >= opts.len() {
        None
    } else if opts[from].long@ == name {
        Some(from)
    } else {
        find_long(opts, name, from + 1)
    }
}

/// The first option at or after `from` whose letter is `letter`.
pub open spec fn find_short(opts: Seq<OptSpec>, letter: char, from: int) -> Option<int>
    decreases opts.len() - from,
{
    if from >= opts.len() {
        None
    } else if opts[from].short == letter {
        Some(from)
    } else {
        find_short(opts, letter, from + 1)
    }
}

/// The scan before any token was read.
pub open spec fn empty_scan(n: nat) -> ScanModel {
    ScanModel {
        values: Seq::new(n, |i: int| None::<(int, int)>),
        positionals: Seq::empty(),
        pipeline: None,
    }
}

/// The tokens from `from` on, as positional arguments.
pub open spec fn rest_positional(from: int, len: int) -> Seq<int> {
    Seq::new((len - from) as nat, |i: int| from + i)
}

/// The scan `acc` with the value of option `k` at character `from` of token
/// `token`.
pub open spec fn with_value(acc: ScanModel, k: int, token: int, from: int) -> ScanModel {
    ScanModel {
        values: acc.values.update(k, Some((token, from))),
        positionals: acc.positionals,
        pipeline: acc.pipeline,
    }
}

/// Whether every place that `m` points to exists in `tokens`.
pub open spec fn in_bounds(m: ScanModel, tokens: Seq<Seq<char>>) -> bool {
    &&& forall|k: int|
        0 <= k < m.values.len() ==> (#[trigger] m.values[k] matches Some((t, c)) ==> 0 <= t
            < tokens.len() && 0 <= c <= tokens[t].len())
    &&& forall|i: int|
        0 <= i < m.positionals.len() ==> 0 <= #[trigger] m.positionals[i] < tokens.len()
    &&& m.pipeline matches Some(p) ==> 1 <= p <= tokens.len()
}

/// Whether option `k` was given.
pub open spec fn flag_of(m: ScanModel, k: int) -> bool {
    m.values[k] is Some
}

/// The value of option `k`, if the option was given.
pub open spec fn value_of(tokens: Seq<Seq<char>>, m: ScanModel, k: int) -> Option<Seq<char>> {
    match m.values[k] {
        Some((t, c)) => Some(tokens[t].skip(c)),
        None => None,
    }
}

/// The tokens of the next stage, if there is a pipe marker.
pub open spec fn pipeline_of(tokens: Seq<Seq<char>>, m: ScanModel) -> Option<Seq<Seq<char>>> {
    match m.pipeline {
        Some(p) => Some(tokens.skip(p)),
        None => None,
    }
}

/// One step of a scan: it ends, or goes on at another place.
pub enum Step {
    Stop(Result<ScanModel, ArgFailure>),
    Go { at: int, inside: int, acc: ScanModel },
}

/// The failure of the given kind at token `at`.
pub open spec fn fail(kind: ArgErrorKind, at: int) -> Step {
    Step::Stop(Err(ArgFailure { kind, at }))
}

/// The step for option `k`, met in token `at`. Where `has_inline` holds, the
/// token gives a value behind the option, from the character with index
/// `inline` on. `next` is where the scan goes on inside the token behind an
/// option without value (0 where the token ends with the option).
pub open spec fn option_step(
    opts: Seq<OptSpec>,
    tokens: Seq<Seq<char>>,
    at: int,
    k: int,
    has_inline: bool,
    inline: int,
    next: int,
    acc: ScanModel,
) -> Step {
    let t = tokens[at];
    if acc.values[k] is Some {
        fail(ArgErrorKind::RepeatedOption, at)
    } else if opts[k].takes_value {
        if has_inline {
            Step::Go { at: at + 1, inside: 0, acc: with_value(acc, k, at, inline) }
        } else if at + 1 < tokens.len() {
            Step::Go { at: at + 2, inside: 0, acc: with_value(acc, k, at + 1, 0) }
        } else {
            fail(ArgErrorKind::MissingValue, at)
        }
    } else if next == 0 {
        if has_inline {
            fail(ArgErrorKind::UnexpectedValue, at)
        } else {
            Step::Go { at: at + 1, inside: 0, acc: with_value(acc, k, at, t.len() as int) }
        }
    } else {
        Step::Go { at, inside: next, acc: with_value(acc, k, at, t.len() as int) }
    }
}

/// The step at token `at`, which exists. Where `inside` is not 0, the scan
/// stands inside the token, before the option letter with that index.
pub open spec fn scan_step(
    opts: Seq<OptSpec>,
    tokens: Seq<Seq<char>>,
    at: int,
    inside: int,
    acc: ScanModel,
) -> Step {
    let t = tokens[at];
    if inside > 0 {
        if inside >= t.len() {
            Step::Go { at: at + 1, inside: 0, acc }
        } else {
            match find_short(opts, t[inside], 0) {
                None => fail(ArgErrorKind::UnknownOption, at),
                Some(k) => option_step(
                    opts,
                    tokens,
                    at,
                    k,
                    inside + 1 < t.len(),
                    if inside + 1 < t.len() && t[inside + 1] == '=' {
                        inside + 2
                    } else {
                        inside + 1
                    },
                    inside + 1,
                    acc,
                ),
            }
        }
    } else if t == "!"@ {
        Step::Stop(
            Ok(
                ScanModel {
                    values: acc.values,
                    positionals: acc.positionals,
                    pipeline: Some(at + 1),
                },
            ),
        )
    } else if t == "--"@ {
        Step::Stop(
            Ok(
                ScanModel {
                    values: acc.values,
                    positionals: acc.positionals + rest_positional(at + 1, tokens.len() as int),
                    pipeline: acc.pipeline,
                },
            ),
        )
    } else if t.len() > 2 && t[0] == '-' && t[1] == '-' {
        let eq = find_from(t, '=', 2);
        match find_long(opts, t.subrange(2, eq), 0) {
            None => fail(ArgErrorKind::UnknownOption, at),
            Some(k) => option_step(opts, tokens, at, k, eq < t.len(), eq + 1, 0, acc),
        }
    } else if t.len() >= 2 && t[0] == '-' {
        Step::Go { at, inside: 1, acc }
    } else {
        Step::Go {
            at: at + 1,
            inside: 0,
            acc: ScanModel {
                values: acc.values,
                positionals: acc.positionals.push(at),
                pipeline: acc.pipeline,
            },
        }
    }
}

/// What scanning gives from token `at` on, after `acc` was found in the
/// tokens before it.
pub open spec fn scan(
    opts: Seq<OptSpec>,
    tokens: Seq<Seq<char>>,
    at: int,
    inside: int,
    acc: ScanModel,
) -> Result<ScanModel, ArgFailure>
    decreases tokens.len() - at, (if 0 <= at < tokens.len() {
        tokens[at].len() - inside
    } else {
        0
    }),
    when 0 <= at && 0 <= inside
{
    if at >= tokens.len() {
        Ok(acc)
    } else {
        match scan_step(opts, tokens, at, inside, acc) {
            Step::Stop(r) => r,
            Step::Go { at: at2, inside: inside2, acc: acc2 } => scan(
                opts,
                tokens,
                at2,
                inside2,
                acc2,
            ),
        }
    }
}

/// What scanning gives for the tokens from `start` on.
pub open spec fn scan_tokens(opts: Seq<OptSpec>, tokens: Seq<Seq<char>>, start: int) -> Result<
    ScanModel,
    ArgFailure,
> {
    scan(opts, tokens, start, 0, empty_scan(opts.len()))
}

/// What is wrong with the number of positional arguments, if anything: the
/// first one beyond `max`, or, where there are fewer than `min`, the one
/// missing behind the last token.
pub open spec fn arity_failure(m: ScanModel, min: int, max: int, count: int) -> Option<
    ArgFailure,
> {
    if m.positionals.len() > max {
        Some(ArgFailure { kind: ArgErrorKind::UnexpectedArgument, at: m.positionals[max] })
    } else if m.positionals.len() < min {
        Some(ArgFailure { kind: ArgErrorKind::MissingArgument, at: count })
    } else {
        None
    }
}

/// The failure for a value that was not accepted: it names the token that
/// holds the value of option `k`.
pub open spec fn invalid_value(m: ScanModel, k: int) -> ArgFailure {
    ArgFailure {
        kind: ArgErrorKind::InvalidValue,
        at: match m.values[k] {
            Some((t, _)) => t,
            None => 0,
        },
    }
}

/// The failure for a positional argument that was not accepted.
pub open spec fn invalid_argument(m: ScanModel, i: int) -> ArgFailure {
    ArgFailure { kind: ArgErrorKind::InvalidValue, at: m.positionals[i] }
}

/// The view of what parsing the arguments of a stage gave.
pub open spec fn parsed_view<T: View>(r: Result<T, ArgError>) -> Result<T::V, ArgFailure> {
    match r {
        Ok(a) => Ok(a@),
        Err(e) => Err(e@),
    }
}

/// The view of the result of a scan.
pub open spec fn scan_result_view(r: Result<Scan, ArgError>) -> Result<ScanModel, ArgFailure> {
    match r {
        Ok(s) => Ok(s@),
        Err(e) => Err(e@),
    }
}



/// The first option whose letter is `letter`.
fn lookup_short(opts: &Vec<OptSpec>, letter: char) -> (r: Option<usize>)
    ensures
        match r {
            Some(k) => k < opts@.len() && find_short(opts@, letter, 0) == Some(k as int),
            None => find_short(opts@, letter, 0) is None,
        },
{
    let mut i: usize = 0;
    while i < opts.len()
        invariant
            i <= opts@.len(),
            find_short(opts@, letter, 0) == find_short(opts@, letter, i as int),
        decreases opts.len() - i,
    {
        if opts[i].short == letter {
            return Some(i);
        }
        i += 1;
    }
    None
}

/// The first option whose long name is the text of `tok` from `from` up to
/// `to`.
fn lookup_long(opts: &Vec<OptSpec>, tok: &Vec<char>, from: usize, to: usize) -> (r: Option<usize>)
    requires
        from <= to <= tok@.len(),
    ensures
        match r {
            Some(k) => k < opts@.len() && find_long(
                opts@,
                tok@.subrange(from as int, to as int),
                0,
            ) == Some(k as int),
            None => find_long(opts@, tok@.subrange(from as int, to as int), 0) is None,
        },
{
    let ghost name = tok@.subrange(from as int, to as int);
    let mut i: usize = 0;
    while i < opts.len()
        invariant
            i <= opts@.len(),
            from <= to <= tok@.len(),
            name == tok@.subrange(from as int, to as int),
            find_long(opts@, name, 0) == find_long(opts@, name, i as int),
        decreases opts.len() - i,
    {
        if slice_is(tok, from, to, opts[i].long) {
            return Some(i);
        }
        i += 1;
    }
    None
}

/// Records option `k`, met in token `at`, and says where the scan goes on.
fn take_option(
    opts: &Vec<OptSpec>,
    toks: &Vec<Vec<char>>,
    at: usize,
    k: usize,
    has_inline: bool,
    inline: usize,
    next: usize,
    acc: &mut Scan,
) -> (r: Result<(usize, usize), ArgError>)
    requires
        at < toks@.len(),
        k < opts@.len(),
        old(acc).values@.len() == opts@.len(),
        has_inline ==> inline <= toks@[at as int]@.len(),
        in_bounds(old(acc)@, rows(toks@)),
    ensures
        final(acc).values@.len() == opts@.len(),
        in_bounds(final(acc)@, rows(toks@)),
        match r {
            Ok((at2, inside2)) => option_step(
                opts@,
                rows(toks@),
                at as int,
                k as int,
                has_inline,
                inline as int,
                next as int,
                old(acc)@,
            ) == (Step::Go { at: at2 as int, inside: inside2 as int, acc: final(acc)@ }),
            Err(e) => option_step(
                opts@,
                rows(toks@),
                at as int,
                k as int,
                has_inline,
                inline as int,
                next as int,
                old(acc)@,
            ) == Step::Stop(Err(e@)),
        },
{
    let ghost before = acc@;
    let count = toks.len();
    let width = toks[at].len();
    if acc.values[k].is_some() {
        return Err(ArgError { kind: ArgErrorKind::RepeatedOption, at });
    }
    if opts[k].takes_value {
        if has_inline {
            acc.values.set(k, Some((at, inline)));
            assert(acc@.values =~= before.values.update(k as int, Some((at as int, inline as int))));
            assert(acc@.positionals =~= before.positionals);
            Ok((at + 1, 0))
        } else if at + 1 < count {
            acc.values.set(k, Some((at + 1, 0)));
            assert(acc@.values =~= before.values.update(k as int, Some((at + 1, 0int))));
            assert(acc@.positionals =~= before.positionals);
            Ok((at + 2, 0))
        } else {
            Err(ArgError { kind: ArgErrorKind::MissingValue, at })
        }
    } else if next == 0 {
        if has_inline {
            Err(ArgError { kind: ArgErrorKind::UnexpectedValue, at })
        } else {
            acc.values.set(k, Some((at, width)));
            assert(acc@.values =~= before.values.update(k as int, Some((at as int, width as int))));
            assert(acc@.positionals =~= before.positionals);
            Ok((at + 1, 0))
        }
    } else {
        acc.values.set(k, Some((at, width)));
        assert(acc@.values =~= before.values.update(k as int, Some((at as int, width as int))));
        assert(acc@.positionals =~= before.positionals);
        Ok((at, next))
    }
}

/// An option that is found stands in the table.
pub proof fn lemma_find_short_range(opts: Seq<OptSpec>, letter: char, from: int)
    requires
        0 <= from,
    ensures
        find_short(opts, letter, from) matches Some(k) ==> from <= k < opts.len(),
    decreases opts.len() - from,
{
    if from < opts.len() && opts[from].short != letter {
        lemma_find_short_range(opts, letter, from + 1);
    }
}

/// An option that is found stands in the table.
pub proof fn lemma_find_long_range(opts: Seq<OptSpec>, name: Seq<char>, from: int)
    requires
        0 <= from,
    ensures
        find_long(opts, name, from) matches Some(k) ==> from <= k < opts.len(),
    decreases opts.len() - from,
{
    if from < opts.len() && opts[from].long@ != name {
        lemma_find_long_range(opts, name, from + 1);
    }
}

/// A scan points to places that exist, if it did so before.
pub proof fn lemma_scan_in_bounds(
    opts: Seq<OptSpec>,
    tokens: Seq<Seq<char>>,
    at: int,
    inside: int,
    acc: ScanModel,
)
    requires
        0 <= at,
        0 <= inside,
        in_bounds(acc, tokens),
        acc.values.len() == opts.len(),
    ensures
        scan(opts, tokens, at, inside, acc) matches Ok(m) ==> in_bounds(m, tokens)
            && m.values.len() == opts.len(),
    decreases tokens.len() - at, (if 0 <= at < tokens.len() {
        tokens[at].len() - inside
    } else {
        0
    }),
{
    if at < tokens.len() {
        let t = tokens[at];
        if inside > 0 && inside < t.len() {
            lemma_find_short_range(opts, t[inside], 0);
        }
        if t.len() > 2 {
            lemma_find_from_bounds(t, '=', 2);
            lemma_find_long_range(opts, t.subrange(2, find_from(t, '=', 2)), 0);
        }
        match scan_step(opts, tokens, at, inside, acc) {
            Step::Stop(r) => {},
            Step::Go { at: at2, inside: inside2, acc: acc2 } => {
                assert(in_bounds(acc2, tokens));
                lemma_scan_in_bounds(opts, tokens, at2, inside2, acc2);
            },
        }
    }
}

/// The tokens of the next stage are fewer than the tokens that were scanned.
pub proof fn lemma_pipeline_shorter(opts: Seq<OptSpec>, tokens: Seq<Seq<char>>, start: int)
    requires
        0 <= start,
    ensures
        scan_tokens(opts, tokens, start) matches Ok(m) ==> (pipeline_of(tokens, m) matches Some(
            next,
        ) ==> next.len() < tokens.len()),
{
    lemma_scan_in_bounds(opts, tokens, start, 0, empty_scan(opts.len()));
}

/// Scans the arguments of a stage whose options are `opts`, from the token
/// with index `start` on. `toks` holds the characters of each token.
pub(crate) fn scan_args(opts: &Vec<OptSpec>, toks: &Vec<Vec<char>>, start: usize) -> (r: Result<
    Scan,
    ArgError,
>)
    requires
        start <= toks@.len(),
    ensures
        scan_result_view(r) == scan_tokens(opts@, rows(toks@), start as int),
        r matches Ok(s) ==> s.values@.len() == opts@.len() && in_bounds(s@, rows(toks@)),
{
    let ghost tokens = rows(toks@);
    let mut values: Vec<Option<(usize, usize)>> = Vec::new();
    while values.len() < opts.len()
        invariant
            values@.len() <= opts@.len(),
            forall|i: int| 0 <= i < values@.len() ==> values@[i] is None,
        decreases opts.len() - values.len(),
    {
        values.push(None);
    }
    let mut acc = Scan { values, positionals: Vec::new(), pipeline: None };
    assert(acc@.values =~= empty_scan(opts@.len()).values);
    assert(acc@.positionals =~= empty_scan(opts@.len()).positionals);
    let mut at: usize = start;
    let mut inside: usize = 0;
    while at < toks.len()
        invariant
            at <= toks@.len(),
            tokens == rows(toks@),
            acc.values@.len() == opts@.len(),
            in_bounds(acc@, tokens),
            inside > 0 ==> at < toks@.len(),
            scan(opts@, tokens, at as int, inside as int, acc@) == scan_tokens(
                opts@,
                tokens,
                start as int,
            ),
        decreases toks@.len() - at, (if at < toks@.len() {
            toks@[at as int]@.len() - inside
        } else {
            0
        }),
    {
        let tok = &toks[at];
        let ghost t = tokens[at as int];
        let ghost before = acc@;
        assert(t == tok@);
        if inside > 0 {
            if inside >= tok.len() {
                at += 1;
                inside = 0;
            } else {
                match lookup_short(opts, tok[inside]) {
                    None => {
                        return Err(ArgError { kind: ArgErrorKind::UnknownOption, at });
                    },
                    Some(k) => {
                        let has_inline = inside + 1 < tok.len();
                        let inline = if has_inline && tok[inside + 1] == '=' {
                            inside + 2
                        } else {
                            inside + 1
                        };
                        match take_option(
                            opts,
                            toks,
                            at,
                            k,
                            has_inline,
                            inline,
                            inside + 1,
                            &mut acc,
                        ) {
                            Ok((at2, inside2)) => {
                                at = at2;
                                inside = inside2;
                            },
                            Err(e) => {
                                return Err(e);
                            },
                        }
                    },
                }
            }
        } else if text_is(tok, "!") {
            acc.pipeline = Some(at + 1);
            assert(acc@.values =~= before.values);
            assert(acc@.positionals =~= before.positionals);
            return Ok(acc);
        } else if text_is(tok, "--") {
            let mut i: usize = at + 1;
            let ghost start = acc.positionals@;
            let ghost values_before = acc.values@;
            let ghost pipeline_before = acc.pipeline;
            while i < toks.len()
                invariant
                    at < i <= toks@.len(),
                    acc.values@ == values_before,
                    acc.pipeline == pipeline_before,
                    acc.positionals@.len() == start.len() + (i - at - 1),
                    forall|j: int| 0 <= j < start.len() ==> acc.positionals@[j] == start[j],
                    forall|j: int|
                        start.len() <= j < acc.positionals@.len() ==> #[trigger] acc.positionals@[j]
                            == at + 1 + (j - start.len()),
                decreases toks.len() - i,
            {
                acc.positionals.push(i);
                i += 1;
            }
            assert(acc@.values =~= before.values);
            assert(acc@.positionals =~= before.positionals + rest_positional(
                at + 1,
                tokens.len() as int,
            ));
            return Ok(acc);
        } else if tok.len() > 2 && tok[0] == '-' && tok[1] == '-' {
            let eq = find_char(tok, '=', 2);
            match lookup_long(opts, tok, 2, eq) {
                None => {
                    return Err(ArgError { kind: ArgErrorKind::UnknownOption, at });
                },
                Some(k) => {
                    let has_inline = eq < tok.len();
                    let inline = if has_inline {
                        eq + 1
                    } else {
                        eq
                    };
                    assert(option_step(
                        opts@,
                        tokens,
                        at as int,
                        k as int,
                        has_inline,
                        inline as int,
                        0,
                        before,
                    ) == option_step(
                        opts@,
                        tokens,
                        at as int,
                        k as int,
                        has_inline,
                        eq + 1,
                        0,
                        before,
                    ));
                    match take_option(opts, toks, at, k, has_inline, inline, 0, &mut acc) {
                        Ok((at2, inside2)) => {
                            at = at2;
                            inside = inside2;
                        },
                        Err(e) => {
                            return Err(e);
                        },
                    }
                },
            }
        } else if tok.len() >= 2 && tok[0] == '-' {
            inside = 1;
        } else {
            acc.positionals.push(at);
            assert(acc@.values =~= before.values);
            assert(acc@.positionals =~= before.positionals.push(at as int));
            at += 1;
        }
    }
    Ok(acc)
}


/// Scans the arguments of a stage whose options are `opts`, from the token
/// with index `start` on.
pub(crate) fn scan_strings(opts: &Vec<OptSpec>, tokens: &Vec<String>, start: usize) -> (r: Result<
    Scan,
    ArgError,
>)
    requires
        start <= tokens@.len(),
    ensures
        scan_result_view(r) == scan_tokens(opts@, texts(tokens@), start as int),
        r matches Ok(s) ==> s.values@.len() == opts@.len() && in_bounds(s@, texts(tokens@)),
{
    let toks = chars_of_all(tokens);
    scan_args(opts, &toks, start)
}

/// Whether option `k` was given.
pub(crate) fn option_given(scan: &Scan, k: usize) -> (r: bool)
    requires
        k < scan.values@.len(),
    ensures
        r == flag_of(scan@, k as int),
{
    scan.values[k].is_some()
}

/// The view of an optional text.
pub open spec fn text_view(t: Option<String>) -> Option<Seq<char>> {
    match t {
        Some(t) => Some(t@),
        None => None,
    }
}

/// The value of option `k`, if the option was given.
pub(crate) fn option_value(tokens: &Vec<String>, scan: &Scan, k: usize) -> (r: Option<String>)
    requires
        k < scan.values@.len(),
        in_bounds(scan@, texts(tokens@)),
    ensures
        text_view(r) == value_of(texts(tokens@), scan@, k as int),
{
    match scan.values[k] {
        Some((t, c)) => {
            assert(scan@.values[k as int] == Some((t as int, c as int)));
            Some(tail_of(tokens[t].as_str(), c))
        },
        None => None,
    }
}

/// The positional argument with index `i`.
pub(crate) fn positional(tokens: &Vec<String>, scan: &Scan, i: usize) -> (r: String)
    requires
        i < scan.positionals@.len(),
        in_bounds(scan@, texts(tokens@)),
    ensures
        r@ == texts(tokens@)[scan@.positionals[i as int]],
{
    let t = scan.positionals[i];
    assert(scan@.positionals[i as int] == t);
    tokens[t].clone()
}

/// The next stage, unparsed, if there is a pipe marker.
pub(crate) fn piped(tokens: &Vec<String>, scan: &Scan) -> (r: Option<PipeSubcommand>)
    requires
        in_bounds(scan@, texts(tokens@)),
    ensures
        pipeline_view(r) == pipeline_of(texts(tokens@), scan@),
{
    match scan.pipeline {
        Some(p) => Some(PipeSubcommand::new(tokens_from(tokens, p))),
        None => None,
    }
}

/// Checks that the stage got at least `min` and at most `max` positional
/// arguments.
pub(crate) fn check_arity(scan: &Scan, min: usize, max: usize, count: usize) -> (r: Result<(), ArgError>)
    requires
        min <= max,
    ensures
        match r {
            Ok(_) => arity_failure(scan@, min as int, max as int, count as int) is None,
            Err(e) => arity_failure(scan@, min as int, max as int, count as int) == Some(e@),
        },
{
    if scan.positionals.len() > max {
        Err(ArgError { kind: ArgErrorKind::UnexpectedArgument, at: scan.positionals[max] })
    } else if scan.positionals.len() < min {
        Err(ArgError { kind: ArgErrorKind::MissingArgument, at: count })
    } else {
        Ok(())
    }
}

/// The error for a value of option `k` that was not accepted.
pub(crate) fn invalid_value_error(scan: &Scan, k: usize) -> (r: ArgError)
    requires
        k < scan.values@.len(),
        scan.values@[k as int] is Some,
    ensures
        r@ == invalid_value(scan@, k as int),
{
    let (t, _) = scan.values[k].unwrap();
    ArgError { kind: ArgErrorKind::InvalidValue, at: t }
}

/// The error for a positional argument that was not accepted.
pub(crate) fn invalid_argument_error(scan: &Scan, i: usize) -> (r: ArgError)
    requires
        i < scan.positionals@.len(),
    ensures
        r@ == invalid_argument(scan@, i as int),
{
    ArgError { kind: ArgErrorKind::InvalidValue, at: scan.positionals[i] }
}


/// The format that the value of option `k` names, if the option was given.
pub open spec fn format_of(tokens: Seq<Seq<char>>, m: ScanModel, k: int) -> Result<
    Option<Format>,
    ArgFailure,
> {
    match value_of(tokens, m, k) {
        None => Ok(None),
        Some(v) => match format_named(v) {
            Some(f) => Ok(Some(f)),
            None => Err(invalid_value(m, k)),
        },
    }
}

/// The format that the value of option `k` names, if the option was given.
pub(crate) fn format_option(tokens: &Vec<String>, scan: &Scan, k: usize) -> (r: Result<
    Option<Format>,
    ArgError,
>)
    requires
        k < scan.values@.len(),
        in_bounds(scan@, texts(tokens@)),
    ensures
        match r {
            Ok(f) => format_of(texts(tokens@), scan@, k as int) == Ok::<
                Option<Format>,
                ArgFailure,
            >(f),
            Err(e) => format_of(texts(tokens@), scan@, k as int) == Err::<
                Option<Format>,
                ArgFailure,
            >(e@),
        },
{
    match option_value(tokens, scan, k) {
        None => Ok(None),
        Some(v) => match Format::from_str(v.as_str()) {
            Ok(f) => Ok(Some(f)),
            Err(_) => Err(invalid_value_error(scan, k)),
        },
    }
}

/// The failure for a pipe marker behind a stage that ends the pipeline.
pub open spec fn unexpected_pipe(m: ScanModel) -> ArgFailure {
    ArgFailure {
        kind: ArgErrorKind::UnexpectedArgument,
        at: match m.pipeline {
            Some(p) => p - 1,
            None => 0,
        },
    }
}

/// The error for a pipe marker behind a stage that ends the pipeline.
pub(crate) fn unexpected_pipe_error(scan: &Scan) -> (r: ArgError)
    requires
        scan.pipeline matches Some(p) && p >= 1,
    ensures
        r@ == unexpected_pipe(scan@),
{
    ArgError { kind: ArgErrorKind::UnexpectedArgument, at: scan.pipeline.unwrap() - 1 }
}

} // verus!
