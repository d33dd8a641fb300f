use quadpipe::cli::{ArgError, ArgErrorKind};
use quadpipe::merge;
use quadpipe::pipe::{arg_message, kind_message, PipeCommand, PipeSubcommand};
use quadpipe::quad_handler::{pass_on, tee_outcome, End, Failure, Job, QuadHandler};
use quadpipe::quad_iter::{QuadIter, QuadIterError, QuadIterItem};
use quadpipe::stage::{parse_stage, stage_kind, SinkSubcommand, StageKind};
use quadpipe::term::{Quad, Term};

fn tokens(line: &str) -> Vec<String> {
    line.split_whitespace().map(|t| t.to_string()).collect()
}

fn pipe(line: &str) -> PipeSubcommand {
    PipeSubcommand::new(tokens(line))
}

fn quad(s: &str, g: Option<&str>) -> Quad {
    Quad::new(
        Term::iri(s),
        Term::iri("http://example.org/p"),
        Term::iri("http://example.org/o"),
        g.map(Term::iri),
    )
}

fn error_of(line: &str) -> ArgError {
    match parse_stage(&tokens(line)) {
        Err(e) => e,
        Ok(stage) => panic!("parsed as {:?}", stage),
    }
}

#[test]
fn every_stage_has_its_names() {
    for (names, kind) in [
        (vec!["absolutize", "a", "ab", "abs"], StageKind::Absolutize),
        (vec!["canonicalize", "c", "c14n", "ca", "can"], StageKind::Canonicalize),
        (vec!["dispatch", "d", "di", "dis"], StageKind::Dispatch),
        (vec!["filter", "f", "fi", "fil"], StageKind::Filter),
        (vec!["merge", "m", "merge-default-graph", "me", "mer"], StageKind::Merge),
        (vec!["query", "q", "qu", "que"], StageKind::Query),
        (vec!["relativize", "r", "re", "rel"], StageKind::Relativize),
        (vec!["serialize", "s", "se", "ser"], StageKind::Serialize),
        (vec!["null", "n", "Z", "nu", "nul"], StageKind::Null),
    ] {
        for name in names {
            assert_eq!(stage_kind(name), Some(kind), "{}", name);
        }
    }
    assert_eq!(stage_kind("parse"), None);
    assert_eq!(stage_kind("Merge"), None);
    assert_eq!(stage_kind(""), None);
}

#[test]
fn a_chain_of_three_stages_parses_one_stage_at_a_time() {
    let first = parse_stage(&tokens("merge --drop ! relativize http://example.org/ -p 2 ! null")).unwrap();
    let second = match first {
        SinkSubcommand::Merge(merge::Args { drop: true, pipeline: Some(rest) }) => {
            assert_eq!(rest, pipe("relativize http://example.org/ -p 2 ! null"));
            rest.parse().unwrap()
        }
        other => panic!("{:?}", other),
    };
    let third = match second {
        SinkSubcommand::Relativize(args) => {
            assert_eq!(args.base, "http://example.org/");
            assert_eq!(args.parents, 2);
            assert_eq!(args.pipeline, Some(pipe("null")));
            args.pipeline.unwrap().parse().unwrap()
        }
        other => panic!("{:?}", other),
    };
    assert_eq!(third, SinkSubcommand::Null(quadpipe::null::Args {}));
}

#[test]
fn an_invalid_third_stage_is_an_error_of_the_piped_sub_command() {
    let first = parse_stage(&tokens("merge ! merge --drop ! frobnicate --now")).unwrap();
    let second = match first {
        SinkSubcommand::Merge(args) => args.pipeline.unwrap().parse().unwrap(),
        other => panic!("{:?}", other),
    };
    let rest = match second {
        SinkSubcommand::Merge(args) => args.pipeline.unwrap(),
        other => panic!("{:?}", other),
    };
    let err = rest.parse().unwrap_err();
    assert_eq!(err.kind, ArgErrorKind::UnknownStage);
    assert_eq!(err.at, 0);
    assert_eq!(err.token, "frobnicate");
    assert_eq!(err.to_string(), "error in piped sub-command: unrecognized sub-command 'frobnicate'");
    assert!(err.to_string().contains("piped sub-command"));
}

#[test]
fn each_stage_gets_exactly_the_stream_of_its_predecessor() {
    // merge duplicates, the second merge drops the graph names, the default
    // output shows what arrives.
    let input: Vec<QuadIterItem> = vec![
        Ok(quad("http://example.org/a", Some("http://example.org/g"))),
        Ok(quad("http://example.org/b", None)),
    ];
    let stage = parse_stage(&tokens("merge ! merge -d ! absolutize http://example.org/")).unwrap();
    let handled = stage.handle_quads(QuadIter::new(input));
    assert!(handled.jobs.is_empty());
    match handled.end {
        End::Printed { lines, result } => {
            assert_eq!(result, Ok(()));
            assert_eq!(
                lines,
                vec![
                    "<http://example.org/a>\t<http://example.org/p>\t<http://example.org/o>\n",
                    "<http://example.org/a>\t<http://example.org/p>\t<http://example.org/o>\n",
                    "<http://example.org/b>\t<http://example.org/p>\t<http://example.org/o>\n",
                ]
            );
        }
        other => panic!("{:?}", other),
    }
}

#[test]
fn an_invalid_stage_in_the_chain_stops_the_chain() {
    let stage = parse_stage(&tokens("merge ! merge ! nope")).unwrap();
    let handled = stage.handle_quads(QuadIter::new(vec![Ok(quad("http://example.org/a", None))]));
    match handled.end {
        End::Failed(Failure::Pipe(e)) => {
            assert_eq!(e.kind, ArgErrorKind::UnknownStage);
            assert!(e.to_string().contains("piped sub-command"));
        }
        other => panic!("{:?}", other),
    }
}

#[test]
fn the_default_output_stops_at_the_first_error() {
    let input: Vec<QuadIterItem> = vec![
        Ok(quad("http://example.org/a", None)),
        Err(QuadIterError::new("bad")),
        Ok(quad("http://example.org/b", None)),
    ];
    let handled = QuadHandler::Stdout.handle_quads(QuadIter::new(input));
    match handled.end {
        End::Printed { lines, result } => {
            assert_eq!(lines, vec!["<http://example.org/a>\t<http://example.org/p>\t<http://example.org/o>\n"]);
            assert_eq!(result, Err(QuadIterError::new("bad")));
        }
        other => panic!("{:?}", other),
    }
}

#[test]
fn the_channel_gets_suffixed_quads_up_to_the_first_error() {
    let b = |id: &str| Quad::new(Term::blank_node(id), Term::iri("p"), Term::blank_node("o"), None);
    let input: Vec<QuadIterItem> =
        vec![Ok(b("x")), Err(QuadIterError::new("bad line")), Ok(b("y")), Err(QuadIterError::new("again"))];
    let handler = QuadHandler::Sender { name: "a.ttl".to_string(), bnode_suffix: "_1".to_string() };
    match handler.handle_quads(QuadIter::new(input)).end {
        End::Sent { quads, warning } => {
            assert_eq!(
                quads,
                vec![Quad::new(Term::blank_node("x_1"), Term::iri("p"), Term::blank_node("o_1"), None)]
            );
            assert_eq!(warning, Some("a.ttl: bad line".to_string()));
        }
        other => panic!("{:?}", other),
    }
    let handler = QuadHandler::Sender { name: "a.ttl".to_string(), bnode_suffix: "_1".to_string() };
    match handler.handle_quads(QuadIter::new(vec![Ok(b("x"))])).end {
        End::Sent { quads, warning } => {
            assert_eq!(quads.len(), 1);
            assert_eq!(warning, None);
        }
        other => panic!("{:?}", other),
    }
}

#[test]
fn a_sink_is_the_default_output_or_the_next_stage() {
    assert_eq!(QuadHandler::new(None), Ok(QuadHandler::Stdout));
    assert_eq!(
        QuadHandler::new(Some(pipe("null"))),
        Ok(QuadHandler::Pipeline(SinkSubcommand::Null(quadpipe::null::Args {})))
    );
    let err = QuadHandler::new(Some(pipe("merge --bogus"))).unwrap_err();
    assert_eq!(err.kind, ArgErrorKind::UnknownOption);
    assert_eq!(err.token, "--bogus");
    assert_eq!(err.to_string(), "error in piped sub-command: unexpected option '--bogus'");
    let err = QuadHandler::new(Some(PipeSubcommand::new(vec![]))).unwrap_err();
    assert_eq!(err.kind, ArgErrorKind::MissingStage);
    assert_eq!(err.to_string(), "error in piped sub-command: no sub-command follows the pipe marker");
}

#[test]
fn stages_for_outside_engines_are_handed_back() {
    let stage = parse_stage(&tokens("merge -d ! filter isIRI(?s) ! null")).unwrap();
    let handled = stage.handle_quads(QuadIter::new(vec![Ok(quad("http://example.org/a", Some("http://example.org/g")))]));
    match handled.end {
        End::Delegated { stage: SinkSubcommand::Filter(args), stream } => {
            assert_eq!(args.expression, "isIRI(?s)");
            assert_eq!(args.pipeline, Some(pipe("null")));
            assert_eq!(stream.collect(), vec![Ok(quad("http://example.org/a", None))]);
        }
        other => panic!("{:?}", other),
    }
    for line in ["query ASK{} -s", "canonicalize -f sophia", "serialize -f nt"] {
        let stage = parse_stage(&tokens(line)).unwrap();
        match stage.handle_quads(QuadIter::empty()).end {
            End::Delegated { .. } => {}
            other => panic!("{:?}", other),
        }
    }
}

#[test]
fn null_ends_a_chain_in_silence() {
    let stage = parse_stage(&tokens("merge ! Z")).unwrap();
    let input: Vec<QuadIterItem> = vec![Ok(quad("http://example.org/a", None)), Err(QuadIterError::new("bad"))];
    match stage.handle_quads(QuadIter::new(input)).end {
        End::Consumed(result) => assert_eq!(result, Err(QuadIterError::new("bad"))),
        other => panic!("{:?}", other),
    }
}

#[test]
fn tee_writes_the_file_and_passes_the_quads_on() {
    let input: Vec<QuadIterItem> = vec![
        Ok(quad("http://example.org/a", Some("http://example.org/g"))),
        Ok(quad("http://example.org/b", None)),
        Err(QuadIterError::new("bad")),
        Ok(quad("http://example.org/c", None)),
    ];
    let stage = parse_stage(&tokens("serialize -o out.nq ! null")).unwrap();
    let handled = stage.handle_quads(QuadIter::new(input));
    assert_eq!(handled.jobs.len(), 1);
    match &handled.jobs[0] {
        Job::Tee { output, format, options, quads } => {
            assert_eq!(output, "out.nq");
            assert_eq!(*format, Some(quadpipe::format::Format::NQuads));
            assert!(!options.no_pretty);
            assert_eq!(
                *quads,
                vec![
                    quad("http://example.org/a", Some("http://example.org/g")),
                    quad("http://example.org/b", None),
                    quad("http://example.org/c", None),
                ]
            );
        }
        other => panic!("{:?}", other),
    }
    match handled.end {
        End::Consumed(result) => assert_eq!(result, Err(QuadIterError::new("bad"))),
        other => panic!("{:?}", other),
    }
    // without a format the file cannot be written; the next stage runs all the same
    let stage = parse_stage(&tokens("serialize -o out.unknown ! null")).unwrap();
    let handled = stage.handle_quads(QuadIter::new(vec![Ok(quad("http://example.org/a", None))]));
    match &handled.jobs[0] {
        Job::Tee { output, format, quads, .. } => {
            assert_eq!(output, "out.unknown");
            assert_eq!(*format, None);
            assert_eq!(quads.len(), 1);
        }
        other => panic!("{:?}", other),
    }
    match handled.end {
        End::Consumed(result) => assert_eq!(result, Ok(())),
        other => panic!("{:?}", other),
    }
}

#[test]
fn tee_gives_the_file_every_quad_of_the_stream() {
    let input: Vec<QuadIterItem> = vec![
        Err(QuadIterError::new("first")),
        Ok(quad("http://example.org/a", None)),
        Err(QuadIterError::new("second")),
        Ok(quad("http://example.org/b", Some("http://example.org/g"))),
    ];
    let stage = parse_stage(&tokens("serialize -o out.nq -f nq ! merge")).unwrap();
    let handled = stage.handle_quads(QuadIter::new(input));
    match &handled.jobs[0] {
        Job::Tee { quads, .. } => {
            assert_eq!(
                *quads,
                vec![quad("http://example.org/a", None), quad("http://example.org/b", Some("http://example.org/g"))]
            );
        }
        other => panic!("{:?}", other),
    }
}

#[test]
fn the_result_of_a_tee_is_that_of_the_foreground() {
    assert_eq!(tee_outcome(Ok(()), Ok(())), (Ok(()), None));
    assert_eq!(tee_outcome(Ok(()), Err("disk full".to_string())), (Ok(()), Some("disk full".to_string())));
    assert_eq!(tee_outcome(Err("boom".to_string()), Ok(())), (Err("boom".to_string()), None));
    assert_eq!(
        tee_outcome(Err("boom".to_string()), Err("disk full".to_string())),
        (Err("boom".to_string()), Some("disk full".to_string()))
    );
}

#[test]
fn passing_on_without_a_pipe_prints() {
    match pass_on(None, QuadIter::new(vec![Ok(quad("http://example.org/a", None))])).end {
        End::Printed { lines, result } => {
            assert_eq!(lines.len(), 1);
            assert_eq!(result, Ok(()));
        }
        other => panic!("{:?}", other),
    }
}

#[test]
fn options_can_be_written_in_all_their_forms() {
    let expected = parse_stage(&tokens("relativize --parents 9 http://example.org/")).unwrap();
    for line in [
        "relativize --parents=9 http://example.org/",
        "relativize -p 9 http://example.org/",
        "relativize -p9 http://example.org/",
        "relativize -p=9 http://example.org/",
        "relativize http://example.org/ -p 9",
        "relativize -p 9 -- http://example.org/",
    ] {
        assert_eq!(parse_stage(&tokens(line)).unwrap(), expected, "{}", line);
    }
    let flags = parse_stage(&tokens("query -H -s ASK{}")).unwrap();
    assert_eq!(parse_stage(&tokens("query -Hs ASK{}")).unwrap(), flags);
    assert_eq!(parse_stage(&tokens("query --status ASK{} --no-headers")).unwrap(), flags);
    // options without value share a dash with a last option that has one
    match parse_stage(&tokens("dispatch -orfttl http://example.org/")).unwrap() {
        SinkSubcommand::Dispatch(args) => {
            assert!(args.overwrite);
            assert!(args.relativize);
            assert_eq!(args.format, Some(quadpipe::format::Format::Turtle));
        }
        other => panic!("{:?}", other),
    }
    // behind `--` a pipe marker is an argument like any other
    match parse_stage(&tokens("filter -- !")).unwrap() {
        SinkSubcommand::Filter(args) => {
            assert_eq!(args.expression, "!");
            assert_eq!(args.pipeline, None);
        }
        other => panic!("{:?}", other),
    }
    // the value of an option may look like a pipe marker
    match parse_stage(&tokens("dispatch http://example.org/ -d ! ! null")).unwrap() {
        SinkSubcommand::Dispatch(args) => {
            assert_eq!(args.destination, "!");
            assert_eq!(args.pipeline, Some(pipe("null")));
        }
        other => panic!("{:?}", other),
    }
}

#[test]
fn each_kind_of_error_has_its_input() {
    assert_eq!(parse_stage(&vec![]), Err(ArgError { kind: ArgErrorKind::MissingStage, at: 0 }));
    assert_eq!(error_of("frob"), ArgError { kind: ArgErrorKind::UnknownStage, at: 0 });
    assert_eq!(error_of("merge --keep"), ArgError { kind: ArgErrorKind::UnknownOption, at: 1 });
    assert_eq!(error_of("merge -x"), ArgError { kind: ArgErrorKind::UnknownOption, at: 1 });
    assert_eq!(error_of("merge -dx"), ArgError { kind: ArgErrorKind::UnknownOption, at: 1 });
    assert_eq!(error_of("relativize http://example.org/ -p"), ArgError { kind: ArgErrorKind::MissingValue, at: 2 });
    assert_eq!(error_of("merge --drop=yes"), ArgError { kind: ArgErrorKind::UnexpectedValue, at: 1 });
    assert_eq!(error_of("merge -d --drop"), ArgError { kind: ArgErrorKind::RepeatedOption, at: 2 });
    assert_eq!(error_of("merge -dd"), ArgError { kind: ArgErrorKind::RepeatedOption, at: 1 });
    assert_eq!(error_of("filter"), ArgError { kind: ArgErrorKind::MissingArgument, at: 1 });
    assert_eq!(error_of("filter a b"), ArgError { kind: ArgErrorKind::UnexpectedArgument, at: 2 });
    assert_eq!(error_of("merge extra"), ArgError { kind: ArgErrorKind::UnexpectedArgument, at: 1 });
    assert_eq!(error_of("null ! null"), ArgError { kind: ArgErrorKind::UnexpectedArgument, at: 1 });
    assert_eq!(error_of("relativize nonsense"), ArgError { kind: ArgErrorKind::InvalidValue, at: 1 });
    assert_eq!(error_of("relativize http://example.org/ -p 256"), ArgError { kind: ArgErrorKind::InvalidValue, at: 3 });
    assert_eq!(error_of("relativize http://example.org/ -p -1"), ArgError { kind: ArgErrorKind::InvalidValue, at: 3 });
    assert_eq!(error_of("serialize --format docx"), ArgError { kind: ArgErrorKind::InvalidValue, at: 2 });
    assert_eq!(error_of("serialize"), ArgError { kind: ArgErrorKind::MissingArgument, at: 1 });
    assert_eq!(error_of("serialize -f nt ! null"), ArgError { kind: ArgErrorKind::UnexpectedArgument, at: 3 });
    assert_eq!(error_of("canonicalize -f nope"), ArgError { kind: ArgErrorKind::InvalidValue, at: 2 });
    assert_eq!(error_of("canonicalize -H md5"), ArgError { kind: ArgErrorKind::InvalidValue, at: 2 });
    assert_eq!(error_of("serialize -f ttl -p nocolon"), ArgError { kind: ArgErrorKind::InvalidValue, at: 4 });
}

#[test]
fn pipe_command_parses_one_stage() {
    let command = PipeCommand::parse_from(&tokens("canonicalize -o out.nq -H sha384 -p 2.5")).unwrap();
    match command.subcommand {
        SinkSubcommand::Canonicalize(args) => {
            assert_eq!(args.output, Some("out.nq".to_string()));
            assert_eq!(args.function, quadpipe::canonicalize::c14n_function::C14nFunction::RDFC10);
            assert_eq!(args.hash_function, quadpipe::canonicalize::hash_function::HashFunctionId::Sha384);
            assert_eq!(args.poison_resistance, "2.5");
        }
        other => panic!("{:?}", other),
    }
    match PipeCommand::parse_from(&tokens("c")).unwrap().subcommand {
        SinkSubcommand::Canonicalize(args) => {
            assert_eq!(args.output, None);
            assert_eq!(args.poison_resistance, "1");
        }
        other => panic!("{:?}", other),
    }
    assert!(PipeCommand::parse_from(&tokens("c extra")).is_err());
}

#[test]
fn a_failure_says_what_is_wrong_and_quotes_the_token() {
    assert_eq!(kind_message(ArgErrorKind::MissingValue), "a value is required for option");
    assert_eq!(arg_message(ArgErrorKind::UnknownOption, "--x"), "unexpected option '--x'");
    assert_eq!(arg_message(ArgErrorKind::MissingArgument, ""), "a required argument was not provided");
}
