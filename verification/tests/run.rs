use quadpipe::bnode::bnode_suffix;
use quadpipe::cli::ArgErrorKind;
use quadpipe::file_or_url::FileOrUrl;
use quadpipe::files_or_url::FilesOrUrl;
use quadpipe::parse::{run, Args, ParserOptions, PreflightError, RunError, Source};
use quadpipe::pipe::PipeSubcommand;
use quadpipe::quad_handler::End;
use quadpipe::quad_iter::{QuadIter, QuadIterError};
use quadpipe::term::{Quad, Term};
use quadpipe::verbosity::{Level, Log};

fn b(id: &str, g: Option<&str>) -> Quad {
    Quad::new(Term::blank_node(id), Term::iri("http://example.org/p"), Term::iri("http://example.org/o"), g.map(Term::iri))
}

fn pipe(line: &str) -> Option<PipeSubcommand> {
    Some(PipeSubcommand::new(line.split_whitespace().map(|t| t.to_string()).collect()))
}

fn many(pipeline: Option<PipeSubcommand>) -> Args {
    Args {
        file_or_url: None,
        multiple: vec![FilesOrUrl::Glob("*.nt".to_string())],
        format: None,
        base: None,
        relativize: false,
        options: ParserOptions { loader_local: None, loader_urls: false },
        pipeline,
    }
}

fn single(pipeline: Option<PipeSubcommand>) -> Args {
    Args {
        file_or_url: Some(FileOrUrl::File("a.nt".to_string())),
        multiple: vec![],
        format: None,
        base: None,
        relativize: false,
        options: ParserOptions { loader_local: None, loader_urls: false },
        pipeline,
    }
}

#[test]
fn a_run_over_many_sources_succeeds_though_one_source_fails() {
    let sources = vec![
        Source { name: "good.nt".to_string(), base: "http://example.org/".to_string(), outcome: Ok(QuadIter::from_quads(vec![b("x", None), b("y", Some("http://example.org/g"))])) },
        Source { name: "gone.nt".to_string(), base: "http://example.org/".to_string(), outcome: Err("No such file or directory".to_string()) },
    ];
    let ran = run(many(pipe("merge --drop")), sources, 5).unwrap();
    assert_eq!(ran.logs, vec![Log { level: Level::Error, message: "gone.nt: No such file or directory".to_string() }]);
    assert!(ran.logs[0].message.contains("gone.nt"));
    let s = bnode_suffix(5, 0);
    match ran.handled.end {
        End::Printed { lines, result } => {
            assert_eq!(result, Ok(()));
            assert_eq!(
                lines,
                vec![
                    format!("_:x{}\t<http://example.org/p>\t<http://example.org/o>\n", s),
                    format!("_:y{}\t<http://example.org/p>\t<http://example.org/o>\n", s),
                ]
            );
        }
        other => panic!("{:?}", other),
    }
}

#[test]
fn a_run_over_one_source_stops_where_the_source_cannot_be_had() {
    let sources = vec![Source { name: "a.nt".to_string(), base: "http://example.org/".to_string(), outcome: Err("Permission denied".to_string()) }];
    assert_eq!(run(single(None), sources, 5).unwrap_err(), RunError::Source("a.nt: Permission denied".to_string()));
    assert_eq!(run(single(None), vec![], 5).unwrap_err(), RunError::SourceCount);
    let sources = vec![Source { name: "a.nt".to_string(), base: "http://example.org/".to_string(),
        outcome: Ok(QuadIter::new(vec![Ok(b("x", None)), Err(QuadIterError::new("line 2")), Ok(b("y", None))])),
    }];
    let ran = run(single(None), sources, 5).unwrap();
    assert!(ran.logs.is_empty());
    match ran.handled.end {
        End::Printed { lines, result } => {
            // one source: no suffix, and the error of the stream is the result
            assert_eq!(lines, vec!["_:x\t<http://example.org/p>\t<http://example.org/o>\n"]);
            assert_eq!(result, Err(QuadIterError::new("line 2")));
        }
        other => panic!("{:?}", other),
    }
}

#[test]
fn a_single_source_can_have_its_iris_made_relative() {
    let mut args = single(None);
    args.relativize = true;
    let sources = vec![Source {
        name: "a.nt".to_string(),
        base: "http://example.org/dir/a.nt".to_string(),
        outcome: Ok(QuadIter::from_quads(vec![Quad::new(
            Term::iri("http://example.org/dir/b"),
            Term::iri("http://example.org/p"),
            Term::iri("http://other.org/o"),
            None,
        )])),
    }];
    match run(args, sources, 5).unwrap().handled.end {
        End::Printed { lines, .. } => {
            assert_eq!(lines, vec!["<b>\t<http://example.org/p>\t<http://other.org/o>\n"]);
        }
        other => panic!("{:?}", other),
    }
    let mut args = many(None);
    args.relativize = true;
    assert_eq!(run(args, vec![], 1).unwrap_err(), RunError::Preflight(PreflightError::RelativizeWithMultiple));
    assert_eq!(
        PreflightError::RelativizeWithMultiple.to_string(),
        "--relativize cannot be used with --multiple"
    );
}

#[test]
fn a_run_is_refused_before_anything_is_read() {
    let mut args = many(None);
    args.base = Some("http://example.org/".to_string());
    assert_eq!(run(args, vec![], 1).unwrap_err(), RunError::Preflight(PreflightError::BaseWithMultiple));
    let mut args = many(None);
    args.file_or_url = Some(FileOrUrl::StdIn);
    assert_eq!(run(args, vec![], 1).unwrap_err(), RunError::Preflight(PreflightError::SingleAndMultiple));
    match run(many(pipe("mrege")), vec![], 1).unwrap_err() {
        RunError::Pipe(e) => {
            assert_eq!(e.kind, ArgErrorKind::UnknownStage);
            assert!(e.to_string().contains("piped sub-command"));
        }
        other => panic!("{:?}", other),
    }
}

#[test]
fn the_stages_run_by_their_own_functions_too() {
    let args = quadpipe::merge::Args { drop: false, pipeline: None };
    let input = QuadIter::from_quads(vec![b("x", Some("http://example.org/g"))]);
    match quadpipe::merge::run(input, args).end {
        End::Printed { lines, .. } => assert_eq!(lines.len(), 2),
        other => panic!("{:?}", other),
    }
    let args = quadpipe::relativize::Args { base: "http://example.org/".to_string(), parents: 0, pipeline: None };
    match quadpipe::relativize::run(QuadIter::from_quads(vec![b("x", None)]), args).end {
        End::Printed { lines, .. } => assert_eq!(lines, vec!["_:x\t<p>\t<o>\n"]),
        other => panic!("{:?}", other),
    }
    let args = quadpipe::absolutize::Args { base: "http://example.org/a/".to_string(), pipeline: pipe("null") };
    let input = QuadIter::from_quads(vec![Quad::new(Term::iri("s"), Term::iri("p"), Term::iri("o"), None)]);
    match quadpipe::absolutize::run(input, args).end {
        End::Consumed(result) => assert_eq!(result, Ok(())),
        other => panic!("{:?}", other),
    }
}
