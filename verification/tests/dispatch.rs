use quadpipe::dispatch::{
    dispatch_error_message, ensure_dirs, open_mode, plan, sanitize_root, try_extract_path, Args, OpenMode,
};
use quadpipe::index::unique;
use quadpipe::format::Format;
use quadpipe::quad_handler::{End, Failure, Job};
use quadpipe::quad_iter::{QuadIter, QuadIterError, QuadIterItem};
use quadpipe::serialize::SerializerOptions;
use quadpipe::stage::parse_stage;
use quadpipe::term::{Quad, Term};

const R: &str = "https://example.org/foo/";

fn quad(s: &str, g: Option<Term>) -> Quad {
    Quad::new(Term::iri(s), Term::iri("https://example.org/p"), Term::iri("https://example.org/foo/x/o"), g)
}

fn g(name: &str) -> Option<Term> {
    Some(Term::iri(name))
}

fn plan_of(input: Vec<Quad>, args: &Args) -> quadpipe::dispatch::DispatchPlan {
    plan(unique(input).unwrap(), args)
}

fn args(root: &str, format: Option<Format>, relativize: bool) -> Args {
    Args {
        root: root.to_string(),
        destination: ".".to_string(),
        overwrite: false,
        format,
        relativize,
        options: SerializerOptions { prefixes: None, no_pretty: false },
        pipeline: None,
    }
}

#[test]
fn graphs_below_the_root_go_to_files_and_the_rest_is_forwarded() {
    let input = vec![
        quad("https://example.org/s1", g("https://example.org/foo/g1")),
        quad("https://example.org/s2", g("https://example.org/foo/sub/g2")),
        quad("https://example.org/s3", g("https://example.org/other/g3")),
        quad("https://example.org/s4", None),
        quad("https://example.org/s5", g("https://example.org/foo/g1")),
        quad("https://example.org/s6", Some(Term::blank_node("g"))),
    ];
    let p = plan_of(input, &args(R, None, false));
    assert_eq!(p.jobs.len(), 2);
    assert_eq!(p.jobs[0].graph, "https://example.org/foo/g1");
    assert_eq!(p.jobs[0].path, "g1");
    assert_eq!(p.jobs[0].format, Format::NTriples);
    assert_eq!(p.jobs[0].quads, vec![quad("https://example.org/s1", None), quad("https://example.org/s5", None)]);
    assert_eq!(p.jobs[1].graph, "https://example.org/foo/sub/g2");
    assert_eq!(p.jobs[1].path, "sub/g2");
    assert_eq!(p.jobs[1].quads, vec![quad("https://example.org/s2", None)]);
    assert_eq!(
        p.forwarded,
        vec![
            // the collection hands out the default graph last
            quad("https://example.org/s3", g("https://example.org/other/g3")),
            quad("https://example.org/s6", Some(Term::blank_node("g"))),
            quad("https://example.org/s4", None),
        ]
    );
    // whatever the order: nothing is lost, and nothing goes both ways
    assert_eq!(p.jobs.iter().map(|j| j.quads.len()).sum::<usize>() + p.forwarded.len(), 6);
    for job in &p.jobs {
        for q in &job.quads {
            assert!(!p.forwarded.contains(q));
            assert_eq!(q.g, None);
        }
    }
}

#[test]
fn the_input_counts_as_a_set() {
    let input = vec![
        quad("https://example.org/s1", g("https://example.org/foo/g1")),
        quad("https://example.org/s1", g("https://example.org/foo/g1")),
        quad("https://example.org/s2", None),
        quad("https://example.org/s2", None),
    ];
    assert_eq!(
        unique(input.clone()).unwrap(),
        vec![quad("https://example.org/s1", g("https://example.org/foo/g1")), quad("https://example.org/s2", None)]
    );
    let p = plan_of(input, &args(R, None, false));
    assert_eq!(p.jobs.len(), 1);
    assert_eq!(p.jobs[0].quads.len(), 1);
    assert_eq!(p.forwarded.len(), 1);
    let nothing = plan_of(vec![], &args(R, None, false));
    assert!(nothing.jobs.is_empty());
    assert!(nothing.forwarded.is_empty());
}

#[test]
fn the_format_of_a_file_is_told_by_its_name_first() {
    let input = vec![
        quad("https://example.org/s1", g("https://example.org/foo/a.ttl")),
        quad("https://example.org/s2", g("https://example.org/foo/b.data")),
        quad("https://example.org/s3", g("https://example.org/foo/c")),
    ];
    let p = plan_of(input.clone(), &args(R, Some(Format::TriG), false));
    assert_eq!(p.jobs[0].format, Format::Turtle);
    assert_eq!(p.jobs[1].format, Format::TriG);
    assert_eq!(p.jobs[2].format, Format::TriG);
    let p = plan_of(input, &args(R, None, false));
    assert_eq!(p.jobs[0].format, Format::Turtle);
    assert_eq!(p.jobs[1].format, Format::NTriples);
    assert_eq!(p.jobs[2].format, Format::NTriples);
}

#[test]
fn iris_in_a_file_can_be_relative_to_the_name_of_its_graph() {
    let input = vec![
        Quad::new(
            Term::iri("https://example.org/foo/x/g1"),
            Term::iri("https://example.org/foo/x/p"),
            Term::iri("https://example.org/foo/o"),
            g("https://example.org/foo/x/g1"),
        ),
        Quad::new(
            Term::iri("https://example.org/foo/s"),
            Term::iri("https://another.org/p"),
            Term::typed_literal("https://example.org/foo/o", "https://example.org/foo/dt"),
            g("https://example.org/foo/g2"),
        ),
    ];
    let p = plan_of(input, &args(R, None, true));
    // one slash in the path: one step up is allowed
    assert_eq!(p.jobs[0].path, "x/g1");
    assert_eq!(
        p.jobs[0].quads,
        vec![Quad::new(Term::iri(""), Term::iri("p"), Term::iri("../o"), None)]
    );
    // no slash in the path: no step up
    assert_eq!(p.jobs[1].path, "g2");
    assert_eq!(
        p.jobs[1].quads,
        vec![Quad::new(
            Term::iri("s"),
            Term::iri("https://another.org/p"),
            Term::typed_literal("https://example.org/foo/o", "https://example.org/foo/dt"),
            None
        )]
    );
}

#[test]
fn the_path_is_what_follows_the_root() {
    assert_eq!(try_extract_path(&Term::iri("https://example.org/foo/g1.ttl"), R), Some("g1.ttl".to_string()));
    assert_eq!(try_extract_path(&Term::iri("https://example.org/foo/bar/g2.ttl"), R), Some("bar/g2.ttl".to_string()));
    assert_eq!(try_extract_path(&Term::iri("https://example.org/baz/g3.ttl"), R), None);
    assert_eq!(try_extract_path(&Term::iri("https://another.domain/foo/g4.ttl"), R), None);
    assert_eq!(try_extract_path(&Term::iri("https://example.org/foo/"), R), Some("".to_string()));
    assert_eq!(try_extract_path(&Term::iri("https://example.org/foo"), R), None);
    assert_eq!(try_extract_path(&Term::blank_node("https://example.org/foo/g"), R), None);
    assert_eq!(try_extract_path(&Term::typed_literal("https://example.org/foo/g", "d"), R), None);
    assert_eq!(try_extract_path(&Term::iri("https://example.org/foo/é/ü"), "https://example.org/foo/é/"), Some("ü".to_string()));
}

#[test]
fn the_root_ends_with_a_slash() {
    assert_eq!(sanitize_root("https://example.org/foo".to_string()), "https://example.org/foo/");
    assert_eq!(sanitize_root("https://example.org/foo/".to_string()), "https://example.org/foo/");
    match parse_stage(&vec!["dispatch".to_string(), "https://example.org/foo".to_string()]).unwrap() {
        quadpipe::stage::SinkSubcommand::Dispatch(a) => {
            assert_eq!(a.root, "https://example.org/foo/");
            assert_eq!(a.destination, ".");
            assert!(!a.overwrite);
            assert!(!a.relativize);
            assert_eq!(a.format, None);
        }
        other => panic!("{:?}", other),
    }
}

#[test]
fn directories_are_made_parents_first() {
    assert_eq!(ensure_dirs("a/b/c.ttl"), vec!["a", "a/b"]);
    assert_eq!(ensure_dirs("c.ttl"), Vec::<String>::new());
    assert_eq!(ensure_dirs("/abs/c"), vec!["/abs"]);
    assert_eq!(ensure_dirs("a/"), vec!["a"]);
    assert_eq!(ensure_dirs(""), Vec::<String>::new());
}

#[test]
fn an_existing_file_is_overwritten_only_on_demand() {
    assert_eq!(open_mode(false, false), OpenMode::CreateNew);
    assert_eq!(open_mode(false, true), OpenMode::CreateNew);
    assert_eq!(open_mode(true, false), OpenMode::Write);
    assert_eq!(open_mode(true, true), OpenMode::Overwrite);
    assert_eq!(
        dispatch_error_message("out", "sub/g2", "File exists"),
        "Can not dispatch to out/sub/g2: File exists"
    );
}

#[test]
fn the_stage_plans_files_and_passes_the_rest_on() {
    let line = ["dispatch", R, "-d", "out", "--overwrite", "-P", "!", "merge", "-d"];
    let stage = parse_stage(&line.iter().map(|t| t.to_string()).collect()).unwrap();
    let input: Vec<QuadIterItem> = vec![
        Ok(quad("https://example.org/s1", g("https://example.org/foo/g1.nq"))),
        Ok(quad("https://example.org/s3", g("https://example.org/other/g3"))),
        Ok(quad("https://example.org/s4", None)),
    ];
    let handled = stage.handle_quads(QuadIter::new(input));
    assert_eq!(handled.jobs.len(), 1);
    match &handled.jobs[0] {
        Job::Dispatch { destination, overwrite, options, file } => {
            assert_eq!(destination, "out");
            assert!(*overwrite);
            assert!(options.no_pretty);
            assert_eq!(file.path, "g1.nq");
            assert_eq!(file.format, Format::NQuads);
            assert_eq!(file.quads, vec![quad("https://example.org/s1", None)]);
        }
        other => panic!("{:?}", other),
    }
    match handled.end {
        End::Printed { lines, result } => {
            assert_eq!(result, Ok(()));
            assert_eq!(
                lines,
                vec![
                    "<https://example.org/s3>\t<https://example.org/p>\t<https://example.org/foo/x/o>\n",
                    "<https://example.org/s4>\t<https://example.org/p>\t<https://example.org/foo/x/o>\n",
                ]
            );
        }
        other => panic!("{:?}", other),
    }
}

#[test]
fn an_error_in_the_input_stops_the_dispatch_before_it_writes() {
    let stage = parse_stage(&vec!["dispatch".to_string(), R.to_string()]).unwrap();
    let input: Vec<QuadIterItem> = vec![
        Ok(quad("https://example.org/s1", g("https://example.org/foo/g1.nq"))),
        Err(QuadIterError::new("bad")),
    ];
    let handled = stage.handle_quads(QuadIter::new(input));
    assert!(handled.jobs.is_empty());
    match handled.end {
        End::Failed(Failure::Input(e)) => assert_eq!(e, QuadIterError::new("bad")),
        other => panic!("{:?}", other),
    }
}

#[test]
fn the_collection_holds_each_quad_once_whatever_its_terms() {
    let nested = Quad::new(
        Term::triple(Term::blank_node("b"), Term::iri("p"), Term::language_string("chat", "fr")),
        Term::iri("p"),
        Term::typed_literal("1", "http://www.w3.org/2001/XMLSchema#integer"),
        Some(Term::variable("g")),
    );
    let other = Quad::new(
        Term::triple(Term::blank_node("b"), Term::iri("p"), Term::language_string("chat", "FR")),
        Term::iri("p"),
        Term::typed_literal("1", "http://www.w3.org/2001/XMLSchema#integer"),
        Some(Term::variable("g")),
    );
    let input = vec![nested.clone(), other.clone(), nested.clone(), quad("https://example.org/s", None)];
    let all = unique(input).unwrap();
    assert_eq!(all.len(), 3);
    assert!(all.contains(&nested));
    assert!(all.contains(&other));
    assert!(all.contains(&quad("https://example.org/s", None)));
    assert_eq!(unique(vec![]), Some(vec![]));
}
