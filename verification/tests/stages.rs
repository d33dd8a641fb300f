use quadpipe::absolutize::BaseIri;
use quadpipe::filter;
use quadpipe::format::Format;
use quadpipe::prefix_map::{parse_prefix_map, PrefixMapError, PrefixMapErrorKind};
use quadpipe::quad_iter::{QuadIter, QuadIterError, QuadIterItem};
use quadpipe::query::{
    handle_bindings, handle_boolean, pretty_print, separator, BindingsPlan, BooleanOutcome, QuadExtractor, Shown,
    STATUS_FALSE,
};
use quadpipe::relativize::Relativizer;
use quadpipe::serialize::{
    extension, guess_format, plan_serializer, serialize_triples, Args, GuessError, SerializerArgs, SerializerKind,
    SerializerOptions,
};
use quadpipe::term::{Quad, Term};
use quadpipe::text::parse_small_number;
use quadpipe::verbosity::{level_value, Level, LevelFilter, Verbosity};

fn quad(s: &str, g: Option<&str>) -> Quad {
    Quad::new(Term::iri(s), Term::iri("http://example.org/p"), Term::iri("o"), g.map(Term::iri))
}

fn tokens(line: &str) -> Vec<String> {
    line.split_whitespace().map(|t| t.to_string()).collect()
}

#[test]
fn iris_are_made_relative_where_they_can_be() {
    let r = Relativizer::new("http://example.org/a/b/c".to_string(), 1);
    assert_eq!(r.relativize_iriref("http://example.org/a/b/d".to_string()), "d");
    assert_eq!(r.relativize_iriref("http://example.org/a/x".to_string()), "../x");
    // two steps up are one too many
    assert_eq!(r.relativize_iriref("http://example.org/x".to_string()), "http://example.org/x");
    assert_eq!(r.relativize_iriref("http://other.org/a/b/d".to_string()), "http://other.org/a/b/d");
    // what is relative already stays
    assert_eq!(r.relativize_iriref("../x".to_string()), "../x");
    assert_eq!(r.relativize_iriref("not an iri".to_string()), "not an iri");
    let none = Relativizer::new("http://example.org/a/b/c".to_string(), 0);
    assert_eq!(none.relativize_iriref("http://example.org/a/x".to_string()), "http://example.org/a/x");
}

#[test]
fn an_iri_that_cannot_be_cut_safely_stays_as_it_is() {
    // the character before the path of the base is not an ASCII character
    let r = Relativizer::new("http://\u{e9}".to_string(), 0);
    assert_eq!(r.relativize_iriref("http://\u{e9}/foo".to_string()), "http://\u{e9}/foo");
    // what would be cut off is no reference
    let r = Relativizer::new("http://ex/x".to_string(), 0);
    assert_eq!(r.relativize_iriref("http://ex/:b".to_string()), "http://ex/:b");
    assert_eq!(r.relativize_iriref("http://ex/a:b".to_string()), "http://ex/a:b");
    assert_eq!(r.relativize_iriref("http://ex//b".to_string()), "http://ex//b");
    assert_eq!(r.relativize_iriref("http://ex/b?c:d".to_string()), "b?c:d");
    // the authorities differ in length
    let r = Relativizer::new("http://ex".to_string(), 0);
    assert_eq!(r.relativize_iriref("http://ex1:80/".to_string()), "http://ex1:80/");
    assert_eq!(r.relativize_iriref("http://ex/foo".to_string()), "/foo");
    assert!(quadpipe::iri::may_relativize("http://ex:80/a/b", "http://ex:80/a/c"));
    assert!(!quadpipe::iri::may_relativize("no colon", "http://ex/a"));
    assert!(quadpipe::iri::may_relativize("urn:a", "urn:b"));
    assert!(!quadpipe::iri::may_relativize("urn:a", "urn:b:c"));
}

#[test]
fn relativizing_reaches_into_quoted_triples_and_graph_names() {
    let r = Relativizer::new("http://example.org/a/".to_string(), 0);
    let q = Quad::new(
        Term::triple(
            Term::iri("http://example.org/a/s"),
            Term::iri("http://example.org/p"),
            Term::typed_literal("http://example.org/a/l", "http://example.org/a/dt"),
        ),
        Term::iri("http://example.org/a/p"),
        Term::blank_node("http://example.org/a/b"),
        Some(Term::iri("http://example.org/a/g")),
    );
    let expected = Quad::new(
        Term::triple(
            Term::iri("s"),
            Term::iri("http://example.org/p"),
            Term::typed_literal("http://example.org/a/l", "http://example.org/a/dt"),
        ),
        Term::iri("p"),
        Term::blank_node("http://example.org/a/b"),
        Some(Term::iri("g")),
    );
    assert_eq!(r.relativize_quad(q.clone()), expected);
    let items: Vec<QuadIterItem> = vec![Ok(q), Err(QuadIterError::new("bad"))];
    assert_eq!(
        r.relativize_iter(QuadIter::new(items)).collect(),
        vec![Ok(expected), Err(QuadIterError::new("bad"))]
    );
}

#[test]
fn iris_are_resolved_against_the_base() {
    let base = BaseIri::new("http://example.org/a/b".to_string());
    assert_eq!(base.absolutize_term(Term::iri("c")), Some(Term::iri("http://example.org/a/c")));
    assert_eq!(base.absolutize_term(Term::iri("../c#f")), Some(Term::iri("http://example.org/c#f")));
    assert_eq!(base.absolutize_term(Term::iri("")), Some(Term::iri("http://example.org/a/b")));
    assert_eq!(base.absolutize_term(Term::iri("urn:x:y")), Some(Term::iri("urn:x:y")));
    assert_eq!(base.absolutize_term(Term::blank_node("c")), Some(Term::blank_node("c")));
    assert_eq!(base.absolutize_term(Term::typed_literal("c", "d")), Some(Term::typed_literal("c", "d")));
    assert_eq!(base.absolutize_term(Term::iri("a b")), None);
    assert_eq!(
        base.absolutize_term(Term::triple(Term::iri("s"), Term::iri("p"), Term::iri("o"))),
        Some(Term::triple(
            Term::iri("http://example.org/a/s"),
            Term::iri("http://example.org/a/p"),
            Term::iri("http://example.org/a/o")
        ))
    );
    assert_eq!(base.absolutize_term(Term::triple(Term::iri("s"), Term::iri("a b"), Term::iri("o"))), None);
    assert_eq!(BaseIri::new("no base".to_string()).absolutize_term(Term::iri("c")), None);
}

#[test]
fn a_quad_that_cannot_be_resolved_becomes_an_error() {
    let base = BaseIri::new("http://example.org/a/".to_string());
    let items: Vec<QuadIterItem> = vec![
        Ok(quad("s", Some("g"))),
        Ok(quad("a b", None)),
        Err(QuadIterError::new("bad")),
    ];
    let out = base.absolutize_iter(QuadIter::new(items)).collect();
    assert_eq!(
        out,
        vec![
            Ok(Quad::new(
                Term::iri("http://example.org/a/s"),
                Term::iri("http://example.org/p"),
                Term::iri("http://example.org/a/o"),
                Some(Term::iri("http://example.org/a/g"))
            )),
            Err(QuadIterError::new("Can not resolve IRI against base <http://example.org/a/>")),
            Err(QuadIterError::new("bad")),
        ]
    );
    assert_eq!(base.absolutize_quad(quad("s", Some("a b"))), None);
}

#[test]
fn a_prefix_map_is_a_list_of_pairs() {
    assert_eq!(
        parse_prefix_map("ex:http://example.org/,:http://default.org/#"),
        Ok(vec![
            ("ex".to_string(), "http://example.org/".to_string()),
            ("".to_string(), "http://default.org/#".to_string())
        ])
    );
    assert_eq!(parse_prefix_map(""), Err(PrefixMapError { kind: PrefixMapErrorKind::MissingColon, at: 0 }));
    assert_eq!(
        parse_prefix_map("ex:http://example.org/,"),
        Err(PrefixMapError { kind: PrefixMapErrorKind::MissingColon, at: 23 })
    );
    assert_eq!(
        parse_prefix_map("ex:http://example.org/,nocolon"),
        Err(PrefixMapError { kind: PrefixMapErrorKind::MissingColon, at: 23 })
    );
    assert_eq!(
        parse_prefix_map("1x:http://example.org/"),
        Err(PrefixMapError { kind: PrefixMapErrorKind::InvalidPrefix, at: 0 })
    );
    assert_eq!(
        parse_prefix_map("ex:http://example.org/,e2:relative"),
        Err(PrefixMapError { kind: PrefixMapErrorKind::InvalidIri, at: 23 })
    );
}

#[test]
fn the_format_to_write_is_given_or_told_by_the_file_name() {
    let main = |format, output: Option<&str>| SerializerArgs { format, output: output.map(|o| o.to_string()) };
    assert_eq!(guess_format(&main(Some(Format::TriG), None)), Ok(Format::TriG));
    assert_eq!(guess_format(&main(Some(Format::TriG), Some("a.ttl"))), Ok(Format::TriG));
    assert_eq!(guess_format(&main(None, Some("a.b.ttl"))), Ok(Format::Turtle));
    assert_eq!(guess_format(&main(None, Some("rdf"))), Ok(Format::RdfXml));
    assert_eq!(
        guess_format(&main(None, Some("a.docx"))),
        Err(GuessError { filename: Some("a.docx".to_string()) })
    );
    assert_eq!(guess_format(&main(None, None)), Err(GuessError { filename: None }));
    assert_eq!(
        GuessError { filename: None }.to_string(),
        "Can not guess format, please specify with --format"
    );
    assert_eq!(extension("a.b.c"), "c");
    assert_eq!(extension("abc"), "abc");
    assert_eq!(extension("abc."), "");
    assert_eq!(extension(""), "");
}

#[test]
fn each_format_has_its_serializer() {
    let p = plan_serializer(Format::JsonLd, false).unwrap();
    assert_eq!((p.kind, p.triples_only, p.indent, p.pretty, p.takes_prefixes), (SerializerKind::JsonLd, false, 2, true, false));
    let p = plan_serializer(Format::JsonLd, true).unwrap();
    assert_eq!((p.indent, p.pretty), (0, false));
    let p = plan_serializer(Format::RdfXml, false).unwrap();
    assert_eq!((p.kind, p.triples_only, p.indent), (SerializerKind::RdfXml, true, 4));
    let p = plan_serializer(Format::RdfXml, true).unwrap();
    assert_eq!(p.indent, 0);
    let p = plan_serializer(Format::NQuads, false).unwrap();
    assert_eq!((p.kind, p.triples_only), (SerializerKind::NQuads, false));
    let p = plan_serializer(Format::GeneralizedNQuads, false).unwrap();
    assert_eq!((p.kind, p.triples_only), (SerializerKind::NQuads, false));
    let p = plan_serializer(Format::NTriples, false).unwrap();
    assert_eq!((p.kind, p.triples_only, p.takes_prefixes), (SerializerKind::NTriples, true, false));
    let p = plan_serializer(Format::TriG, true).unwrap();
    assert_eq!((p.kind, p.triples_only, p.pretty, p.takes_prefixes), (SerializerKind::TriG, false, false, true));
    let p = plan_serializer(Format::Turtle, false).unwrap();
    assert_eq!((p.kind, p.triples_only, p.pretty, p.takes_prefixes), (SerializerKind::Turtle, true, true, true));
    let p = plan_serializer(Format::YamlLd, false).unwrap();
    assert_eq!((p.kind, p.triples_only), (SerializerKind::YamlLd, false));
    assert_eq!(plan_serializer(Format::GeneralizedTriG, false), None);
    assert_eq!(plan_serializer(Format::Hdt, false), None);
}

#[test]
fn a_serializer_for_triples_sees_the_default_graph_only() {
    let items: Vec<QuadIterItem> = vec![
        Ok(quad("a", None)),
        Ok(quad("b", Some("g"))),
        Err(QuadIterError::new("bad")),
        Ok(quad("c", Some("h"))),
        Ok(quad("d", None)),
    ];
    let (kept, warning) = serialize_triples(QuadIter::new(items));
    assert_eq!(kept.collect(), vec![Ok(quad("a", None)), Err(QuadIterError::new("bad")), Ok(quad("d", None))]);
    assert_eq!(warning, Some("Named graphs are ignored when serializing to triples-only format.".to_string()));
    let (kept, warning) = serialize_triples(QuadIter::new(vec![Ok(quad("a", None))]));
    assert_eq!(kept.count(), 1);
    assert_eq!(warning, None);
}

#[test]
fn serialize_needs_a_format_or_a_file() {
    let a = Args::from_tokens(&tokens("s -f ttl -P -p ex:http://example.org/"), 1).unwrap();
    assert_eq!(a.main, SerializerArgs { format: Some(Format::Turtle), output: None });
    assert_eq!(
        a.options,
        SerializerOptions {
            prefixes: Some(vec![("ex".to_string(), "http://example.org/".to_string())]),
            no_pretty: true
        }
    );
    assert_eq!(a.options.clone(), a.options);
    assert_eq!(a.pipeline, None);
    let a = Args::from_tokens(&tokens("s --output=out.ttl"), 1).unwrap();
    assert_eq!(a.main, SerializerArgs { format: None, output: Some("out.ttl".to_string()) });
    assert!(Args::from_tokens(&tokens("s -P"), 1).is_err());
}

#[test]
fn rows_with_s_p_o_and_g_are_quads() {
    let x = QuadExtractor::try_new(&vec!["o", "g", "s", "p"]).unwrap();
    assert_eq!(x, QuadExtractor { is: 2, ip: 3, io: 0, ig: Some(1) });
    let row = vec![Some(Term::iri("o")), Some(Term::iri("g")), Some(Term::iri("s")), Some(Term::iri("p"))];
    assert_eq!(
        x.extract(row),
        Some(Quad::new(Term::iri("s"), Term::iri("p"), Term::iri("o"), Some(Term::iri("g"))))
    );
    let row = vec![Some(Term::iri("o")), None, Some(Term::iri("s")), Some(Term::iri("p"))];
    assert_eq!(x.extract(row), Some(Quad::new(Term::iri("s"), Term::iri("p"), Term::iri("o"), None)));
    let row = vec![None, Some(Term::iri("g")), Some(Term::iri("s")), Some(Term::iri("p"))];
    assert_eq!(x.extract(row), None);
    assert_eq!(x.extract(vec![Some(Term::iri("o"))]), None);
    let three = QuadExtractor::try_new(&vec!["s", "p", "o"]).unwrap();
    assert_eq!(three, QuadExtractor { is: 0, ip: 1, io: 2, ig: None });
    assert_eq!(QuadExtractor::try_new(&vec!["s", "p"]), None);
    assert_eq!(QuadExtractor::try_new(&vec!["s", "p", "o", "g", "s"]), None);
    assert_eq!(QuadExtractor::try_new(&vec!["s", "p", "x"]), None);
    assert_eq!(QuadExtractor::try_new(&vec!["s", "p", "g"]), None);
    assert_eq!(QuadExtractor::try_new(&vec!["s", "p", "p", "o"]), Some(QuadExtractor { is: 0, ip: 2, io: 3, ig: None }));
    assert_eq!(QuadExtractor::try_new(&vec![]), None);
}

#[test]
fn a_boolean_answer_ends_the_stage() {
    assert_eq!(handle_boolean(true, true, true), BooleanOutcome::CannotPipe);
    assert_eq!(handle_boolean(false, true, false), BooleanOutcome::CannotPipe);
    assert_eq!(handle_boolean(true, false, true), BooleanOutcome::Exit(0));
    assert_eq!(handle_boolean(false, false, true), BooleanOutcome::Exit(128));
    assert_eq!(STATUS_FALSE, 128);
    assert_eq!(handle_boolean(true, false, false), BooleanOutcome::Print(true));
    assert_eq!(handle_boolean(false, false, false), BooleanOutcome::Print(false));
}

#[test]
fn bindings_are_piped_or_printed() {
    assert_eq!(
        handle_bindings(&vec!["s", "p", "o"], true, false),
        BindingsPlan::Pipe(QuadExtractor { is: 0, ip: 1, io: 2, ig: None })
    );
    assert_eq!(handle_bindings(&vec!["a", "b", "c"], true, false), BindingsPlan::CannotPipe);
    assert_eq!(handle_bindings(&vec!["a", "b", "c"], false, false), BindingsPlan::Print(Some("?a\t?b\t?c\n".to_string())));
    assert_eq!(handle_bindings(&vec!["a"], false, false), BindingsPlan::Print(Some("?a\n".to_string())));
    assert_eq!(handle_bindings(&vec!["a", "b"], false, true), BindingsPlan::Print(None));
    assert_eq!(separator(0, 3), "\t");
    assert_eq!(separator(2, 3), "\n");
    assert_eq!(separator(0, 1), "\n");
    assert_eq!(separator(0, 0), "\t");
}

#[test]
fn simple_literals_are_shown_by_their_lexical_form() {
    let xsd = |name: &str| format!("http://www.w3.org/2001/XMLSchema#{}", name);
    assert_eq!(pretty_print(&Term::typed_literal("hi", &xsd("string"))), Shown::Quoted("hi".to_string()));
    for name in ["boolean", "decimal", "double", "integer"] {
        assert_eq!(pretty_print(&Term::typed_literal("1", &xsd(name))), Shown::Plain("1".to_string()));
    }
    assert_eq!(pretty_print(&Term::typed_literal("1", &xsd("float"))), Shown::Full);
    assert_eq!(pretty_print(&Term::language_string("hi", "en")), Shown::Full);
    assert_eq!(pretty_print(&Term::iri("http://example.org/")), Shown::Full);
}

#[test]
fn the_queries_for_the_engine_are_built_from_the_expressions() {
    assert_eq!(
        filter::make_query("isIRI(?o)"),
        "ASK { { ?s ?p ?o } UNION { GRAPH ?g { ?s ?p ?o } } FILTER (isIRI(?o)) }"
    );
    let mut args = quadpipe::map::Args::new(None);
    assert_eq!(
        quadpipe::map::make_query(&args),
        "SELECT ((?s) as ?s_new) ((?p) as ?p_new) ((?o) as ?o_new) ((?g) as ?g_new) WHERE { { ?s ?p ?o } UNION { GRAPH ?g { ?s ?p ?o } } }"
    );
    args.object = "STR(?o)".to_string();
    assert!(quadpipe::map::make_query(&args).contains("((STR(?o)) as ?o_new)"));
}

#[test]
fn small_numbers_are_read_in_decimal() {
    assert_eq!(parse_small_number("0"), Some(0));
    assert_eq!(parse_small_number("7"), Some(7));
    assert_eq!(parse_small_number("255"), Some(255));
    assert_eq!(parse_small_number("000255"), Some(255));
    assert_eq!(parse_small_number("256"), None);
    assert_eq!(parse_small_number("99999999999999999999999999"), None);
    assert_eq!(parse_small_number(""), None);
    assert_eq!(parse_small_number("-1"), None);
    assert_eq!(parse_small_number("1a"), None);
    assert_eq!(parse_small_number(" 1"), None);
}

#[test]
fn verbosity_counts_up_and_down_from_the_default() {
    let v = |verbose, quiet, default_level| Verbosity { verbose, quiet, default_level };
    assert_eq!(v(0, 0, Some(Level::Info)).log_level_filter(), LevelFilter::Info);
    assert_eq!(v(1, 0, Some(Level::Info)).log_level_filter(), LevelFilter::Debug);
    assert_eq!(v(2, 0, Some(Level::Info)).log_level_filter(), LevelFilter::Trace);
    assert_eq!(v(200, 0, Some(Level::Info)).log_level_filter(), LevelFilter::Trace);
    assert_eq!(v(0, 1, Some(Level::Info)).log_level_filter(), LevelFilter::Warn);
    assert_eq!(v(0, 2, Some(Level::Info)).log_level_filter(), LevelFilter::Error);
    assert_eq!(v(0, 3, Some(Level::Info)).log_level_filter(), LevelFilter::Off);
    assert_eq!(v(0, 255, Some(Level::Info)).log_level_filter(), LevelFilter::Off);
    assert_eq!(v(0, 0, None).log_level_filter(), LevelFilter::Off);
    assert_eq!(v(1, 0, None).log_level_filter(), LevelFilter::Error);
    assert_eq!(v(0, 0, Some(Level::Error)).log_level_filter(), LevelFilter::Error);
    assert_eq!(v(3, 2, Some(Level::Error)).verbosity(), 1);
    assert_eq!(v(0, 255, Some(Level::Error)).verbosity(), -255);
    assert_eq!(level_value(None), -1);
    assert_eq!(level_value(Some(Level::Error)), 0);
    assert_eq!(level_value(Some(Level::Warn)), 1);
    assert_eq!(level_value(Some(Level::Info)), 2);
    assert_eq!(level_value(Some(Level::Debug)), 3);
    assert_eq!(level_value(Some(Level::Trace)), 4);
    assert!(v(0, 0, Some(Level::Info)).shows(Level::Warn));
    assert!(v(0, 0, Some(Level::Info)).shows(Level::Info));
    assert!(!v(0, 0, Some(Level::Info)).shows(Level::Debug));
}

#[test]
fn filtering_keeps_errors_and_matching_quads() {
    let items: Vec<QuadIterItem> = vec![
        Ok(quad("a", None)),
        Err(QuadIterError::new("bad")),
        Ok(quad("b", None)),
        Ok(quad("c", None)),
        Ok(quad("d", None)),
    ];
    let verdicts = vec![Some(true), Some(false), Some(false), None];
    let kept = filter::retain(QuadIter::new(items), &verdicts).collect();
    assert_eq!(kept, vec![Ok(quad("a", None)), Err(QuadIterError::new("bad"))]);
    let kept = filter::retain(QuadIter::new(vec![Ok(quad("a", None))]), &vec![Some(true), Some(true)]).collect();
    assert_eq!(kept, vec![Ok(quad("a", None))]);
    assert_eq!(filter::retain(QuadIter::empty(), &vec![]).count(), 0);
}

#[test]
fn a_row_of_four_values_is_a_mapped_quad() {
    let t = |x: &str| Some(Term::iri(x));
    assert_eq!(
        quadpipe::map::quad_of_row(vec![t("s"), t("p"), t("o"), t("g")]),
        Some(Quad::new(Term::iri("s"), Term::iri("p"), Term::iri("o"), Some(Term::iri("g"))))
    );
    assert_eq!(
        quadpipe::map::quad_of_row(vec![t("s"), t("p"), t("o"), None]),
        Some(Quad::new(Term::iri("s"), Term::iri("p"), Term::iri("o"), None))
    );
    assert_eq!(quadpipe::map::quad_of_row(vec![t("s"), None, t("o"), t("g")]), None);
    assert_eq!(quadpipe::map::quad_of_row(vec![t("s"), t("p"), t("o")]), None);
    assert_eq!(
        quadpipe::map::quad_of_row(vec![t("x"), t("s"), t("p"), t("o"), t("g")]),
        Some(Quad::new(Term::iri("s"), Term::iri("p"), Term::iri("o"), Some(Term::iri("g"))))
    );
}
