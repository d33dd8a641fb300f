use quadpipe::bnode::bnode_suffix;
use quadpipe::file_or_url::{is_http_url, FileOrUrl, SourceErrorKind};
use quadpipe::files_or_url::{EntryErrorKind, FilesOrUrl, PathOrUrl};
use quadpipe::format::Format;
use quadpipe::parse::{
    accept, ingest, make_fs_loader, media_type, parse_read, preflight, source_base, source_format, Args,
    FormatGuessError, FormatHint, Loaders, ParserKind, ParserOptions, PreflightError, Source,
};
use quadpipe::quad_handler::{End, QuadHandler};
use quadpipe::quad_iter::{QuadIter, QuadIterError};
use quadpipe::term::{Quad, Term};
use quadpipe::verbosity::{Level, Log};

fn b(id: &str) -> Quad {
    Quad::new(Term::blank_node(id), Term::iri("http://example.org/p"), Term::blank_node("o"), None)
}

fn suffixed(id: &str, suffix: &str) -> Quad {
    Quad::new(
        Term::blank_node(&format!("{}{}", id, suffix)),
        Term::iri("http://example.org/p"),
        Term::blank_node(&format!("o{}", suffix)),
        None,
    )
}

fn args() -> Args {
    Args {
        file_or_url: None,
        multiple: vec![],
        format: None,
        base: None,
        relativize: false,
        options: ParserOptions { loader_local: None, loader_urls: false },
        pipeline: None,
    }
}

#[test]
fn one_failing_source_does_not_stop_the_other() {
    let sources = vec![
        Source { name: "missing.ttl".to_string(), base: "http://example.org/".to_string(), outcome: Err("No such file or directory".to_string()) },
        Source { name: "good.ttl".to_string(), base: "http://example.org/".to_string(), outcome: Ok(QuadIter::from_quads(vec![b("x"), b("y")])) },
    ];
    let ingested = ingest(sources, 42);
    let s1 = bnode_suffix(42, 1);
    assert_eq!(ingested.channel, vec![suffixed("x", &s1), suffixed("y", &s1)]);
    assert_eq!(
        ingested.logs,
        vec![Log { level: Level::Error, message: "missing.ttl: No such file or directory".to_string() }]
    );
    assert!(ingested.logs[0].message.contains("missing.ttl"));
    // the collector hands what arrived to the final sink, which succeeds
    match QuadHandler::Stdout.handle_quads(QuadIter::from_quads(ingested.channel)).end {
        End::Printed { lines, result } => {
            assert_eq!(result, Ok(()));
            assert_eq!(lines.len(), 2);
        }
        other => panic!("{:?}", other),
    }
}

#[test]
fn a_source_with_a_broken_stream_is_cut_at_its_first_error() {
    let sources = vec![
        Source { name: "a.nt".to_string(), base: "http://example.org/".to_string(),
            outcome: Ok(QuadIter::new(vec![Ok(b("x")), Err(QuadIterError::new("line 2")), Ok(b("z"))])),
        },
        Source { name: "b.nt".to_string(), base: "http://example.org/".to_string(), outcome: Ok(QuadIter::from_quads(vec![b("x")])) },
    ];
    let ingested = ingest(sources, 1);
    assert_eq!(ingested.channel, vec![suffixed("x", &bnode_suffix(1, 0)), suffixed("x", &bnode_suffix(1, 1))]);
    assert_ne!(ingested.channel[0], ingested.channel[1]);
    assert_eq!(ingested.logs, vec![Log { level: Level::Warn, message: "a.nt: line 2".to_string() }]);
    let nothing = ingest(vec![], 1);
    assert!(nothing.channel.is_empty());
    assert!(nothing.logs.is_empty());
}

#[test]
fn many_sources_take_no_single_source_and_no_base() {
    assert_eq!(preflight(&args()), Ok(()));
    let mut single = args();
    single.file_or_url = Some(FileOrUrl::StdIn);
    single.base = Some("http://example.org/".to_string());
    assert_eq!(preflight(&single), Ok(()));
    let mut many = args();
    many.multiple = vec![FilesOrUrl::File("a.ttl".to_string()), FilesOrUrl::Glob("*.nt".to_string())];
    assert_eq!(preflight(&many), Ok(()));
    many.base = Some("http://example.org/".to_string());
    assert_eq!(preflight(&many), Err(PreflightError::BaseWithMultiple));
    assert_eq!(PreflightError::BaseWithMultiple.to_string(), "--base cannot be used with --multiple");
    many.file_or_url = Some(FileOrUrl::File("b.ttl".to_string()));
    assert_eq!(preflight(&many), Err(PreflightError::SingleAndMultiple));
    assert_eq!(
        PreflightError::SingleAndMultiple.to_string(),
        "A single source cannot be used with --multiple"
    );
}

#[test]
fn the_format_is_given_or_guessed() {
    assert_eq!(source_format(Some(Format::TriG), &FormatHint::StdIn), Ok(Format::TriG));
    assert_eq!(source_format(Some(Format::TriG), &FormatHint::File("a.ttl".to_string())), Ok(Format::TriG));
    assert_eq!(source_format(None, &FormatHint::StdIn), Err(FormatGuessError::StdIn));
    assert_eq!(source_format(None, &FormatHint::File("dir.d/a.ttl".to_string())), Ok(Format::Turtle));
    assert_eq!(source_format(None, &FormatHint::File("nq".to_string())), Ok(Format::NQuads));
    assert_eq!(
        source_format(None, &FormatHint::File("a.docx".to_string())),
        Err(FormatGuessError::Unrecognized("docx".to_string()))
    );
    assert_eq!(
        source_format(None, &FormatHint::ContentType(Some("text/turtle; charset=utf-8".to_string()))),
        Ok(Format::Turtle)
    );
    assert_eq!(
        source_format(None, &FormatHint::ContentType(Some("application/ld+json".to_string()))),
        Ok(Format::JsonLd)
    );
    assert_eq!(
        source_format(None, &FormatHint::ContentType(Some("image/png".to_string()))),
        Err(FormatGuessError::Unrecognized("image/png".to_string()))
    );
    assert_eq!(source_format(None, &FormatHint::ContentType(None)), Err(FormatGuessError::Url));
    assert_eq!(FormatGuessError::StdIn.to_string(), "Cannot guess format for stdin");
    assert_eq!(FormatGuessError::Url.to_string(), "Cannot guess format for URL");
    assert_eq!(FormatGuessError::Unrecognized("x".to_string()).to_string(), "Unrecognized format: x");
    assert_eq!(media_type("a/b;q=1;r=2"), "a/b");
    assert_eq!(media_type("a/b"), "a/b");
    assert_eq!(media_type(";"), "");
    assert!(accept().starts_with("application/n-quads, "));
    assert!(accept().contains("text/turtle;q=0.9"));
}

#[test]
fn the_base_is_given_or_made_from_the_source() {
    assert_eq!(source_base(Some("http://b/".to_string()), &FileOrUrl::StdIn), Some("http://b/".to_string()));
    assert_eq!(source_base(None, &FileOrUrl::StdIn), Some("x-stdin://".to_string()));
    assert_eq!(
        source_base(None, &FileOrUrl::Url("http://example.org/a.ttl".to_string())),
        Some("http://example.org/a.ttl".to_string())
    );
    assert_eq!(
        source_base(None, &FileOrUrl::File("/data/a.ttl".to_string())),
        Some("file:///data/a.ttl".to_string())
    );
    assert_eq!(source_base(None, &FileOrUrl::File("/data/a b.ttl".to_string())), None);
}

#[test]
fn each_format_has_its_parser() {
    let p = parse_read(Format::Turtle, false).unwrap();
    assert_eq!((p.kind, p.takes_base, p.yields_triples, p.loaders), (ParserKind::Turtle, true, true, Loaders::Nothing));
    let p = parse_read(Format::NTriples, true).unwrap();
    assert_eq!((p.kind, p.takes_base, p.yields_triples, p.loaders), (ParserKind::NTriples, false, true, Loaders::Nothing));
    let p = parse_read(Format::NQuads, false).unwrap();
    assert_eq!((p.kind, p.takes_base, p.yields_triples), (ParserKind::NQuads, false, false));
    let p = parse_read(Format::GeneralizedNQuads, false).unwrap();
    assert_eq!((p.kind, p.takes_base, p.yields_triples), (ParserKind::GeneralizedNQuads, false, false));
    let p = parse_read(Format::GeneralizedTriG, false).unwrap();
    assert_eq!((p.kind, p.takes_base, p.yields_triples), (ParserKind::GeneralizedTriG, true, false));
    let p = parse_read(Format::TriG, false).unwrap();
    assert_eq!((p.kind, p.takes_base, p.yields_triples), (ParserKind::TriG, true, false));
    let p = parse_read(Format::RdfXml, false).unwrap();
    assert_eq!((p.kind, p.takes_base, p.yields_triples), (ParserKind::RdfXml, true, true));
    let p = parse_read(Format::JsonLd, false).unwrap();
    assert_eq!((p.kind, p.takes_base, p.loaders), (ParserKind::JsonLd, true, Loaders::Local));
    let p = parse_read(Format::JsonLd, true).unwrap();
    assert_eq!(p.loaders, Loaders::LocalThenFileThenWeb);
    assert_eq!(parse_read(Format::Hdt, false), None);
    assert_eq!(parse_read(Format::YamlLd, false), None);
}

#[test]
fn a_subdirectory_stands_for_a_site() {
    assert_eq!(make_fs_loader("example.org"), Some("https://example.org/".to_string()));
    assert_eq!(make_fs_loader("not a host"), None);
}

#[test]
fn a_single_source_is_a_url_a_file_or_the_standard_input() {
    assert_eq!(FileOrUrl::from_str("-", false), Ok(FileOrUrl::StdIn));
    assert_eq!(FileOrUrl::from_str("-", true), Ok(FileOrUrl::StdIn));
    assert_eq!(
        FileOrUrl::from_str("http://example.org", false),
        Ok(FileOrUrl::Url("http://example.org/".to_string()))
    );
    assert_eq!(
        FileOrUrl::from_str("https://example.org/a b", true),
        Ok(FileOrUrl::Url("https://example.org/a%20b".to_string()))
    );
    assert_eq!(FileOrUrl::from_str("data.ttl", true), Ok(FileOrUrl::File("data.ttl".to_string())));
    let e = FileOrUrl::from_str("data.ttl", false).unwrap_err();
    assert_eq!(e.kind, SourceErrorKind::NotFound);
    assert_eq!(e.to_string(), "Neither an http(s) URL nor an existing file: data.ttl");
    let e = FileOrUrl::from_str("http://[bad", true).unwrap_err();
    assert_eq!(e.kind, SourceErrorKind::InvalidUrl);
    assert_eq!(e.to_string(), "Not a valid URL: http://[bad");
    assert_eq!(FileOrUrl::StdIn.to_string(), "-");
    assert_eq!(FileOrUrl::File("a".to_string()).to_string(), "a");
    assert!(is_http_url("http://x"));
    assert!(is_http_url("https://x"));
    assert!(!is_http_url("ftp://x"));
    assert!(!is_http_url(" http://x"));
    assert!(!is_http_url("httpx://x"));
}

#[test]
fn an_entry_is_a_url_a_file_or_a_pattern() {
    assert_eq!(
        FilesOrUrl::from_str("https://example.org/x", false),
        Ok(FilesOrUrl::Url("https://example.org/x".to_string()))
    );
    assert_eq!(FilesOrUrl::from_str("a*.ttl", true), Ok(FilesOrUrl::File("a*.ttl".to_string())));
    assert_eq!(FilesOrUrl::from_str("a*.ttl", false), Ok(FilesOrUrl::Glob("a*.ttl".to_string())));
    assert_eq!(FilesOrUrl::from_str("plain", false), Ok(FilesOrUrl::Glob("plain".to_string())));
    let e = FilesOrUrl::from_str("a**b", false).unwrap_err();
    assert_eq!(e.kind, EntryErrorKind::Unusable);
    assert_eq!(e.to_string(), "Neither an http(s) URL, an existing file or a valid glob pattern: a**b");
    let e = FilesOrUrl::from_str("http://[bad", false).unwrap_err();
    assert_eq!(e.kind, EntryErrorKind::InvalidUrl);
    assert_eq!(FilesOrUrl::Glob("*.nt".to_string()).to_string(), "*.nt");
}

#[test]
fn an_entry_resolves_to_its_sources() {
    let (sources, warnings) = FilesOrUrl::File("a.ttl".to_string()).into_iter(vec![]);
    assert_eq!(sources, vec![PathOrUrl::Path("a.ttl".to_string())]);
    assert!(warnings.is_empty());
    let (sources, warnings) = FilesOrUrl::Url("http://example.org/".to_string()).into_iter(vec![]);
    assert_eq!(sources, vec![PathOrUrl::Url("http://example.org/".to_string())]);
    assert!(warnings.is_empty());
    let (sources, warnings) = FilesOrUrl::Glob("*.nt".to_string()).into_iter(vec![]);
    assert!(sources.is_empty());
    assert_eq!(warnings, vec!["Pattern '*.nt' matches no file"]);
    let listed = vec![
        Err("d1: Permission denied".to_string()),
        Ok("a.nt".to_string()),
        Err("d2: Permission denied".to_string()),
        Ok("b.nt".to_string()),
    ];
    let (sources, warnings) = FilesOrUrl::Glob("*.nt".to_string()).into_iter(listed);
    assert_eq!(sources, vec![PathOrUrl::Path("a.nt".to_string()), PathOrUrl::Path("b.nt".to_string())]);
    assert_eq!(warnings, vec!["d1: Permission denied", "d2: Permission denied"]);
    let (sources, warnings) = FilesOrUrl::Glob("*.nt".to_string()).into_iter(vec![Err("d".to_string())]);
    assert!(sources.is_empty());
    assert_eq!(warnings, vec!["d"]);
}

#[test]
fn without_a_source_the_standard_input_is_read() {
    let mut a = args();
    assert_eq!(a.source(), FileOrUrl::StdIn);
    a.file_or_url = Some(FileOrUrl::File("a.ttl".to_string()));
    assert_eq!(a.source(), FileOrUrl::File("a.ttl".to_string()));
    assert_eq!(quadpipe::parse::acquisition_error("a.ttl", "Permission denied"), "a.ttl: Permission denied");
}
