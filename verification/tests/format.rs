use quadpipe::canonicalize::c14n_function::C14nFunction;
use quadpipe::canonicalize::hash_function::HashFunctionId;
use quadpipe::format::Format;

fn parse_format(txt: &str) -> Format {
    Format::from_str(txt).unwrap()
}

#[test]
fn parse_format_generalized_nquads() {
    for txt in ["generalized-n-quads", "generalized-nquads", "gn-quads", "gnquads", "GNQuads", "gnq", "GNQ"] {
        assert_eq!(parse_format(txt), Format::GeneralizedNQuads, "{}", txt);
    }
}

#[test]
fn parse_format_generalized_trig() {
    for txt in ["generalized-trig", "gtrig", "GTriG", "GTRIG", "text/rdf+n3"] {
        assert_eq!(parse_format(txt), Format::GeneralizedTriG, "{}", txt);
    }
}

#[test]
fn parse_format_jsonld() {
    for txt in [
        "application/ld+json",
        "json-ld",
        "JSON-LD",
        "jsonld",
        "JsonLd",
        "JSONLD",
        "application/json",
        "json",
        "JSON",
    ] {
        assert_eq!(parse_format(txt), Format::JsonLd, "{}", txt);
    }
}

#[test]
fn parse_format_hdt() {
    for txt in ["application/vnd.hdt", "hdt"] {
        assert_eq!(parse_format(txt), Format::Hdt, "{}", txt);
    }
}

#[test]
fn parse_format_nquads() {
    for txt in ["application/n-quads", "n-quads", "N-Quads", "nquads", "NQuads", "nq", "NQ"] {
        assert_eq!(parse_format(txt), Format::NQuads, "{}", txt);
    }
}

#[test]
fn parse_format_ntriples() {
    for txt in [
        "application/n-triples",
        "n-triples",
        "N-Triples",
        "ntriples",
        "NTriples",
        "nt",
        "NT",
        "text/plain",
    ] {
        assert_eq!(parse_format(txt), Format::NTriples, "{}", txt);
    }
}

#[test]
fn parse_format_rdfxml() {
    for txt in ["application/rdf+xml", "rdf", "RDF", "RDF/XML", "rdfxml", "application/xml", "xml", "XML"] {
        assert_eq!(parse_format(txt), Format::RdfXml, "{}", txt);
    }
}

#[test]
fn parse_format_trig() {
    for txt in ["application/trig", "trig", "TriG", "TRIG"] {
        assert_eq!(parse_format(txt), Format::TriG, "{}", txt);
    }
}

#[test]
fn parse_format_turtle() {
    for txt in ["text/turtle", "turtle", "Turtle", "ttl", "TTL", "application/turtle"] {
        assert_eq!(parse_format(txt), Format::Turtle, "{}", txt);
    }
}

#[test]
fn parse_format_yamlld() {
    for txt in [
        "application/ld+yaml",
        "yaml-ld",
        "YAML-LD",
        "yamlld",
        "YamlLd",
        "YAMLLD",
        "ymlld",
        "YMLLD",
        "application/yaml",
        "yaml",
        "YAML",
        "yml",
        "YML",
    ] {
        assert_eq!(parse_format(txt), Format::YamlLd, "{}", txt);
    }
}

#[test]
fn unknown_format_is_refused_with_its_name() {
    let err = Format::from_str("docx").unwrap_err();
    assert_eq!(err.name, "docx");
    assert_eq!(err.to_string(), "Unrecognized format: docx");
    assert!(Format::from_str("").is_err());
    assert!(Format::from_str("xnq").is_err());
    for txt in ["nqx", "ntriples2", "trigger", "hdtv", "turtles", "application/vndxhdt"] {
        assert!(Format::from_str(txt).is_err(), "{}", txt);
    }
}

#[test]
fn the_first_matching_pattern_wins() {
    assert_eq!(Format::from_match(Some(0)), Some(Format::GeneralizedNQuads));
    assert_eq!(Format::from_match(Some(3)), Some(Format::YamlLd));
    assert_eq!(Format::from_match(Some(8)), Some(Format::Hdt));
    assert_eq!(Format::from_match(Some(9)), Some(Format::Turtle));
    assert_eq!(Format::from_match(Some(10)), None);
    assert_eq!(Format::from_match(None), None);
}

#[test]
fn c14n_function() {
    for txt in ["RDFC", "RDFC1", "RDFC10", "RDFC1.0", "RDFC-1", "RDFC-10", "RDFC-1.0", "rdfc10"] {
        assert_eq!(C14nFunction::from_str(txt).unwrap(), C14nFunction::RDFC10, "{}", txt);
    }
    for txt in ["Sophia", "sophia-c14n", "SOPHIA-C14N"] {
        assert_eq!(C14nFunction::from_str(txt).unwrap(), C14nFunction::Sophia, "{}", txt);
    }
    let err = C14nFunction::from_str("URDNA").unwrap_err();
    assert_eq!(err.to_string(), "Unrecognized c14n function URDNA");
    assert_eq!(C14nFunction::from_match(Some(2)), None);
}

#[test]
fn c14n_function_display_round_trip() {
    for f in [C14nFunction::RDFC10, C14nFunction::Sophia] {
        assert_eq!(C14nFunction::from_str(&f.to_string()).unwrap(), f);
    }
    assert_eq!(C14nFunction::RDFC10.to_string(), "RDFC-1.0");
    assert_eq!(C14nFunction::Sophia.to_string(), "Sophia-C14N");
}

#[test]
fn hash_function() {
    for txt in ["Sha256", "Sha-256", "SHA256", "SHA-256", "sha256"] {
        assert_eq!(HashFunctionId::from_str(txt).unwrap(), HashFunctionId::Sha256, "{}", txt);
    }
    for txt in ["Sha384", "Sha-384", "SHA384", "SHA-384", "sha384"] {
        assert_eq!(HashFunctionId::from_str(txt).unwrap(), HashFunctionId::Sha384, "{}", txt);
    }
    let err = HashFunctionId::from_str("md5").unwrap_err();
    assert_eq!(err.to_string(), "Unrecognized hash function md5");
    assert_eq!(HashFunctionId::from_match(None), None);
}

#[test]
fn display_round_trip() {
    for h in [HashFunctionId::Sha256, HashFunctionId::Sha384] {
        assert_eq!(h, HashFunctionId::from_str(&h.to_string()).unwrap());
    }
    assert_eq!(HashFunctionId::Sha256.to_string(), "SHA-256");
    assert_eq!(HashFunctionId::Sha384.to_string(), "SHA-384");
}
