use quadpipe::null;
use quadpipe::quad_iter::{clone_item, QuadIter, QuadIterError, QuadIterItem};
use quadpipe::render::{render_quad, render_term};
use quadpipe::term::{BaseDirection, Quad, Term};

fn quad(s: &str, g: Option<&str>) -> Quad {
    Quad::new(Term::iri(s), Term::iri("http://example.org/p"), Term::blank_node("o"), g.map(Term::iri))
}

#[test]
fn a_stream_yields_its_items_in_order() {
    let mut stream = QuadIter::new(vec![
        Ok(quad("http://example.org/a", None)),
        Err(QuadIterError::new("broken")),
        Ok(quad("http://example.org/b", None)),
    ]);
    assert_eq!(stream.count(), 3);
    assert_eq!(stream.size_hint(), (3, Some(3)));
    assert_eq!(stream.next(), Some(Ok(quad("http://example.org/a", None))));
    assert_eq!(stream.next(), Some(Err(QuadIterError::new("broken"))));
    assert_eq!(stream.count(), 1);
    assert_eq!(stream.next(), Some(Ok(quad("http://example.org/b", None))));
    assert_eq!(stream.next(), None);
    assert_eq!(stream.next(), None);
    assert_eq!(QuadIter::empty().next(), None);
}

#[test]
fn collecting_quads_stops_at_the_first_error() {
    let items: Vec<QuadIterItem> = vec![
        Ok(quad("http://example.org/a", None)),
        Err(QuadIterError::new("first")),
        Ok(quad("http://example.org/b", None)),
        Err(QuadIterError::new("second")),
    ];
    let copy: Vec<QuadIterItem> = items.iter().map(clone_item).collect();
    assert_eq!(copy, items);
    assert_eq!(QuadIter::new(copy).collect_quads(), Err(QuadIterError::new("first")));
    let (quads, error) = QuadIter::new(items).drain_until_error();
    assert_eq!(quads, vec![quad("http://example.org/a", None)]);
    assert_eq!(error, Some(QuadIterError::new("first")));
    let good = QuadIter::from_quads(vec![quad("http://example.org/a", None), quad("http://example.org/b", None)]);
    assert_eq!(
        good.collect_quads(),
        Ok(vec![quad("http://example.org/a", None), quad("http://example.org/b", None)])
    );
}

#[test]
fn error_message_is_kept() {
    let e = QuadIterError::new("line 3: unexpected end");
    assert_eq!(e.to_string(), "line 3: unexpected end");
    assert_eq!(e.clone(), e);
}

#[test]
fn null_reports_only_the_first_error() {
    let ok = QuadIter::new(vec![Ok(quad("http://example.org/a", None))]);
    assert_eq!(null::run(ok, null::Args {}), Ok(()));
    let bad = QuadIter::new(vec![
        Ok(quad("http://example.org/a", None)),
        Err(QuadIterError::new("first")),
        Err(QuadIterError::new("second")),
    ]);
    assert_eq!(null::run(bad, null::Args {}), Err(QuadIterError::new("first")));
    assert_eq!(null::run(QuadIter::empty(), null::Args {}), Ok(()));
}

#[test]
fn terms_are_shown_in_plain_text() {
    assert_eq!(render_term(&Term::iri("http://example.org/a")), "<http://example.org/a>");
    assert_eq!(render_term(&Term::blank_node("b1")), "_:b1");
    assert_eq!(render_term(&Term::variable("x")), "?x");
    assert_eq!(
        render_term(&Term::typed_literal("say \"hi\"\\\n\r", "http://www.w3.org/2001/XMLSchema#string")),
        "\"say \\\"hi\\\"\\\\\\n\\r\"^^<http://www.w3.org/2001/XMLSchema#string>"
    );
    assert_eq!(render_term(&Term::language_string("chat", "fr")), "\"chat\"@fr");
    assert_eq!(
        render_term(&Term::LanguageString("shalom".to_string(), "he".to_string(), Some(BaseDirection::Rtl))),
        "\"shalom\"@he--rtl"
    );
    assert_eq!(
        render_term(&Term::LanguageString("hi".to_string(), "en".to_string(), Some(BaseDirection::Ltr))),
        "\"hi\"@en--ltr"
    );
    assert_eq!(
        render_term(&Term::triple(Term::blank_node("s"), Term::iri("p"), Term::typed_literal("é", "d"))),
        "<<( _:s <p> \"é\"^^<d> )>>"
    );
}

#[test]
fn a_quad_is_one_line_with_tabs() {
    assert_eq!(
        render_quad(&quad("http://example.org/a", None)),
        "<http://example.org/a>\t<http://example.org/p>\t_:o\n"
    );
    assert_eq!(
        render_quad(&quad("http://example.org/a", Some("http://example.org/g"))),
        "<http://example.org/a>\t<http://example.org/p>\t_:o\t<http://example.org/g>\n"
    );
}

#[test]
fn same_tells_terms_and_quads_apart() {
    let a = Term::typed_literal("1", "http://www.w3.org/2001/XMLSchema#integer");
    let b = Term::typed_literal("1", "http://www.w3.org/2001/XMLSchema#decimal");
    assert!(a.same(&a.clone()));
    assert!(!a.same(&b));
    assert!(!Term::iri("x").same(&Term::blank_node("x")));
    assert!(Term::triple(a.clone(), a.clone(), b.clone()).same(&Term::triple(a.clone(), a.clone(), b.clone())));
    assert!(!Term::triple(a.clone(), a.clone(), b.clone()).same(&Term::triple(a.clone(), b.clone(), b.clone())));
    assert!(!Term::language_string("a", "en").same(&Term::LanguageString(
        "a".to_string(),
        "en".to_string(),
        Some(BaseDirection::Ltr)
    )));
    let q = quad("http://example.org/a", Some("http://example.org/g"));
    assert!(q.same(&q.clone()));
    assert!(!q.same(&quad("http://example.org/a", None)));
    assert!(!q.same(&quad("http://example.org/a", Some("http://example.org/h"))));
}
