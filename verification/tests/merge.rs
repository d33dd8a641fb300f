use quadpipe::merge::{drop_graphs, MergeDefaultGraph};
use quadpipe::quad_iter::{QuadIter, QuadIterError, QuadIterItem};
use quadpipe::term::{Quad, Term};

fn quad(s: &str, g: Option<&str>) -> Quad {
    Quad::new(
        Term::iri(s),
        Term::iri("http://example.org/p"),
        Term::typed_literal("o", "http://www.w3.org/2001/XMLSchema#string"),
        g.map(Term::iri),
    )
}

fn all(mut merge: MergeDefaultGraph) -> Vec<QuadIterItem> {
    let mut out = Vec::new();
    while let Some(item) = merge.next() {
        out.push(item);
    }
    out
}

#[test]
fn merge_duplicates_labelled_quads_right_behind_them() {
    let input = vec![
        Ok(quad("http://example.org/a", Some("http://example.org/g1"))),
        Ok(quad("http://example.org/b", None)),
        Err(QuadIterError::new("bad line")),
        Ok(quad("http://example.org/c", Some("http://example.org/g2"))),
    ];
    let out = all(MergeDefaultGraph::new(QuadIter::new(input)));
    let expected: Vec<QuadIterItem> = vec![
        Ok(quad("http://example.org/a", Some("http://example.org/g1"))),
        Ok(quad("http://example.org/a", None)),
        Ok(quad("http://example.org/b", None)),
        Err(QuadIterError::new("bad line")),
        Ok(quad("http://example.org/c", Some("http://example.org/g2"))),
        Ok(quad("http://example.org/c", None)),
    ];
    assert_eq!(out, expected);
}

#[test]
fn merge_of_nothing_is_nothing() {
    let out = all(MergeDefaultGraph::new(QuadIter::new(vec![])));
    assert!(out.is_empty());
}

#[test]
fn merge_leaves_default_graph_quads_alone() {
    let input = vec![Ok(quad("http://example.org/a", None)), Ok(quad("http://example.org/a", None))];
    let out = all(MergeDefaultGraph::new(QuadIter::new(input)));
    assert_eq!(out.len(), 2);
    assert_eq!(out[0], Ok(quad("http://example.org/a", None)));
    assert_eq!(out[1], Ok(quad("http://example.org/a", None)));
}

#[test]
fn merge_into_stream_is_the_same_as_pulling() {
    let input = vec![
        Ok(quad("http://example.org/a", Some("http://example.org/g1"))),
        Ok(quad("http://example.org/b", None)),
    ];
    let stream = MergeDefaultGraph::new(QuadIter::new(input)).into_stream();
    assert_eq!(stream.count(), 3);
    let out = stream.collect();
    assert_eq!(out[1], Ok(quad("http://example.org/a", None)));
}

#[test]
fn drop_mode_keeps_length_and_drops_every_graph_name() {
    let input = vec![
        Ok(quad("http://example.org/a", Some("http://example.org/g1"))),
        Err(QuadIterError::new("bad line")),
        Ok(quad("http://example.org/b", None)),
    ];
    let out = drop_graphs(QuadIter::new(input)).collect();
    let expected: Vec<QuadIterItem> = vec![
        Ok(quad("http://example.org/a", None)),
        Err(QuadIterError::new("bad line")),
        Ok(quad("http://example.org/b", None)),
    ];
    assert_eq!(out, expected);
}
