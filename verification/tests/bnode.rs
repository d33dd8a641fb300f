use quadpipe::bnode::{add_bnode_suffix_q, add_bnode_suffix_t, bnode_suffix};
use quadpipe::term::{Quad, Term};

#[test]
fn suffix_has_run_and_index_in_sixteen_hex_digits_each() {
    assert_eq!(bnode_suffix(0, 0), "_0000000000000000_0000000000000000");
    assert_eq!(bnode_suffix(255, 4096), "_00000000000000ff_0000000000001000");
    assert_eq!(bnode_suffix(u64::MAX, 1), "_ffffffffffffffff_0000000000000001");
    assert_eq!(bnode_suffix(0x0123456789abcdef, 10), "_0123456789abcdef_000000000000000a");
}

#[test]
fn suffix_goes_on_every_blank_node_and_nothing_else() {
    let term = Term::triple(
        Term::blank_node("b1"),
        Term::iri("http://example.org/p"),
        Term::triple(Term::blank_node("b2"), Term::variable("v"), Term::typed_literal("b3", "dt")),
    );
    let expected = Term::triple(
        Term::blank_node("b1_x"),
        Term::iri("http://example.org/p"),
        Term::triple(Term::blank_node("b2_x"), Term::variable("v"), Term::typed_literal("b3", "dt")),
    );
    assert_eq!(add_bnode_suffix_t(term, "_x"), expected);
    assert_eq!(add_bnode_suffix_t(Term::language_string("chat", "fr"), "_x"), Term::language_string("chat", "fr"));
}

#[test]
fn suffix_goes_on_the_graph_name_too() {
    let quad = Quad::new(
        Term::blank_node("s"),
        Term::iri("http://example.org/p"),
        Term::blank_node("o"),
        Some(Term::blank_node("g")),
    );
    let expected = Quad::new(
        Term::blank_node("s-1"),
        Term::iri("http://example.org/p"),
        Term::blank_node("o-1"),
        Some(Term::blank_node("g-1")),
    );
    assert_eq!(add_bnode_suffix_q(quad, "-1"), expected);
}

fn id_of(term: &Term) -> String {
    match term {
        Term::BlankNode(id) => id.clone(),
        _ => panic!("not a blank node"),
    }
}

#[test]
fn blank_nodes_of_different_sources_never_collide() {
    // Small identifier spaces: the same few names in every source, and names
    // that end like hexadecimal digits or like a suffix.
    let names = ["b", "b0", "b1", "_", "0", "b_0000000000000000_0000000000000001"];
    let mut state: u64 = 0x9e3779b97f4a7c15;
    for round in 0..10_000u64 {
        state = state.wrapping_mul(6364136223846793005).wrapping_add(1442695040888963407);
        let run = state;
        let a = round % 7;
        let b = a + 1 + (round % 5);
        let sa = bnode_suffix(run, a);
        let sb = bnode_suffix(run, b);
        assert_eq!(sa.len(), sb.len());
        for x in names {
            for y in names {
                let ta = add_bnode_suffix_t(Term::blank_node(x), &sa);
                let tb = add_bnode_suffix_t(Term::blank_node(y), &sb);
                assert_ne!(id_of(&ta), id_of(&tb), "run {} sources {} {}", run, a, b);
            }
        }
    }
}

#[test]
fn blank_nodes_of_one_source_stay_apart() {
    let s = bnode_suffix(7, 3);
    let a = add_bnode_suffix_t(Term::blank_node("b1"), &s);
    let b = add_bnode_suffix_t(Term::blank_node("b2"), &s);
    let a2 = add_bnode_suffix_t(Term::blank_node("b1"), &s);
    assert_ne!(a, b);
    assert_eq!(a, a2);
}
