//! Terms and quads, the values that flow between the stages of a pipeline.
//!
//! A term holds its text as plain strings. Every contract of the library
//! speaks of a term through its view, in which the text is a sequence of
//! characters.

use vstd::prelude::*;

verus! {

/// The base direction that a language-tagged string may carry.
#[derive(Clone, Copy, Debug, PartialEq, Eq, Structural)]
pub enum BaseDirection {
    Ltr,
    Rtl,
}

/// A term: an IRI, a blank node, a literal, a quoted triple or a variable.
#[derive(Debug, PartialEq, Eq)]
pub enum Term {
    /// An IRI reference, absolute or relative.
    Iri(String),
    /// A blank node, by its identifier, which means something only within
    /// the source that it came from.
    BlankNode(String),
    /// A literal with a lexical form and the IRI of its datatype.
    TypedLiteral(String, String),
    /// A language-tagged string: lexical form, language tag and, optionally,
    /// a base direction.
    LanguageString(String, String, Option<BaseDirection>),
    /// A quoted triple, used as a term.
    Triple(Box<Term>, Box<Term>, Box<Term>),
    /// A variable, by its name.
    Variable(String),
}

/// The mathematical model of a [`Term`].
pub enum TermView {
    Iri(Seq<char>),
    BlankNode(Seq<char>),
    TypedLiteral(Seq<char>, Seq<char>),
    LanguageString(Seq<char>, Seq<char>, Option<BaseDirection>),
    Triple(Box<TermView>, Box<TermView>, Box<TermView>),
    Variable(Seq<char>),
}

impl View for Term {
    type V = TermView;

    open spec fn view(&self) -> TermView
        decreases self,
    {
        match self {
            Term::Iri(iri) => TermView::Iri(iri@),
            Term::BlankNode(id) => TermView::BlankNode(id@),
            Term::TypedLiteral(lex, datatype) => TermView::TypedLiteral(lex@, datatype@),
            Term::LanguageString(lex, tag, dir) => TermView::LanguageString(lex@, tag@, *dir),
            Term::Triple(s, p, o) => TermView::Triple(
                Box::new((**s).view()),
                Box::new((**p).view()),
                Box::new((**o).view()),
            ),
            Term::Variable(name) => TermView::Variable(name@),
        }
    }
}

impl Clone for Term {
    fn clone(&self) -> (r: Self)
        ensures
            r == *self,
        decreases self,
    {
        match self {
            Term::Iri(iri) => Term::Iri(iri.clone()),
            Term::BlankNode(id) => Term::BlankNode(id.clone()),
            Term::TypedLiteral(lex, datatype) => Term::TypedLiteral(lex.clone(), datatype.clone()),
            Term::LanguageString(lex, tag, dir) => Term::LanguageString(
                lex.clone(),
                tag.clone(),
                *dir,
            ),
            Term::Triple(s, p, o) => {
                let s_new = (**s).clone();
                let p_new = (**p).clone();
                let o_new = (**o).clone();
                Term::Triple(Box::new(s_new), Box::new(p_new), Box::new(o_new))
            },
            Term::Variable(name) => Term::Variable(name.clone()),
        }
    }
}

impl Term {
    /// An IRI term with the given text.
    pub fn iri(text: &str) -> (r: Term)
        ensures
            r@ == TermView::Iri(text@),
    {
        Term::Iri(text.to_owned())
    }

    /// A blank node with the given identifier.
    pub fn blank_node(id: &str) -> (r: Term)
        ensures
            r@ == TermView::BlankNode(id@),
    {
        Term::BlankNode(id.to_owned())
    }

    /// A literal with the given lexical form and datatype IRI.
    pub fn typed_literal(lexical: &str, datatype: &str) -> (r: Term)
        ensures
            r@ == TermView::TypedLiteral(lexical@, datatype@),
    {
        Term::TypedLiteral(lexical.to_owned(), datatype.to_owned())
    }

    /// A language-tagged string without base direction.
    pub fn language_string(lexical: &str, tag: &str) -> (r: Term)
        ensures
            r@ == TermView::LanguageString(lexical@, tag@, None),
    {
        Term::LanguageString(lexical.to_owned(), tag.to_owned(), None)
    }

    /// A quoted triple.
    pub fn triple(s: Term, p: Term, o: Term) -> (r: Term)
        ensures
            r@ == TermView::Triple(Box::new(s@), Box::new(p@), Box::new(o@)),
    {
        Term::Triple(Box::new(s), Box::new(p), Box::new(o))
    }

    /// A variable with the given name.
    pub fn variable(name: &str) -> (r: Term)
        ensures
            r@ == TermView::Variable(name@),
    {
        Term::Variable(name.to_owned())
    }

    /// Whether two terms are the same term.
    pub fn same(&self, other: &Term) -> (r: bool)
        ensures
            r == (self@ == other@),
        decreases self,
    {
        match (self, other) {
            (Term::Iri(a), Term::Iri(b)) => *a == *b,
            (Term::BlankNode(a), Term::BlankNode(b)) => *a == *b,
            (Term::TypedLiteral(a, c), Term::TypedLiteral(b, d)) => *a == *b && *c == *d,
            (Term::LanguageString(a, c, e), Term::LanguageString(b, d, f)) => {
                let same_dir = match (e, f) {
                    (None, None) => true,
                    (Some(x), Some(y)) => *x == *y,
                    _ => false,
                };
                *a == *b && *c == *d && same_dir
            },
            (Term::Triple(s, p, o), Term::Triple(other_s, other_p, other_o)) => {
                (**s).same(&**other_s) && (**p).same(&**other_p) && (**o).same(&**other_o)
            },
            (Term::Variable(a), Term::Variable(b)) => *a == *b,
            _ => false,
        }
    }
}

/// A quad: subject, predicate and object, and the name of the graph that the
/// statement belongs to. Without a graph name it belongs to the default graph.
#[derive(Debug, PartialEq, Eq)]
pub struct Quad {
    pub s: Term,
    pub p: Term,
    pub o: Term,
    pub g: Option<Term>,
}

/// The mathematical model of a [`Quad`].
pub struct QuadView {
    pub s: TermView,
    pub p: TermView,
    pub o: TermView,
    pub g: Option<TermView>,
}

/// The view of an optional term.
pub open spec fn option_term_view(t: Option<Term>) -> Option<TermView> {
    match t {
        Some(t) => Some(t@),
        None => None,
    }
}

impl View for Quad {
    type V = QuadView;

    open spec fn view(&self) -> QuadView {
        QuadView { s: self.s@, p: self.p@, o: self.o@, g: option_term_view(self.g) }
    }
}

impl Clone for Quad {
    fn clone(&self) -> (r: Self)
        ensures
            r == *self,
    {
        let g = match &self.g {
            Some(g) => Some(g.clone()),
            None => None,
        };
        Quad { s: self.s.clone(), p: self.p.clone(), o: self.o.clone(), g }
    }
}

impl Quad {
    /// A quad of the given terms.
    pub fn new(s: Term, p: Term, o: Term, g: Option<Term>) -> (r: Quad)
        ensures
            r@ == (QuadView { s: s@, p: p@, o: o@, g: option_term_view(g) }),
    {
        Quad { s, p, o, g }
    }

    /// Whether two quads are the same quad.
    pub fn same(&self, other: &Quad) -> (r: bool)
        ensures
            r == (self@ == other@),
    {
        let same_graph = match (&self.g, &other.g) {
            (None, None) => true,
            (Some(a), Some(b)) => a.same(b),
            _ => false,
        };
        self.s.same(&other.s) && self.p.same(&other.p) && self.o.same(&other.o) && same_graph
    }
}

/// The view of an optional quad.
pub open spec fn option_quad_view(q: Option<Quad>) -> Option<QuadView> {
    match q {
        Some(q) => Some(q@),
        None => None,
    }
}

} // verus!
