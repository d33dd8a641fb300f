//! The plain text in which the default output shows quads: one line for a
//! quad, with subject, predicate, object and, where there is one, graph
//! name, a tab between them.

use vstd::prelude::*;
use crate::term::{BaseDirection, Quad, QuadView, Term, TermView};
use crate::text::chars_of;

verus! {

/// The text that stands for one character of a lexical form: the quote, the
/// backslash, the line feed and the carriage return are escaped.
pub open spec fn escaped_char(c: char) -> Seq<char> {
    if c == '"' {
        seq!['\\', '"']
    } else if c == '\\' {
        seq!['\\', '\\']
    } else if c == '\n' {
        seq!['\\', 'n']
    } else if c == '\r' {
        seq!['\\', 'r']
    } else {
        seq![c]
    }
}

/// The text that stands for a lexical form.
pub open spec fn escaped(s: Seq<char>) -> Seq<char>
    decreases s.len(),
{
    if s.len() == 0 {
        Seq::empty()
    } else {
        escaped(s.drop_last()) + escaped_char(s.last())
    }
}

/// The text that stands for a base direction.
pub open spec fn rendered_direction(d: Option<BaseDirection>) -> Seq<char> {
    match d {
        Some(BaseDirection::Ltr) => "--ltr"@,
        Some(BaseDirection::Rtl) => "--rtl"@,
        None => Seq::empty(),
    }
}

/// The text that stands for a term.
pub open spec fn rendered_term(t: TermView) -> Seq<char>
    decreases t,
{
    match t {
        TermView::Iri(iri) => "<"@ + iri + ">"@,
        TermView::BlankNode(id) => "_:"@ + id,
        TermView::TypedLiteral(lex, datatype) => "\""@ + escaped(lex) + "\"^^<"@ + datatype + ">"@,
        TermView::LanguageString(lex, tag, dir) => "\""@ + escaped(lex) + "\"@"@ + tag
            + rendered_direction(dir),
        TermView::Triple(s, p, o) => "<<( "@ + rendered_term(*s) + " "@ + rendered_term(*p)
            + " "@ + rendered_term(*o) + " )>>"@,
        TermView::Variable(name) => "?"@ + name,
    }
}

/// The line that stands for a quad.
pub open spec fn rendered_quad(q: QuadView) -> Seq<char> {
    rendered_term(q.s) + "\t"@ + rendered_term(q.p) + "\t"@ + rendered_term(q.o) + (match q.g {
        Some(g) => "\t"@ + rendered_term(g),
        None => Seq::empty(),
    }) + "\n"@
}

/// Appends the text that stands for the lexical form `lex` to `out`.
fn push_escaped(out: &mut String, lex: &str)
    ensures
        final(out)@ == old(out)@ + escaped(lex@),
{
    let chars = chars_of(lex);
    let mut i: usize = 0;
    assert(chars@.take(0) =~= Seq::<char>::empty());
    assert(out@ =~= old(out)@ + escaped(chars@.take(0)));
    while i < chars.len()
        invariant
            i <= chars@.len(),
            chars@ == lex@,
            out@ == old(out)@ + escaped(chars@.take(i as int)),
        decreases chars.len() - i,
    {
        let c = chars[i];
        proof {
            reveal_strlit("\\\"");
            reveal_strlit("\\\\");
            reveal_strlit("\\n");
            reveal_strlit("\\r");
            assert(chars@.take(i + 1).drop_last() =~= chars@.take(i as int));
            assert(chars@.take(i + 1).last() == c);
        }
        if c == '"' {
            out.append("\\\"");
            assert("\\\""@ =~= escaped_char(c));
        } else if c == '\\' {
            out.append("\\\\");
            assert("\\\\"@ =~= escaped_char(c));
        } else if c == '\n' {
            out.append("\\n");
            assert("\\n"@ =~= escaped_char(c));
        } else if c == '\r' {
            out.append("\\r");
            assert("\\r"@ =~= escaped_char(c));
        } else {
            let one = lex.substring_char(i, i + 1);
            assert(one@ =~= escaped_char(c));
            out.append(one);
        }
        i += 1;
        assert(out@ =~= old(out)@ + escaped(chars@.take(i as int)));
    }
    assert(chars@.take(chars@.len() as int) =~= chars@);
}

/// Appends the text that stands for `term` to `out`.
fn push_term(out: &mut String, term: &Term)
    ensures
        final(out)@ == old(out)@ + rendered_term(term@),
    decreases term,
{
    match term {
        Term::Iri(iri) => {
            out.append("<");
            out.append(iri.as_str());
            out.append(">");
            assert(out@ =~= old(out)@ + rendered_term(term@));
        },
        Term::BlankNode(id) => {
            out.append("_:");
            out.append(id.as_str());
            assert(out@ =~= old(out)@ + rendered_term(term@));
        },
        Term::TypedLiteral(lex, datatype) => {
            out.append("\"");
            push_escaped(out, lex.as_str());
            out.append("\"^^<");
            out.append(datatype.as_str());
            out.append(">");
            assert(out@ =~= old(out)@ + rendered_term(term@));
        },
        Term::LanguageString(lex, tag, dir) => {
            out.append("\"");
            push_escaped(out, lex.as_str());
            out.append("\"@");
            out.append(tag.as_str());
            match dir {
                Some(BaseDirection::Ltr) => {
                    out.append("--ltr");
                },
                Some(BaseDirection::Rtl) => {
                    out.append("--rtl");
                },
                None => {},
            }
            assert(out@ =~= old(out)@ + rendered_term(term@));
        },
        Term::Triple(s, p, o) => {
            out.append("<<( ");
            push_term(out, &**s);
            out.append(" ");
            push_term(out, &**p);
            out.append(" ");
            push_term(out, &**o);
            out.append(" )>>");
            assert(out@ =~= old(out)@ + rendered_term(term@));
        },
        Term::Variable(name) => {
            out.append("?");
            out.append(name.as_str());
            assert(out@ =~= old(out)@ + rendered_term(term@));
        },
    }
}

/// The text that stands for `term`.
pub fn render_term(term: &Term) -> (r: String)
    ensures
        r@ == rendered_term(term@),
{
    let mut out = String::new();
    push_term(&mut out, term);
    assert(out@ =~= rendered_term(term@));
    out
}

/// The line that stands for `quad`, with the line feed that ends it.
pub fn render_quad(quad: &Quad) -> (r: String)
    ensures
        r@ == rendered_quad(quad@),
{
    let mut out = String::new();
    push_term(&mut out, &quad.s);
    out.append("\t");
    push_term(&mut out, &quad.p);
    out.append("\t");
    push_term(&mut out, &quad.o);
    match &quad.g {
        Some(g) => {
            out.append("\t");
            push_term(&mut out, g);
        },
        None => {},
    }
    out.append("\n");
    assert(out@ =~= rendered_quad(quad@));
    out
}

} // verus!
