//! Facts about building and rendering a document tree.
use vstd::prelude::*;

use crate::document::{render_document, DocumentView};
use crate::element::Element;
use crate::markup::{escape, escape_char, is_special, nested, section_header, sectioning_command};
use crate::render::{render_all, render_element, render_section};
use crate::section::{Section, SectionView};

verus! {

/// Pushing the elements `es` one by one onto a section appends them, in the
/// order pushed, after those it held; its name and numbering stay as they were.
pub proof fn lemma_pushed_all(v: SectionView, es: Seq<Element>)
    ensures
        v.pushed_all(es).elements == v.elements + es,
        v.pushed_all(es).name == v.name,
        v.pushed_all(es).numbered == v.numbered,
    decreases es.len(),
{
    if es.len() > 0 {
        lemma_pushed_all(v, es.drop_last());
        assert(v.elements + es =~= (v.elements + es.drop_last()).push(es.last()));
    }
}

/// A new section after any sequence of pushes holds exactly the pushed
/// elements, in the order pushed, and is empty exactly when nothing was pushed.
pub proof fn lemma_new_section_pushes(name: Seq<char>, es: Seq<Element>)
    ensures
        SectionView::created(name).pushed_all(es).elements == es,
        SectionView::created(name).pushed_all(es).elements.len() == 0 <==> es.len() == 0,
{
    lemma_pushed_all(SectionView::created(name), es);
    assert(Seq::<Element>::empty() + es =~= es);
}

/// A numbered section opens with the sectioning command followed by its name in
/// braces; an unnumbered one with the starred form of that command. Two sections
/// that differ in nothing but numbering therefore render differently.
pub proof fn lemma_numbering_forms(s: Section, t: Section, level: nat)
    requires
        s@.name == t@.name,
        s@.elements == t@.elements,
        s@.numbered,
        !t@.numbered,
    ensures
        render_section(s, level).subrange(0, sectioning_command(level).len() + 1int)
            == sectioning_command(level) + "{"@,
        render_section(t, level).subrange(0, sectioning_command(level).len() + 2int)
            == sectioning_command(level) + "*{"@,
        render_section(s, level) != render_section(t, level),
{
    reveal_strlit("{");
    reveal_strlit("*{");
    let k = sectioning_command(level).len() as int;
    let rs = render_section(s, level);
    let rt = render_section(t, level);
    assert(rs.subrange(0, k + 1) =~= sectioning_command(level) + "{"@);
    assert(rt.subrange(0, k + 2) =~= sectioning_command(level) + "*{"@);
    assert(rs[k] == '{');
    assert(rt[k] == '*');
}

/// Rendering is a function of the tree alone: the same tree renders to the
/// same text each time.
pub proof fn lemma_render_deterministic(a: DocumentView, b: DocumentView)
    requires
        a == b,
    ensures
        render_document(a) == render_document(b),
{
}

/// Escaping text piece by piece gives the escaped whole.
pub proof fn lemma_escape_concat(a: Seq<char>, b: Seq<char>)
    ensures
        escape(a + b) == escape(a) + escape(b),
    decreases b.len(),
{
    if b.len() == 0 {
        assert(a + b =~= a);
        assert(escape(a) + escape(b) =~= escape(a));
    } else {
        lemma_escape_concat(a, b.drop_last());
        assert((a + b).drop_last() =~= a + b.drop_last());
        assert(escape(a) + escape(b) =~= escape(a) + escape(b.drop_last()) + escape_char(b.last()));
    }
}

/// Each special character becomes a sequence that starts with a backslash and
/// differs from the character alone.
pub proof fn lemma_special_escaped(c: char)
    requires
        is_special(c),
    ensures
        escape_char(c).len() >= 2,
        escape_char(c)[0] == '\\',
{
    reveal_strlit("\\textbackslash{}");
    reveal_strlit("\\textasciitilde{}");
    reveal_strlit("\\textasciicircum{}");
    reveal_strlit("\\{");
    reveal_strlit("\\}");
    reveal_strlit("\\$");
    reveal_strlit("\\&");
    reveal_strlit("\\#");
    reveal_strlit("\\%");
    reveal_strlit("\\_");
}

/// A special character at position `i` of `text` is rendered escaped in a text
/// run and in a section name, and as it stands in verbatim content.
pub proof fn lemma_text_escaping(text: String, i: int, s: Section, level: nat)
    requires
        0 <= i < text@.len(),
        is_special(text@[i]),
        s@.name == text@,
    ensures
        render_element(Element::Text(text), level) == escape(text@.take(i)) + escape_char(text@[i])
            + escape(text@.skip(i + 1)),
        render_section(s, level) == sectioning_command(level) + (if s@.numbered {
            "{"@
        } else {
            "*{"@
        }) + escape(text@.take(i)) + escape_char(text@[i]) + escape(text@.skip(i + 1)) + "}\n"@
            + render_all(s@.elements, nested(level)),
        escape_char(text@[i])[0] == '\\',
        escape_char(text@[i]).len() >= 2,
        render_element(Element::Verbatim(text), level) == text@,
        render_element(Element::Verbatim(text), level)[i] == text@[i],
{
    let t = text@;
    lemma_special_escaped(t[i]);
    lemma_escape_concat(t.take(i), seq![t[i]]);
    lemma_escape_concat(t.take(i) + seq![t[i]], t.skip(i + 1));
    assert(t.take(i) + seq![t[i]] + t.skip(i + 1) =~= t);
    assert(escape(seq![t[i]]) =~= escape_char(t[i])) by {
        let one = seq![t[i]];
        assert(one.drop_last() =~= Seq::<char>::empty());
        assert(escape(one) == escape(one.drop_last()) + escape_char(one.last()));
        assert(escape(Seq::<char>::empty()) + escape_char(t[i]) =~= escape_char(t[i]));
    }
    assert(render_element(Element::Text(text), level) == escape(t));
}

/// The elements of `a + b` render as those of `a`, then those of `b`.
pub proof fn lemma_render_all_concat(a: Seq<Element>, b: Seq<Element>, level: nat)
    ensures
        render_all(a + b, level) == render_all(a, level) + render_all(b, level),
    decreases b.len(),
{
    if b.len() == 0 {
        assert(a + b =~= a);
        assert(render_all(a, level) + render_all(b, level) =~= render_all(a, level));
    } else {
        let ab = a + b;
        lemma_render_all_concat(a, b.subrange(0, b.len() - 1), level);
        assert(ab.subrange(0, ab.len() - 1) =~= a + b.subrange(0, b.len() - 1));
        assert(render_all(a, level) + render_all(b, level) =~= render_all(a, level) + render_all(
            b.subrange(0, b.len() - 1),
            level,
        ) + render_element(b[b.len() - 1], level));
    }
}

/// A section nested in another renders in full inside the outer section, one
/// level deeper, after the elements that precede it and before those that
/// follow it.
pub proof fn lemma_nested_section(outer: Section, i: int, level: nat)
    requires
        0 <= i < outer@.elements.len(),
        outer@.elements[i] is Section,
    ensures
        render_section(outer, level) == section_header(outer@.name, outer@.numbered, level)
            + render_all(outer@.elements.take(i), nested(level)) + render_section(
            outer@.elements[i]->Section_0,
            nested(level),
        ) + render_all(outer@.elements.skip(i + 1), nested(level)),
{
    let es = outer@.elements;
    let inner = es[i];
    let l = nested(level);
    assert(es =~= es.take(i) + seq![inner] + es.skip(i + 1));
    lemma_render_all_concat(es.take(i), seq![inner], l);
    lemma_render_all_concat(es.take(i) + seq![inner], es.skip(i + 1), l);
    let one = seq![inner];
    assert(one.subrange(0, 0) =~= Seq::<Element>::empty());
    assert(render_all(one, l) == render_all(one.subrange(0, 0), l) + render_element(one[0], l));
    assert(render_all(one, l) =~= render_element(inner, l));
}

} // verus!
