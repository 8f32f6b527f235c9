use vstd::prelude::*;
use vstd::std_specs::iter::IteratorSpec;

use crate::element::Element;
use crate::markup::{escape, write_escaped};
use crate::render::{render_all, write_all};

verus! {

/// The class of a document, which sets its overall layout.
#[derive(Clone, Copy, Debug, PartialEq, Eq, Structural)]
pub enum DocumentClass {
    Article,
    Report,
    Book,
}

/// The name by which the markup knows the class `c`.
pub open spec fn class_name(c: DocumentClass) -> Seq<char> {
    match c {
        DocumentClass::Article => "article"@,
        DocumentClass::Report => "report"@,
        DocumentClass::Book => "book"@,
    }
}

impl DocumentClass {
    /// The name by which the markup knows this class.
    pub fn name(&self) -> (r: &'static str)
        ensures
            r@ == class_name(*self),
    {
        match self {
            DocumentClass::Article => "article",
            DocumentClass::Report => "report",
            DocumentClass::Book => "book",
        }
    }
}

/// The root of a document: its configuration and its top-level elements.
#[derive(Debug, PartialEq)]
pub struct Document {
    class: DocumentClass,
    title: Option<String>,
    author: Option<String>,
    elements: Vec<Element>,
}

/// What a document holds, as mathematical values.
pub struct DocumentView {
    pub class: DocumentClass,
    pub title: Option<Seq<char>>,
    pub author: Option<Seq<char>>,
    pub elements: Seq<Element>,
}

impl DocumentView {
    /// A fresh document of the given class: no title, no author, no elements.
    pub open spec fn created(class: DocumentClass) -> DocumentView {
        DocumentView { class, title: None, author: None, elements: Seq::empty() }
    }

    /// This document with `e` appended after its last top-level element.
    pub open spec fn pushed(self, e: Element) -> DocumentView {
        DocumentView { elements: self.elements.push(e), ..self }
    }
}

/// The view of an optional string.
pub open spec fn optional_view(s: Option<String>) -> Option<Seq<char>> {
    match s {
        Some(t) => Some(t@),
        None => None,
    }
}

impl View for Document {
    type V = DocumentView;

    closed spec fn view(&self) -> DocumentView {
        DocumentView {
            class: self.class,
            title: optional_view(self.title),
            author: optional_view(self.author),
            elements: self.elements@,
        }
    }
}

/// A one-argument command line, present only where its argument is.
pub open spec fn optional_command(command: Seq<char>, arg: Option<Seq<char>>) -> Seq<char> {
    match arg {
        Some(a) => command + "{"@ + escape(a) + "}\n"@,
        None => Seq::empty(),
    }
}

/// The complete markup for the document `d`: the preamble that its
/// configuration gives, each top-level element in order, then the closing line.
pub open spec fn render_document(d: DocumentView) -> Seq<char> {
    "\\documentclass{"@ + class_name(d.class) + "}\n"@ + optional_command("\\title"@, d.title)
        + optional_command("\\author"@, d.author) + "\\begin{document}\n"@ + (if d.title is Some {
        "\\maketitle\n"@
    } else {
        Seq::empty()
    }) + render_all(d.elements, 0) + "\\end{document}\n"@
}

/// Appends the command line for `arg`, if there is one.
fn write_optional_command(command: &str, arg: &Option<String>, out: &mut String)
    ensures
        final(out)@ == old(out)@ + optional_command(command@, optional_view(*arg)),
{
    match arg {
        Some(a) => {
            out.append(command);
            out.append("{");
            write_escaped(a.as_str(), out);
            out.append("}\n");
        },
        None => {
            assert(old(out)@ + Seq::<char>::empty() =~= old(out)@);
        },
    }
}

impl Document {
    /// Create an empty document of the given class, with no title or author.
    pub fn new(class: DocumentClass) -> (r: Document)
        ensures
            r@ == DocumentView::created(class),
    {
        Document { class, title: None, author: None, elements: Vec::new() }
    }

    /// Sets the title of the document.
    pub fn title(self, title: &str) -> (r: Document)
        ensures
            r@ == (DocumentView { title: Some(title@), ..self@ }),
    {
        let mut d = self;
        d.title = Some(title.to_owned());
        d
    }

    /// Sets the author of the document.
    pub fn author(self, author: &str) -> (r: Document)
        ensures
            r@ == (DocumentView { author: Some(author@), ..self@ }),
    {
        let mut d = self;
        d.author = Some(author.to_owned());
        d
    }

    /// Add a top-level element after the last one.
    pub fn push(&mut self, element: Element) -> (r: &mut Self)
        ensures
            r@ == old(self)@.pushed(element),
            *final(self) == *final(r),
    {
        self.elements.push(element);
        self
    }

    /// Iterate over the top-level elements, in the order they were pushed.
    pub fn iter(&self) -> (r: std::slice::Iter<'_, Element>)
        ensures
            r.remaining().unref() == self@.elements,
    {
        self.elements.as_slice().iter()
    }

    /// Does the document have no top-level element?
    pub fn is_empty(&self) -> (r: bool)
        ensures
            r == (self@.elements.len() == 0),
    {
        self.elements.len() == 0
    }

    /// The complete markup for this document. The document is left as it is.
    pub fn render(&self) -> (r: String)
        ensures
            r@ == render_document(self@),
    {
        let mut out = String::new();
        out.append("\\documentclass{");
        out.append(self.class.name());
        out.append("}\n");
        write_optional_command("\\title", &self.title, &mut out);
        write_optional_command("\\author", &self.author, &mut out);
        out.append("\\begin{document}\n");
        if self.title.is_some() {
            out.append("\\maketitle\n");
        }
        write_all(&self.elements, 0, &mut out);
        out.append("\\end{document}\n");
        out
    }
}

impl Default for Document {
    /// An empty article.
    fn default() -> (r: Document)
        ensures
            r@ == DocumentView::created(DocumentClass::Article),
    {
        Document::new(DocumentClass::Article)
    }
}

} // verus!
