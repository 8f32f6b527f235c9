use vstd::prelude::*;

use crate::section::Section;

verus! {

/// A single renderable unit of a document.
///
/// The set of variants is closed: the renderer handles each of them.
#[derive(Debug, PartialEq)]
pub enum Element {
    /// A run of text; markup-special characters are escaped when rendered.
    Text(String),
    /// A paragraph made of the given elements.
    Paragraph(Vec<Element>),
    /// A list: `ordered` selects a numbered list over a bulleted one.
    List { ordered: bool, items: Vec<Element> },
    /// A table, row by row. Rows shorter than the widest one are padded with
    /// empty cells.
    Table(Vec<Vec<Element>>),
    /// A named environment wrapping a body.
    Environment { name: String, body: Vec<Element> },
    /// A nested section.
    Section(Section),
    /// Raw markup, emitted exactly as given.
    Verbatim(String),
}

impl Element {
    /// A run of text holding `text`.
    pub fn text(text: &str) -> (r: Element)
        ensures
            r matches Element::Text(t) && t@ == text@,
    {
        Element::Text(text.to_owned())
    }

    /// Raw markup holding `raw`, which is emitted without escaping.
    pub fn verbatim(raw: &str) -> (r: Element)
        ensures
            r matches Element::Verbatim(t) && t@ == raw@,
    {
        Element::Verbatim(raw.to_owned())
    }

    /// An environment named `name` around `body`.
    pub fn environment(name: &str, body: Vec<Element>) -> (r: Element)
        ensures
            r matches Element::Environment { name: n, body: b } && n@ == name@ && b@ == body@,
    {
        Element::Environment { name: name.to_owned(), body }
    }
}

impl From<String> for Element {
    fn from(text: String) -> (r: Element) {
        Element::Text(text)
    }
}

impl vstd::std_specs::convert::FromSpecImpl<String> for Element {
    open spec fn obeys_from_spec() -> bool {
        true
    }

    open spec fn from_spec(text: String) -> Element {
        Element::Text(text)
    }
}

impl From<Section> for Element {
    fn from(section: Section) -> (r: Element) {
        Element::Section(section)
    }
}

impl vstd::std_specs::convert::FromSpecImpl<Section> for Element {
    open spec fn obeys_from_spec() -> bool {
        true
    }

    open spec fn from_spec(section: Section) -> Element {
        Element::Section(section)
    }
}

} // verus!
