use vstd::prelude::*;
use vstd::std_specs::iter::IteratorSpec;

use crate::element::Element;
use crate::markup::{nested_level, write_section_header, DEEPEST_LEVEL};
use crate::render::{render_section, write_all};

verus! {

/// A named, ordered container of elements.
///
/// When rendered it starts with a sectioning command carrying its name, and
/// each of its elements follows in the order in which it was pushed.
#[derive(Debug, PartialEq)]
pub struct Section {
    /// The name of the section.
    pub name: String,
    /// Whether or not this section should include the section number.
    pub numbered: bool,
    elements: Vec<Element>,
}

/// What a section holds, as mathematical values.
pub struct SectionView {
    pub name: Seq<char>,
    pub numbered: bool,
    pub elements: Seq<Element>,
}

impl SectionView {
    /// A fresh section of the given name: numbered and empty.
    pub open spec fn created(name: Seq<char>) -> SectionView {
        SectionView { name, numbered: true, elements: Seq::empty() }
    }

    /// This section with `e` appended after its last element.
    pub open spec fn pushed(self, e: Element) -> SectionView {
        SectionView { elements: self.elements.push(e), ..self }
    }

    /// This section after pushing each of `es` in turn.
    pub open spec fn pushed_all(self, es: Seq<Element>) -> SectionView
        decreases es.len(),
    {
        if es.len() == 0 {
            self
        } else {
            self.pushed_all(es.drop_last()).pushed(es.last())
        }
    }
}

impl View for Section {
    type V = SectionView;

    closed spec fn view(&self) -> SectionView {
        SectionView { name: self.name@, numbered: self.numbered, elements: self.elements@ }
    }
}

impl Section {
    /// The elements of a section are part of it, for termination of recursion
    /// over the tree.
    pub proof fn lemma_elements_decrease(&self)
        ensures
            decreases_to!(*self => self@.elements),
    {
    }

    /// Appends the markup for this section at nesting level `level`.
    pub(crate) fn write_to(&self, level: usize, out: &mut String)
        requires
            level <= DEEPEST_LEVEL,
        ensures
            final(out)@ == old(out)@ + render_section(*self, level as nat),
        decreases self, 0nat,
    {
        write_section_header(self.name.as_str(), self.numbered, level, out);
        write_all(&self.elements, nested_level(level), out);
    }
}

impl Section {
    /// Create a new section with the specified name: numbered, and empty.
    pub fn new(name: &str) -> (r: Section)
        ensures
            r@ == SectionView::created(name@),
    {
        Section { name: name.to_owned(), numbered: true, elements: Vec::new() }
    }

    /// Sets whether or not this section should include the section number.
    pub fn numbered(self, numbered: bool) -> (r: Section)
        ensures
            r@ == (SectionView { numbered, ..self@ }),
    {
        let mut s = self;
        s.numbered = numbered;
        s
    }

    /// Add an element after the last one.
    pub fn push(&mut self, element: Element) -> (r: &mut Self)
        ensures
            r@ == old(self)@.pushed(element),
            *final(self) == *final(r),
    {
        self.elements.push(element);
        self
    }

    /// Iterate over the elements in this section, in the order they were pushed.
    pub fn iter(&self) -> (r: std::slice::Iter<'_, Element>)
        ensures
            r.remaining().unref() == self@.elements,
    {
        self.elements.as_slice().iter()
    }

    /// Is this section empty?
    pub fn is_empty(&self) -> (r: bool)
        ensures
            r == (self@.elements.len() == 0),
    {
        self.elements.len() == 0
    }
}

impl Default for Section {
    /// A numbered, empty section with an empty name.
    fn default() -> (r: Section)
        ensures
            r@ == SectionView::created(Seq::empty()),
    {
        Section { name: String::new(), numbered: true, elements: Vec::new() }
    }
}

} // verus!
