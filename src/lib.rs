//! Building a tree of document elements and rendering it as LaTeX markup.
pub mod document;
pub mod element;
pub mod lemmas;
pub mod markup;
pub mod render;
pub mod section;

pub use document::{Document, DocumentClass};
pub use element::Element;
pub use section::Section;
