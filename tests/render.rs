use latex::{Document, DocumentClass, Element, Section};

const EMPTY_ARTICLE: &str = "\\documentclass{article}\n\\begin{document}\n\\end{document}\n";

fn body_of(elements: Vec<Element>) -> String {
    let mut d = Document::new(DocumentClass::Article);
    for e in elements {
        d.push(e);
    }
    d.render()
}

fn wrapped(body: &str) -> String {
    format!("\\documentclass{{article}}\n\\begin{{document}}\n{}\\end{{document}}\n", body)
}

#[test]
fn report_with_intro_section() {
    let mut intro = Section::new("Intro");
    intro.push(Element::text("Hello, 100% done."));
    let mut d = Document::new(DocumentClass::Article).title("Report");
    d.push(Element::from(intro));
    let out = d.render();
    assert!(out.contains("Hello, 100\\% done."));
    assert!(!out.contains("100% done"));
    assert!(out.contains("\\section{Intro}"));
    assert_eq!(
        out,
        "\\documentclass{article}\n\\title{Report}\n\\begin{document}\n\\maketitle\n\
         \\section{Intro}\nHello, 100\\% done.\\end{document}\n"
    );
}

#[test]
fn empty_unnumbered_section_adds_nothing_after_its_header() {
    let appendix = Section::new("Appendix").numbered(false);
    let out = body_of(vec![Element::from(appendix), Element::text("Next")]);
    assert_eq!(out, wrapped("\\section*{Appendix}\nNext"));
}

#[test]
fn numbered_and_unnumbered_headers_differ() {
    let numbered = body_of(vec![Element::from(Section::new("Same"))]);
    let unnumbered = body_of(vec![Element::from(Section::new("Same").numbered(false))]);
    assert_eq!(numbered, wrapped("\\section{Same}\n"));
    assert_eq!(unnumbered, wrapped("\\section*{Same}\n"));
    assert_ne!(numbered, unnumbered);
}

#[test]
fn rendering_twice_gives_the_same_text() {
    let mut s = Section::new("A & B");
    s.push(Element::text("x_1"));
    let mut d = Document::new(DocumentClass::Book).author("Me");
    d.push(Element::from(s));
    let first = d.render();
    let second = d.render();
    assert_eq!(first, second);
    assert_eq!(d.iter().count(), 1);
}

#[test]
fn every_special_character_is_escaped_in_text() {
    let out = body_of(vec![Element::text("\\ { } $ & # % _ ~ ^")]);
    assert_eq!(
        out,
        wrapped(
            "\\textbackslash{} \\{ \\} \\$ \\& \\# \\% \\_ \\textasciitilde{} \\textasciicircum{}"
        )
    );
}

#[test]
fn plain_text_is_unchanged() {
    let out = body_of(vec![Element::text("Plain text, with ünïcode.")]);
    assert_eq!(out, wrapped("Plain text, with ünïcode."));
}

#[test]
fn section_names_are_escaped() {
    let out = body_of(vec![Element::from(Section::new("50% & more"))]);
    assert_eq!(out, wrapped("\\section{50\\% \\& more}\n"));
}

#[test]
fn verbatim_is_not_escaped() {
    let out = body_of(vec![Element::verbatim("$x^2$ % raw \\par")]);
    assert_eq!(out, wrapped("$x^2$ % raw \\par"));
}

#[test]
fn nested_sections_render_inside_their_parent_in_order() {
    let mut inner = Section::new("B");
    inner.push(Element::text("y"));
    let mut outer = Section::new("A");
    outer
        .push(Element::text("x"))
        .push(Element::from(inner))
        .push(Element::text("z"));
    let out = body_of(vec![Element::from(outer)]);
    assert_eq!(out, wrapped("\\section{A}\nx\\subsection{B}\nyz"));
}

#[test]
fn deep_nesting_stays_at_the_deepest_command() {
    let d4 = Section::new("D");
    let mut d3 = Section::new("C").numbered(false);
    d3.push(Element::from(d4));
    let mut d2 = Section::new("B");
    d2.push(Element::from(d3));
    let mut d1 = Section::new("A");
    d1.push(Element::from(d2));
    let out = body_of(vec![Element::from(d1)]);
    assert_eq!(
        out,
        wrapped("\\section{A}\n\\subsection{B}\n\\subsubsection*{C}\n\\subsubsection{D}\n")
    );
}

#[test]
fn paragraph_ends_with_a_blank_line() {
    let out = body_of(vec![Element::Paragraph(vec![
        Element::text("one "),
        Element::text("two"),
    ])]);
    assert_eq!(out, wrapped("one two\n\n"));
}

#[test]
fn unordered_list_uses_itemize() {
    let out = body_of(vec![Element::List {
        ordered: false,
        items: vec![Element::text("a"), Element::text("b")],
    }]);
    assert_eq!(out, wrapped("\\begin{itemize}\n\\item a\n\\item b\n\\end{itemize}\n"));
}

#[test]
fn ordered_list_uses_enumerate() {
    let out = body_of(vec![Element::List { ordered: true, items: vec![Element::text("1%")] }]);
    assert_eq!(out, wrapped("\\begin{enumerate}\n\\item 1\\%\n\\end{enumerate}\n"));
}

#[test]
fn empty_list_has_only_its_environment() {
    let out = body_of(vec![Element::List { ordered: false, items: vec![] }]);
    assert_eq!(out, wrapped("\\begin{itemize}\n\\end{itemize}\n"));
}

#[test]
fn table_rows_keep_their_order() {
    let out = body_of(vec![Element::Table(vec![
        vec![Element::text("a"), Element::text("b")],
        vec![Element::text("c"), Element::text("d")],
    ])]);
    assert_eq!(
        out,
        wrapped("\\begin{tabular}{ll}\na & b \\\\\nc & d \\\\\n\\end{tabular}\n")
    );
}

#[test]
fn ragged_table_is_padded_to_the_widest_row() {
    let out = body_of(vec![Element::Table(vec![
        vec![Element::text("a")],
        vec![Element::text("b"), Element::text("c"), Element::text("d")],
        vec![],
    ])]);
    assert_eq!(
        out,
        wrapped(
            "\\begin{tabular}{lll}\na &  &  \\\\\nb & c & d \\\\\n &  &  \\\\\n\\end{tabular}\n"
        )
    );
}

#[test]
fn empty_table_has_no_columns() {
    let out = body_of(vec![Element::Table(vec![])]);
    assert_eq!(out, wrapped("\\begin{tabular}{}\n\\end{tabular}\n"));
}

#[test]
fn table_cells_are_escaped() {
    let out = body_of(vec![Element::Table(vec![vec![Element::text("a&b")]])]);
    assert_eq!(out, wrapped("\\begin{tabular}{l}\na\\&b \\\\\n\\end{tabular}\n"));
}

#[test]
fn environment_wraps_its_body() {
    let out = body_of(vec![Element::environment("center", vec![Element::text("mid")])]);
    assert_eq!(out, wrapped("\\begin{center}\nmid\\end{center}\n"));
}

#[test]
fn verbatim_inside_environment_is_not_escaped() {
    let out = body_of(vec![Element::environment("quote", vec![Element::verbatim("50%")])]);
    assert_eq!(out, wrapped("\\begin{quote}\n50%\\end{quote}\n"));
}

#[test]
fn empty_document_has_preamble_and_closing() {
    let d = Document::new(DocumentClass::Article);
    assert!(d.is_empty());
    assert_eq!(d.render(), EMPTY_ARTICLE);
    assert_eq!(Document::default().render(), EMPTY_ARTICLE);
}

#[test]
fn title_and_author_are_escaped_in_the_preamble() {
    let d = Document::new(DocumentClass::Report).title("Q&A").author("R_2");
    assert_eq!(
        d.render(),
        "\\documentclass{report}\n\\title{Q\\&A}\n\\author{R\\_2}\n\\begin{document}\n\
         \\maketitle\n\\end{document}\n"
    );
}

#[test]
fn author_alone_gives_no_title_page() {
    let d = Document::new(DocumentClass::Book).author("Ann");
    assert_eq!(
        d.render(),
        "\\documentclass{book}\n\\author{Ann}\n\\begin{document}\n\\end{document}\n"
    );
}

#[test]
fn document_class_names() {
    assert_eq!(DocumentClass::Article.name(), "article");
    assert_eq!(DocumentClass::Report.name(), "report");
    assert_eq!(DocumentClass::Book.name(), "book");
}

#[test]
fn document_iteration_follows_push_order() {
    let mut d = Document::new(DocumentClass::Article);
    d.push(Element::text("1")).push(Element::text("2"));
    assert!(!d.is_empty());
    let got: Vec<&Element> = d.iter().collect();
    assert_eq!(*got[0], Element::Text(String::from("1")));
    assert_eq!(*got[1], Element::Text(String::from("2")));
}
