//! What a tree of elements renders to, and the walk that produces it.
use vstd::prelude::*;

use crate::element::Element;
use crate::markup::{
    begin_environment, end_environment, escape, list_environment, list_environment_name, nested,
    section_header, write_begin, write_end, write_escaped, DEEPEST_LEVEL,
};
use crate::section::Section;

verus! {

/// The widest row of a table: every row is padded with empty cells to it.
pub open spec fn table_width(rows: Seq<Vec<Element>>) -> nat
    decreases rows.len(),
{
    if rows.len() == 0 {
        0
    } else {
        let rest = table_width(rows.drop_last());
        let last = rows.last()@.len();
        if last > rest {
            last
        } else {
            rest
        }
    }
}

/// The column specification of a table of `width` columns.
pub open spec fn column_spec(width: nat) -> Seq<char> {
    Seq::new(width, |i: int| 'l')
}

/// The markup for the element `e` inside a section at nesting level `level`.
pub open spec fn render_element(e: Element, level: nat) -> Seq<char>
    decreases e, 0nat,
{
    match e {
        Element::Text(s) => escape(s@),
        Element::Paragraph(items) => render_all(items@, level) + "\n\n"@,
        Element::List { ordered, items } => begin_environment(list_environment(ordered))
            + render_items(items@, level) + end_environment(list_environment(ordered)),
        Element::Table(rows) => "\\begin{tabular}{"@ + column_spec(table_width(rows@)) + "}\n"@
            + render_rows(rows@, table_width(rows@), level) + "\\end{tabular}\n"@,
        Element::Environment { name, body } => begin_environment(name@) + render_all(body@, level)
            + end_environment(name@),
        Element::Section(s) => render_section(s, level),
        Element::Verbatim(s) => s@,
    }
}

/// The markup for the elements `es`, one after the other.
pub open spec fn render_all(es: Seq<Element>, level: nat) -> Seq<char>
    decreases es, 0nat,
{
    if es.len() == 0 {
        Seq::empty()
    } else {
        render_all(es.subrange(0, es.len() - 1), level) + render_element(es[es.len() - 1], level)
    }
}

/// The markup for the items of a list: one `\item` line each.
pub open spec fn render_items(items: Seq<Element>, level: nat) -> Seq<char>
    decreases items, 0nat,
{
    if items.len() == 0 {
        Seq::empty()
    } else {
        render_items(items.subrange(0, items.len() - 1), level) + "\\item "@ + render_element(
            items[items.len() - 1],
            level,
        ) + "\n"@
    }
}

/// The markup for the rows of a table, each padded to `width` cells.
pub open spec fn render_rows(rows: Seq<Vec<Element>>, width: nat, level: nat) -> Seq<char>
    decreases rows, 0nat,
{
    if rows.len() == 0 {
        Seq::empty()
    } else {
        render_rows(rows.subrange(0, rows.len() - 1), width, level) + render_row(
            rows[rows.len() - 1]@,
            width,
            level,
        ) + " \\\\\n"@
    }
}

/// The first `n` cells of a table row, separated by `&`; a cell past the end
/// of `cells` is empty.
pub open spec fn render_row(cells: Seq<Element>, n: nat, level: nat) -> Seq<char>
    decreases cells, n,
{
    if n == 0 {
        Seq::empty()
    } else {
        let cell = if n - 1 < cells.len() {
            render_element(cells[n - 1], level)
        } else {
            Seq::empty()
        };
        if n == 1 {
            cell
        } else {
            render_row(cells, (n - 1) as nat, level) + " & "@ + cell
        }
    }
}

/// The markup for the section `s` at nesting level `level`: its header, then
/// its elements one level deeper.
pub open spec fn render_section(s: Section, level: nat) -> Seq<char>
    decreases s, 0nat,
{
    proof {
        s.lemma_elements_decrease();
    }
    section_header(s@.name, s@.numbered, level) + render_all(s@.elements, nested(level))
}

/// Appends the markup for `e` at nesting level `level`.
pub(crate) fn write_element(e: &Element, level: usize, out: &mut String)
    requires
        level <= DEEPEST_LEVEL,
    ensures
        final(out)@ == old(out)@ + render_element(*e, level as nat),
    decreases e, 0nat,
{
    match e {
        Element::Text(s) => write_escaped(s.as_str(), out),
        Element::Paragraph(items) => {
            write_all(items, level, out);
            out.append("\n\n");
        },
        Element::List { ordered, items } => {
            let env = list_environment_name(*ordered);
            write_begin(env, out);
            write_items(items, level, out);
            write_end(env, out);
        },
        Element::Table(rows) => {
            let width = table_width_of(rows);
            out.append("\\begin{tabular}{");
            write_column_spec(width, out);
            out.append("}\n");
            write_rows(rows, width, level, out);
            out.append("\\end{tabular}\n");
        },
        Element::Environment { name, body } => {
            write_begin(name.as_str(), out);
            write_all(body, level, out);
            write_end(name.as_str(), out);
        },
        Element::Section(s) => s.write_to(level, out),
        Element::Verbatim(s) => out.append(s.as_str()),
    }
}

/// Appends the markup for each of `es`, in order.
pub(crate) fn write_all(es: &Vec<Element>, level: usize, out: &mut String)
    requires
        level <= DEEPEST_LEVEL,
    ensures
        final(out)@ == old(out)@ + render_all(es@, level as nat),
    decreases es, 0nat,
{
    let ghost start = out@;
    let mut i: usize = 0;
    while i < es.len()
        invariant
            i <= es@.len(),
            level <= DEEPEST_LEVEL,
            out@ == start + render_all(es@.subrange(0, i as int), level as nat),
        decreases es@.len() - i,
    {
        write_element(&es[i], level, out);
        assert(es@.subrange(0, i + 1).subrange(0, i as int) =~= es@.subrange(0, i as int));
        i += 1;
    }
    assert(es@.subrange(0, es@.len() as int) =~= es@);
}

/// Appends the items of a list, each on an `\item` line.
fn write_items(items: &Vec<Element>, level: usize, out: &mut String)
    requires
        level <= DEEPEST_LEVEL,
    ensures
        final(out)@ == old(out)@ + render_items(items@, level as nat),
    decreases items, 0nat,
{
    let ghost start = out@;
    let mut i: usize = 0;
    while i < items.len()
        invariant
            i <= items@.len(),
            level <= DEEPEST_LEVEL,
            out@ == start + render_items(items@.subrange(0, i as int), level as nat),
        decreases items@.len() - i,
    {
        out.append("\\item ");
        write_element(&items[i], level, out);
        out.append("\n");
        assert(items@.subrange(0, i + 1).subrange(0, i as int) =~= items@.subrange(0, i as int));
        i += 1;
    }
    assert(items@.subrange(0, items@.len() as int) =~= items@);
}

/// The number of cells in the widest row of a table.
fn table_width_of(rows: &Vec<Vec<Element>>) -> (r: usize)
    ensures
        r == table_width(rows@),
{
    let mut width: usize = 0;
    let mut i: usize = 0;
    while i < rows.len()
        invariant
            i <= rows@.len(),
            width == table_width(rows@.subrange(0, i as int)),
        decreases rows@.len() - i,
    {
        assert(rows@.subrange(0, i + 1).drop_last() =~= rows@.subrange(0, i as int));
        if rows[i].len() > width {
            width = rows[i].len();
        }
        i += 1;
    }
    assert(rows@.subrange(0, rows@.len() as int) =~= rows@);
    width
}

/// Appends the column specification of a table of `width` columns.
fn write_column_spec(width: usize, out: &mut String)
    ensures
        final(out)@ == old(out)@ + column_spec(width as nat),
{
    let ghost start = out@;
    let mut i: usize = 0;
    while i < width
        invariant
            i <= width,
            out@ == start + column_spec(i as nat),
        decreases width - i,
    {
        out.push('l');
        assert(column_spec((i + 1) as nat) =~= column_spec(i as nat).push('l'));
        i += 1;
    }
}

/// Appends the rows of a table, each padded to `width` cells.
fn write_rows(rows: &Vec<Vec<Element>>, width: usize, level: usize, out: &mut String)
    requires
        level <= DEEPEST_LEVEL,
    ensures
        final(out)@ == old(out)@ + render_rows(rows@, width as nat, level as nat),
    decreases rows, 0nat,
{
    let ghost start = out@;
    let mut i: usize = 0;
    while i < rows.len()
        invariant
            i <= rows@.len(),
            level <= DEEPEST_LEVEL,
            out@ == start + render_rows(rows@.subrange(0, i as int), width as nat, level as nat),
        decreases rows@.len() - i,
    {
        write_row(&rows[i], width, level, out);
        out.append(" \\\\\n");
        assert(rows@.subrange(0, i + 1).subrange(0, i as int) =~= rows@.subrange(0, i as int));
        i += 1;
    }
    assert(rows@.subrange(0, rows@.len() as int) =~= rows@);
}

/// Appends one row of a table: `width` cells separated by `&`, the cells past
/// the end of `cells` left empty.
fn write_row(cells: &Vec<Element>, width: usize, level: usize, out: &mut String)
    requires
        level <= DEEPEST_LEVEL,
    ensures
        final(out)@ == old(out)@ + render_row(cells@, width as nat, level as nat),
    decreases cells, 0nat,
{
    let ghost start = out@;
    let mut j: usize = 0;
    while j < width
        invariant
            j <= width,
            level <= DEEPEST_LEVEL,
            out@ == start + render_row(cells@, j as nat, level as nat),
        decreases width - j,
    {
        if j > 0 {
            out.append(" & ");
        }
        if j < cells.len() {
            write_element(&cells[j], level, out);
        }
        j += 1;
    }
}

} // verus!
