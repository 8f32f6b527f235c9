//! The target markup in one place: which characters are escaped and how, and
//! the commands that open sections and environments.
use vstd::prelude::*;

verus! {

/// Relies on std's `String::push`, which appends one character at the end.
pub assume_specification[ String::push ](s: &mut String, ch: char)
    ensures
        final(s)@ == old(s)@.push(ch),
;

/// Whether `c` has a meaning of its own in the markup, so that text holding it
/// must carry it escaped.
pub open spec fn is_special(c: char) -> bool {
    c == '\\' || c == '{' || c == '}' || c == '$' || c == '&' || c == '#' || c == '%' || c == '_'
        || c == '~' || c == '^'
}

/// What the character `c` of user text becomes in the output.
pub open spec fn escape_char(c: char) -> Seq<char> {
    if c == '\\' {
        "\\textbackslash{}"@
    } else if c == '~' {
        "\\textasciitilde{}"@
    } else if c == '^' {
        "\\textasciicircum{}"@
    } else if c == '{' {
        "\\{"@
    } else if c == '}' {
        "\\}"@
    } else if c == '$' {
        "\\$"@
    } else if c == '&' {
        "\\&"@
    } else if c == '#' {
        "\\#"@
    } else if c == '%' {
        "\\%"@
    } else if c == '_' {
        "\\_"@
    } else {
        seq![c]
    }
}

/// User text `s` with each character escaped.
pub open spec fn escape(s: Seq<char>) -> Seq<char>
    decreases s.len(),
{
    if s.len() == 0 {
        Seq::empty()
    } else {
        escape(s.drop_last()) + escape_char(s.last())
    }
}

/// Appends `c` to `out`, escaped.
pub fn write_escaped_char(c: char, out: &mut String)
    ensures
        final(out)@ == old(out)@ + escape_char(c),
{
    match c {
        '\\' => out.append("\\textbackslash{}"),
        '~' => out.append("\\textasciitilde{}"),
        '^' => out.append("\\textasciicircum{}"),
        '{' => out.append("\\{"),
        '}' => out.append("\\}"),
        '$' => out.append("\\$"),
        '&' => out.append("\\&"),
        '#' => out.append("\\#"),
        '%' => out.append("\\%"),
        '_' => out.append("\\_"),
        _ => {
            out.push(c);
            assert(old(out)@.push(c) =~= old(out)@ + seq![c]);
        },
    }
}

/// Appends the text `s` to `out`, escaped.
pub fn write_escaped(s: &str, out: &mut String)
    ensures
        final(out)@ == old(out)@ + escape(s@),
{
    broadcast use vstd::string::axiom_spec_iter;

    let ghost start = out@;
    for c in it: s.chars()
        invariant
            it.seq() == s@,
            out@ == start + escape(s@.take(it.index())),
    {
        let ghost i = it.index();
        write_escaped_char(c, out);
        assert(s@.take(i + 1).drop_last() =~= s@.take(i));
    }
    assert(s@.take(s@.len() as int) =~= s@);
}

/// The deepest nesting level that has a sectioning command of its own; deeper
/// sections use that command too.
pub const DEEPEST_LEVEL: usize = 2;

/// The nesting level of a section's subsections.
pub open spec fn nested(level: nat) -> nat {
    if level < DEEPEST_LEVEL {
        level + 1
    } else {
        DEEPEST_LEVEL as nat
    }
}

/// The sectioning command for a section at nesting level `level`.
pub open spec fn sectioning_command(level: nat) -> Seq<char> {
    if level == 0 {
        "\\section"@
    } else if level == 1 {
        "\\subsection"@
    } else {
        "\\subsubsection"@
    }
}

/// The line that opens a section: the starred command where it is unnumbered.
pub open spec fn section_header(name: Seq<char>, numbered: bool, level: nat) -> Seq<char> {
    sectioning_command(level) + (if numbered {
        "{"@
    } else {
        "*{"@
    }) + escape(name) + "}\n"@
}

/// The environment that holds a list.
pub open spec fn list_environment(ordered: bool) -> Seq<char> {
    if ordered {
        "enumerate"@
    } else {
        "itemize"@
    }
}

/// The line that opens the environment `name`.
pub open spec fn begin_environment(name: Seq<char>) -> Seq<char> {
    "\\begin{"@ + name + "}\n"@
}

/// The line that closes the environment `name`.
pub open spec fn end_environment(name: Seq<char>) -> Seq<char> {
    "\\end{"@ + name + "}\n"@
}

/// The nesting level of the subsections of a section at `level`.
pub fn nested_level(level: usize) -> (r: usize)
    requires
        level <= DEEPEST_LEVEL,
    ensures
        r == nested(level as nat),
        r <= DEEPEST_LEVEL,
{
    if level < DEEPEST_LEVEL {
        level + 1
    } else {
        DEEPEST_LEVEL
    }
}

/// Appends the line that opens a section.
pub fn write_section_header(name: &str, numbered: bool, level: usize, out: &mut String)
    ensures
        final(out)@ == old(out)@ + section_header(name@, numbered, level as nat),
{
    if level == 0 {
        out.append("\\section");
    } else if level == 1 {
        out.append("\\subsection");
    } else {
        out.append("\\subsubsection");
    }
    if numbered {
        out.append("{");
    } else {
        out.append("*{");
    }
    write_escaped(name, out);
    out.append("}\n");
}

/// Appends the line that opens the environment `name`.
pub fn write_begin(name: &str, out: &mut String)
    ensures
        final(out)@ == old(out)@ + begin_environment(name@),
{
    out.append("\\begin{");
    out.append(name);
    out.append("}\n");
}

/// Appends the line that closes the environment `name`.
pub fn write_end(name: &str, out: &mut String)
    ensures
        final(out)@ == old(out)@ + end_environment(name@),
{
    out.append("\\end{");
    out.append(name);
    out.append("}\n");
}

/// The name of the environment that holds a list.
pub fn list_environment_name(ordered: bool) -> (r: &'static str)
    ensures
        r@ == list_environment(ordered),
{
    if ordered {
        "enumerate"
    } else {
        "itemize"
    }
}

} // verus!
