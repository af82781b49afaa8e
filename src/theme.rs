use vstd::prelude::*;
use crate::definition::{Attribute, DefinitionView, flag};
use crate::document::{Node, parse_document, toml_document, node_get};
use crate::error::{ThemeError, ThemeFault};
use crate::highlight::{Highlights, color_text, groups_from, highlights_of, statement};
use crate::palette::{Palette, palette_of};

verus! {

/// The statements that a document compiles to: the palette is read first,
/// then the highlight groups, and the first failure is the result.
pub open spec fn theme_of(doc: Node) -> Result<Seq<Seq<char>>, ThemeFault> {
    match palette_of(doc) {
        Err(e) => Err(e),
        Ok(p) => match highlights_of(doc, p) {
            Err(e) => Err(e),
            Ok(groups) => Ok(groups.map_values(|g: (Seq<char>, DefinitionView)| statement(g.0, g.1))),
        },
    }
}

pub open spec fn lines_view(lines: Seq<String>) -> Seq<Seq<char>> {
    lines.map_values(|l: String| l@)
}

/// Compiles a parsed theme document into one statement per highlight group.
pub fn compile_document(doc: &Node) -> (r: Result<Vec<String>, ThemeError>)
    ensures
        match r {
            Ok(lines) => theme_of(*doc) == Ok::<_, ThemeFault>(lines_view(lines@)),
            Err(e) => theme_of(*doc) == Err::<Seq<Seq<char>>, _>(e@),
        },
{
    let palette = Palette::set(doc)?;
    let highlights = Highlights::set(doc, &palette)?;
    let lines = highlights.write_string_lua();
    assert(lines_view(lines@) =~= highlights@.map_values(
        |g: (Seq<char>, DefinitionView)| statement(g.0, g.1),
    ));
    Ok(lines)
}

/// Compiles the text of a theme into one statement per highlight group.
pub fn compile_theme(text: &str) -> (r: Result<Vec<String>, ThemeError>)
    ensures
        match toml_document(text@) {
            None => r matches Err(e) && e@ == ThemeFault::MalformedDocument,
            Some(doc) => match r {
                Ok(lines) => theme_of(doc) == Ok::<_, ThemeFault>(lines_view(lines@)),
                Err(e) => theme_of(doc) == Err::<Seq<Seq<char>>, _>(e@),
            },
        },
{
    let doc = parse_document(text)?;
    compile_document(&doc)
}

proof fn lemma_groups_in_order(
    acc: Seq<(Seq<char>, DefinitionView)>,
    entries: Seq<(String, Node)>,
    palette: Map<Seq<char>, Seq<char>>,
)
    requires
        groups_from(acc, entries, palette) is Ok,
    ensures
        ({
            let groups = groups_from(acc, entries, palette)->Ok_0;
            &&& groups.len() == acc.len() + entries.len()
            &&& forall|i: int| 0 <= i < acc.len() ==> groups[i] == acc[i]
            &&& forall|i: int|
                0 <= i < entries.len() ==> groups[acc.len() + i].0 == #[trigger] entries[i].0@
        }),
    decreases entries.len(),
{
    if entries.len() > 0 {
        match entries[0].1 {
            Node::Table(t) => {
                let d = crate::definition::definition_of(t@, palette)->Ok_0;
                let acc2 = acc.push((entries[0].0@, d));
                lemma_groups_in_order(acc2, entries.drop_first(), palette);
                let groups = groups_from(acc, entries, palette)->Ok_0;
                assert forall|i: int| 0 <= i < entries.len() implies groups[acc.len() + i].0
                    == #[trigger] entries[i].0@ by {
                    if i > 0 {
                        assert(entries.drop_first()[i - 1] == entries[i]);
                    }
                }
            },
            _ => {},
        }
    }
}

/// The names of the groups that the `highlights` table declares, in order.
pub open spec fn declared_groups(doc: Node) -> Seq<Seq<char>> {
    match node_get(doc, "highlights"@) {
        Some(Node::Table(entries)) => entries@.map_values(|e: (String, Node)| e.0@),
        _ => Seq::empty(),
    }
}

/// Order is kept: when a document compiles, its statements correspond one
/// for one, in order, to the groups that its `highlights` table declares;
/// the i-th statement sets the i-th declared group to the i-th definition.
pub proof fn lemma_declaration_order(doc: Node)
    requires
        theme_of(doc) is Ok,
    ensures
        ({
            let lines = theme_of(doc)->Ok_0;
            let names = declared_groups(doc);
            let groups = highlights_of(doc, palette_of(doc)->Ok_0)->Ok_0;
            &&& lines.len() == names.len()
            &&& groups.len() == names.len()
            &&& forall|i: int|
                0 <= i < lines.len() ==> groups[i].0 == names[i] && #[trigger] lines[i]
                    == statement(names[i], groups[i].1)
        }),
{
    let p = palette_of(doc)->Ok_0;
    let entries = match node_get(doc, "highlights"@) {
        Some(Node::Table(entries)) => entries@,
        _ => Seq::empty(),
    };
    lemma_groups_in_order(Seq::empty(), entries, p);
    let groups = highlights_of(doc, p)->Ok_0;
    let lines = theme_of(doc)->Ok_0;
    let names = declared_groups(doc);
    assert forall|i: int| 0 <= i < lines.len() implies groups[i].0 == names[i] && #[trigger] lines[i]
        == statement(names[i], groups[i].1) by {
        assert(groups[0 + i].0 == entries[i].0@);
    }
}

/// The text that every statement starts with, before the attribute fields.
pub open spec fn statement_head(name: Seq<char>) -> Seq<char> {
    "vim.api.nvim_set_hl(0, '"@ + name + "', { "@
}

/// The key of a boolean attribute in a statement.
pub open spec fn flag_name(a: Attribute) -> Seq<char> {
    match a {
        Attribute::Bold => "bold"@,
        Attribute::Italic => "italic"@,
        Attribute::Undercurl => "undercurl"@,
        Attribute::Underline => "underline"@,
        Attribute::Strikethrough => "strikethrough"@,
        Attribute::Reverse => "reverse"@,
        Attribute::Nocombine => "nocombine"@,
        _ => Seq::empty(),
    }
}

/// A definition none of whose boolean attributes is `true` renders the
/// colors alone: no boolean attribute appears in its statement.
pub proof fn lemma_no_flags(name: Seq<char>, d: DefinitionView)
    requires
        forall|a: Attribute| a.is_flag() ==> #[trigger] flag(d, a) != Some(true),
    ensures
        statement(name, d) == statement_head(name) + color_text(d) + " })"@,
{
    assert(flag(d, Attribute::Bold) != Some(true));
    assert(flag(d, Attribute::Italic) != Some(true));
    assert(flag(d, Attribute::Undercurl) != Some(true));
    assert(flag(d, Attribute::Underline) != Some(true));
    assert(flag(d, Attribute::Strikethrough) != Some(true));
    assert(flag(d, Attribute::Reverse) != Some(true));
    assert(flag(d, Attribute::Nocombine) != Some(true));
    assert(statement(name, d) =~= statement_head(name) + color_text(d) + " })"@);
}

/// A definition with exactly one boolean attribute `true` renders the colors
/// and then that attribute alone, each field after the first preceded by one
/// `, ` and nothing between the last field and the closing ` })`.
pub proof fn lemma_single_flag(name: Seq<char>, d: DefinitionView, a: Attribute)
    requires
        a.is_flag(),
        flag(d, a) == Some(true),
        forall|b: Attribute| b.is_flag() && b != a ==> #[trigger] flag(d, b) != Some(true),
    ensures
        statement(name, d) == statement_head(name) + color_text(d) + ", "@ + flag_name(a)
            + " = true"@ + " })"@,
{
    assert(Attribute::Bold != a ==> flag(d, Attribute::Bold) != Some(true));
    assert(Attribute::Italic != a ==> flag(d, Attribute::Italic) != Some(true));
    assert(Attribute::Undercurl != a ==> flag(d, Attribute::Undercurl) != Some(true));
    assert(Attribute::Underline != a ==> flag(d, Attribute::Underline) != Some(true));
    assert(Attribute::Strikethrough != a ==> flag(d, Attribute::Strikethrough) != Some(true));
    assert(Attribute::Reverse != a ==> flag(d, Attribute::Reverse) != Some(true));
    assert(Attribute::Nocombine != a ==> flag(d, Attribute::Nocombine) != Some(true));
    assert(statement(name, d) =~= statement_head(name) + color_text(d) + ", "@ + flag_name(a)
        + " = true"@ + " })"@);
}

} // verus!
