use vstd::prelude::*;
use crate::definition::{DefinitionView, HighlightDefinition, definition_of};
use crate::document::{Node, node_get};
use crate::error::{ThemeError, ThemeFault};
use crate::palette::Palette;

verus! {

/// `, <name> = true` when the attribute is set to `true`, nothing otherwise.
pub open spec fn flag_text(v: Option<bool>, name: Seq<char>) -> Seq<char> {
    if v == Some(true) {
        ", "@ + name + " = true"@
    } else {
        Seq::empty()
    }
}

/// The `fg` field, then `bg` when there is one.
pub open spec fn color_text(d: DefinitionView) -> Seq<char> {
    "fg = '"@ + d.fg + "'"@ + match d.bg {
        Some(b) => ", bg = '"@ + b + "'"@,
        None => Seq::empty(),
    }
}

/// The fields of the attribute table: the colors, then each boolean
/// attribute that is `true`, in a fixed order.
pub open spec fn attribute_text(d: DefinitionView) -> Seq<char> {
    color_text(d) + flag_text(d.bold, "bold"@) + flag_text(d.italic, "italic"@) + flag_text(
        d.undercurl,
        "undercurl"@,
    ) + flag_text(d.underline, "underline"@) + flag_text(d.strikethrough, "strikethrough"@)
        + flag_text(d.reverse, "reverse"@) + flag_text(d.nocombine, "nocombine"@)
}

/// The Lua statement that gives the group `name` the attributes `d`.
pub open spec fn statement(name: Seq<char>, d: DefinitionView) -> Seq<char> {
    "vim.api.nvim_set_hl(0, '"@ + name + "', { "@ + attribute_text(d) + " })"@
}

/// A named highlight group and its definition.
#[derive(Debug, Clone)]
pub struct Highlight {
    pub name: String,
    pub val: HighlightDefinition,
}

fn append_flag(s: &mut String, v: Option<bool>, name: &str)
    ensures
        final(s)@ == old(s)@ + flag_text(v, name@),
{
    match v {
        Some(true) => {
            s.append(", ");
            s.append(name);
            s.append(" = true");
        },
        _ => {},
    }
}

impl Highlight {
    pub fn new(name: String, val: HighlightDefinition) -> (r: Highlight)
        ensures
            r.name == name,
            r.val == val,
    {
        Highlight { name, val }
    }

    /// The `vim.api.nvim_set_hl` call for this group, with the boolean
    /// attributes that are not `true` left out.
    pub fn write_string_lua(&self) -> (r: String)
        ensures
            r@ == statement(self.name@, self.val@),
    {
        let mut s = String::from_str("vim.api.nvim_set_hl(0, '");
        s.append(self.name.as_str());
        s.append("', { ");
        s.append("fg = '");
        s.append(self.val.fg.as_str());
        s.append("'");
        match &self.val.bg {
            Some(b) => {
                s.append(", bg = '");
                s.append(b.as_str());
                s.append("'");
            },
            None => {},
        }
        append_flag(&mut s, self.val.bold, "bold");
        append_flag(&mut s, self.val.italic, "italic");
        append_flag(&mut s, self.val.undercurl, "undercurl");
        append_flag(&mut s, self.val.underline, "underline");
        append_flag(&mut s, self.val.strikethrough, "strikethrough");
        append_flag(&mut s, self.val.reverse, "reverse");
        append_flag(&mut s, self.val.nocombine, "nocombine");
        s.append(" })");
        assert(s@ =~= statement(self.name@, self.val@));
        s
    }
}

/// Reads the groups of a `highlights` table after those in `acc`, in order;
/// each must be a table of attributes.
pub open spec fn groups_from(
    acc: Seq<(Seq<char>, DefinitionView)>,
    entries: Seq<(String, Node)>,
    palette: Map<Seq<char>, Seq<char>>,
) -> Result<Seq<(Seq<char>, DefinitionView)>, ThemeFault>
    decreases entries.len(),
{
    if entries.len() == 0 {
        Ok(acc)
    } else {
        match entries[0].1 {
            Node::Table(t) => match definition_of(t@, palette) {
                Ok(d) => groups_from(acc.push((entries[0].0@, d)), entries.drop_first(), palette),
                Err(e) => Err(e),
            },
            _ => Err(ThemeFault::WrongShape(entries[0].0@)),
        }
    }
}

/// The highlight groups that a document defines in its `highlights` section.
pub open spec fn highlights_of(doc: Node, palette: Map<Seq<char>, Seq<char>>) -> Result<
    Seq<(Seq<char>, DefinitionView)>,
    ThemeFault,
> {
    match node_get(doc, "highlights"@) {
        None => Err(ThemeFault::MissingSection("highlights"@)),
        Some(Node::Table(entries)) => groups_from(Seq::empty(), entries@, palette),
        Some(_) => Err(ThemeFault::WrongShape("highlights"@)),
    }
}

/// The highlight groups of a theme, in the order the document declares them.
#[derive(Debug, Clone)]
pub struct Highlights {
    pub inner: Vec<Highlight>,
}

impl View for Highlights {
    type V = Seq<(Seq<char>, DefinitionView)>;

    open spec fn view(&self) -> Seq<(Seq<char>, DefinitionView)> {
        self.inner@.map_values(|h: Highlight| (h.name@, h.val@))
    }
}

impl Highlights {
    pub fn new() -> (r: Highlights)
        ensures
            r@ == Seq::<(Seq<char>, DefinitionView)>::empty(),
    {
        let r = Highlights { inner: Vec::new() };
        assert(r@ =~= Seq::<(Seq<char>, DefinitionView)>::empty());
        r
    }

    pub fn push(&mut self, hl: Highlight)
        ensures
            final(self).inner@ == old(self).inner@.push(hl),
            final(self)@ == old(self)@.push((hl.name@, hl.val@)),
    {
        self.inner.push(hl);
        assert(self@ =~= old(self)@.push((hl.name@, hl.val@)));
    }

    /// Reads the `highlights` section of a document, resolving symbolic
    /// foregrounds through `palette`.
    pub fn set(doc: &Node, palette: &Palette) -> (r: Result<Highlights, ThemeError>)
        requires
            palette.wf(),
        ensures
            match r {
                Ok(h) => highlights_of(*doc, palette@) == Ok::<_, ThemeFault>(h@),
                Err(e) => highlights_of(*doc, palette@) == Err::<Seq<(Seq<char>, DefinitionView)>, _>(e@),
            },
    {
        match doc.get("highlights") {
            None => Err(ThemeError::MissingSection(String::from_str("highlights"))),
            Some(Node::Table(entries)) => {
                let mut highlights = Highlights::new();
                let mut i: usize = 0;
                assert(entries@.subrange(0, entries@.len() as int) =~= entries@);
                while i < entries.len()
                    invariant
                        0 <= i <= entries@.len(),
                        palette.wf(),
                        highlights_of(*doc, palette@) == groups_from(
                            highlights@,
                            entries@.subrange(i as int, entries@.len() as int),
                            palette@,
                        ),
                    decreases entries@.len() - i,
                {
                    let ghost rest = entries@.subrange(i as int, entries@.len() as int);
                    assert(rest.drop_first() =~= entries@.subrange(i + 1, entries@.len() as int));
                    assert(rest[0] == entries@[i as int]);
                    match &entries[i].1 {
                        Node::Table(t) => {
                            let d = HighlightDefinition::from_map(t, palette)?;
                            highlights.push(Highlight::new(entries[i].0.clone(), d));
                        },
                        _ => {
                            return Err(ThemeError::WrongShape(entries[i].0.clone()));
                        },
                    }
                    i = i + 1;
                }
                Ok(highlights)
            },
            Some(_) => Err(ThemeError::WrongShape(String::from_str("highlights"))),
        }
    }

    /// One statement per group, in order.
    pub fn write_string_lua(&self) -> (r: Vec<String>)
        ensures
            r@.len() == self@.len(),
            forall|i: int| 0 <= i < r@.len() ==> #[trigger] r@[i]@ == statement(self@[i].0, self@[i].1),
    {
        let mut r: Vec<String> = Vec::new();
        let mut i: usize = 0;
        while i < self.inner.len()
            invariant
                0 <= i <= self.inner@.len(),
                r@.len() == i,
                forall|j: int| 0 <= j < i ==> #[trigger] r@[j]@ == statement(self@[j].0, self@[j].1),
            decreases self.inner@.len() - i,
        {
            r.push(self.inner[i].write_string_lua());
            i = i + 1;
        }
        r
    }
}

} // verus!
