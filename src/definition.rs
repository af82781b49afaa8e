use vstd::prelude::*;
use crate::document::Node;
use crate::error::{ThemeError, ThemeFault};
use crate::palette::Palette;

verus! {

/// The keys that a highlight definition may hold.
#[derive(Debug, Clone, Copy, PartialEq, Eq, Structural)]
pub enum Attribute {
    Foreground,
    Background,
    Bold,
    Italic,
    Undercurl,
    Underline,
    Strikethrough,
    Reverse,
    Nocombine,
}

/// The attribute that a key names: `fg` and `foreground` are one attribute,
/// as are `bg` and `background`.
pub open spec fn attribute_of(key: Seq<char>) -> Option<Attribute> {
    if key == "fg"@ || key == "foreground"@ {
        Some(Attribute::Foreground)
    } else if key == "bg"@ || key == "background"@ {
        Some(Attribute::Background)
    } else if key == "bold"@ {
        Some(Attribute::Bold)
    } else if key == "italic"@ {
        Some(Attribute::Italic)
    } else if key == "undercurl"@ {
        Some(Attribute::Undercurl)
    } else if key == "underline"@ {
        Some(Attribute::Underline)
    } else if key == "strikethrough"@ {
        Some(Attribute::Strikethrough)
    } else if key == "reverse"@ {
        Some(Attribute::Reverse)
    } else if key == "nocombine"@ {
        Some(Attribute::Nocombine)
    } else {
        None
    }
}

impl Attribute {
    pub open spec fn is_flag(self) -> bool {
        self != Attribute::Foreground && self != Attribute::Background
    }

    /// Recognizes an attribute key.
    pub fn parse(key: &String) -> (r: Option<Attribute>)
        ensures
            r == attribute_of(key@),
    {
        if *key == String::from_str("fg") || *key == String::from_str("foreground") {
            Some(Attribute::Foreground)
        } else if *key == String::from_str("bg") || *key == String::from_str("background") {
            Some(Attribute::Background)
        } else if *key == String::from_str("bold") {
            Some(Attribute::Bold)
        } else if *key == String::from_str("italic") {
            Some(Attribute::Italic)
        } else if *key == String::from_str("undercurl") {
            Some(Attribute::Undercurl)
        } else if *key == String::from_str("underline") {
            Some(Attribute::Underline)
        } else if *key == String::from_str("strikethrough") {
            Some(Attribute::Strikethrough)
        } else if *key == String::from_str("reverse") {
            Some(Attribute::Reverse)
        } else if *key == String::from_str("nocombine") {
            Some(Attribute::Nocombine)
        } else {
            None
        }
    }
}

/// The visual attributes of one highlight group.
#[derive(Debug, Clone)]
pub struct HighlightDefinition {
    pub fg: String,
    pub bg: Option<String>,
    pub bold: Option<bool>,
    pub italic: Option<bool>,
    pub undercurl: Option<bool>,
    pub underline: Option<bool>,
    pub strikethrough: Option<bool>,
    pub reverse: Option<bool>,
    pub nocombine: Option<bool>,
}

/// The mathematical form of a `HighlightDefinition`.
pub struct DefinitionView {
    pub fg: Seq<char>,
    pub bg: Option<Seq<char>>,
    pub bold: Option<bool>,
    pub italic: Option<bool>,
    pub undercurl: Option<bool>,
    pub underline: Option<bool>,
    pub strikethrough: Option<bool>,
    pub reverse: Option<bool>,
    pub nocombine: Option<bool>,
}

impl View for HighlightDefinition {
    type V = DefinitionView;

    open spec fn view(&self) -> DefinitionView {
        DefinitionView {
            fg: self.fg@,
            bg: match self.bg {
                Some(b) => Some(b@),
                None => None,
            },
            bold: self.bold,
            italic: self.italic,
            undercurl: self.undercurl,
            underline: self.underline,
            strikethrough: self.strikethrough,
            reverse: self.reverse,
            nocombine: self.nocombine,
        }
    }
}

/// A definition before any attribute has been read.
pub open spec fn blank_definition() -> DefinitionView {
    DefinitionView {
        fg: Seq::empty(),
        bg: None,
        bold: None,
        italic: None,
        undercurl: None,
        underline: None,
        strikethrough: None,
        reverse: None,
        nocombine: None,
    }
}

/// The value of a boolean attribute in `d`.
pub open spec fn flag(d: DefinitionView, a: Attribute) -> Option<bool> {
    match a {
        Attribute::Bold => d.bold,
        Attribute::Italic => d.italic,
        Attribute::Undercurl => d.undercurl,
        Attribute::Underline => d.underline,
        Attribute::Strikethrough => d.strikethrough,
        Attribute::Reverse => d.reverse,
        Attribute::Nocombine => d.nocombine,
        _ => None,
    }
}

/// `d` with the boolean attribute `a` set to `b`.
pub open spec fn with_flag(d: DefinitionView, a: Attribute, b: bool) -> DefinitionView {
    match a {
        Attribute::Bold => DefinitionView { bold: Some(b), ..d },
        Attribute::Italic => DefinitionView { italic: Some(b), ..d },
        Attribute::Undercurl => DefinitionView { undercurl: Some(b), ..d },
        Attribute::Underline => DefinitionView { underline: Some(b), ..d },
        Attribute::Strikethrough => DefinitionView { strikethrough: Some(b), ..d },
        Attribute::Reverse => DefinitionView { reverse: Some(b), ..d },
        Attribute::Nocombine => DefinitionView { nocombine: Some(b), ..d },
        _ => d,
    }
}

/// A color given as text, used as it stands.
pub open spec fn is_literal_color(c: Seq<char>) -> bool {
    c.len() > 0 && c[0] == '#'
}

/// The foreground color that `c` denotes: a literal color itself, otherwise
/// the palette's color of that name.
pub open spec fn resolved_color(c: Seq<char>, palette: Map<Seq<char>, Seq<char>>) -> Result<
    Seq<char>,
    ThemeFault,
> {
    if is_literal_color(c) {
        Ok(c)
    } else if palette.contains_key(c) {
        Ok(palette[c])
    } else {
        Err(ThemeFault::UnresolvedPaletteReference(c))
    }
}

/// Reads one `key = value` entry of a definition into `d`.
pub open spec fn apply_entry(
    d: DefinitionView,
    key: Seq<char>,
    v: Node,
    palette: Map<Seq<char>, Seq<char>>,
) -> Result<DefinitionView, ThemeFault> {
    match attribute_of(key) {
        None => Err(ThemeFault::UnknownAttribute(key)),
        Some(Attribute::Foreground) => match v {
            Node::Str(c) => match resolved_color(c@, palette) {
                Ok(f) => Ok(DefinitionView { fg: f, ..d }),
                Err(e) => Err(e),
            },
            _ => Err(ThemeFault::WrongAttributeType(key)),
        },
        Some(Attribute::Background) => match v {
            Node::Str(c) => Ok(DefinitionView { bg: Some(c@), ..d }),
            _ => Err(ThemeFault::WrongAttributeType(key)),
        },
        Some(a) => match v {
            Node::Bool(b) => Ok(with_flag(d, a, b)),
            _ => Err(ThemeFault::WrongAttributeType(key)),
        },
    }
}

/// Reads the entries of a definition into `d`, in order; the first bad entry
/// is the error.
pub open spec fn apply_entries(
    d: DefinitionView,
    entries: Seq<(String, Node)>,
    palette: Map<Seq<char>, Seq<char>>,
) -> Result<DefinitionView, ThemeFault>
    decreases entries.len(),
{
    if entries.len() == 0 {
        Ok(d)
    } else {
        match apply_entry(d, entries[0].0@, entries[0].1, palette) {
            Ok(d2) => apply_entries(d2, entries.drop_first(), palette),
            Err(e) => Err(e),
        }
    }
}

/// Some entry sets the foreground.
pub open spec fn has_foreground(entries: Seq<(String, Node)>) -> bool {
    exists|i: int| 0 <= i < entries.len() && attribute_of(#[trigger] entries[i].0@) == Some(Attribute::Foreground)
}

/// The definition that a table of attributes describes.
pub open spec fn definition_of(entries: Seq<(String, Node)>, palette: Map<Seq<char>, Seq<char>>) -> Result<
    DefinitionView,
    ThemeFault,
> {
    if !has_foreground(entries) {
        Err(ThemeFault::MissingForeground)
    } else {
        apply_entries(blank_definition(), entries, palette)
    }
}

/// Whether a string starts with `#`.
fn starts_with_hash(c: &String) -> (r: bool)
    ensures
        r == is_literal_color(c@),
{
    let s = c.as_str();
    s.unicode_len() > 0 && s.get_char(0) == '#'
}

/// Resolves a foreground color: a literal color (one that starts with `#`)
/// is kept as it is, whatever the palette holds; any other name is looked up
/// in the palette.
pub fn resolve_foreground(c: &String, palette: &Palette) -> (r: Result<String, ThemeError>)
    requires
        palette.wf(),
    ensures
        is_literal_color(c@) ==> (r matches Ok(s) && s@ == c@),
        !is_literal_color(c@) && palette@.contains_key(c@) ==> (r matches Ok(s) && s@ == palette@[c@]),
        !is_literal_color(c@) && !palette@.contains_key(c@) ==> (r matches Err(e) && e@
            == ThemeFault::UnresolvedPaletteReference(c@)),
{
    if starts_with_hash(c) {
        Ok(c.clone())
    } else {
        match palette.get(c) {
            Some(v) => Ok(v.clone()),
            None => Err(ThemeError::UnresolvedPaletteReference(c.clone())),
        }
    }
}

impl HighlightDefinition {
    pub fn blank() -> (r: HighlightDefinition)
        ensures
            r@ == blank_definition(),
    {
        HighlightDefinition {
            fg: String::new(),
            bg: None,
            bold: None,
            italic: None,
            undercurl: None,
            underline: None,
            strikethrough: None,
            reverse: None,
            nocombine: None,
        }
    }

    /// Sets the boolean attribute `a`.
    pub fn set_flag(&mut self, a: Attribute, b: bool)
        requires
            a.is_flag(),
        ensures
            final(self)@ == with_flag(old(self)@, a, b),
    {
        match a {
            Attribute::Bold => self.bold = Some(b),
            Attribute::Italic => self.italic = Some(b),
            Attribute::Undercurl => self.undercurl = Some(b),
            Attribute::Underline => self.underline = Some(b),
            Attribute::Strikethrough => self.strikethrough = Some(b),
            Attribute::Reverse => self.reverse = Some(b),
            Attribute::Nocombine => self.nocombine = Some(b),
            _ => {},
        }
    }

    /// Reads a table of attributes, resolving a symbolic foreground through
    /// `palette`. A table without `fg` or `foreground` is rejected before any
    /// entry is read; otherwise the entries are read in order and the first
    /// bad one is the error.
    pub fn from_map(tbl: &Vec<(String, Node)>, palette: &Palette) -> (r: Result<
        HighlightDefinition,
        ThemeError,
    >)
        requires
            palette.wf(),
        ensures
            match r {
                Ok(d) => definition_of(tbl@, palette@) == Ok::<_, ThemeFault>(d@),
                Err(e) => definition_of(tbl@, palette@) == Err::<DefinitionView, _>(e@),
            },
            !has_foreground(tbl@) ==> (r matches Err(e) && e@ == ThemeFault::MissingForeground),
    {
        let mut found = false;
        let mut i: usize = 0;
        while i < tbl.len()
            invariant
                0 <= i <= tbl@.len(),
                found == exists|j: int| 0 <= j < i && attribute_of(#[trigger] tbl@[j].0@) == Some(Attribute::Foreground),
            decreases tbl@.len() - i,
        {
            if Attribute::parse(&tbl[i].0) == Some(Attribute::Foreground) {
                found = true;
            }
            i = i + 1;
        }
        if !found {
            return Err(ThemeError::MissingForeground);
        }
        let mut definition = HighlightDefinition::blank();
        let mut i: usize = 0;
        assert(tbl@.subrange(0, tbl@.len() as int) =~= tbl@);
        while i < tbl.len()
            invariant
                0 <= i <= tbl@.len(),
                palette.wf(),
                has_foreground(tbl@),
                definition_of(tbl@, palette@) == apply_entries(
                    definition@,
                    tbl@.subrange(i as int, tbl@.len() as int),
                    palette@,
                ),
            decreases tbl@.len() - i,
        {
            let ghost rest = tbl@.subrange(i as int, tbl@.len() as int);
            assert(rest.drop_first() =~= tbl@.subrange(i + 1, tbl@.len() as int));
            assert(rest[0] == tbl@[i as int]);
            let key = &tbl[i].0;
            let v = &tbl[i].1;
            match Attribute::parse(key) {
                None => {
                    return Err(ThemeError::UnknownAttribute(key.clone()));
                },
                Some(Attribute::Foreground) => match v {
                    Node::Str(c) => {
                        definition.fg = resolve_foreground(c, palette)?;
                    },
                    _ => {
                        return Err(ThemeError::WrongAttributeType(key.clone()));
                    },
                },
                Some(Attribute::Background) => match v {
                    Node::Str(c) => {
                        definition.bg = Some(c.clone());
                    },
                    _ => {
                        return Err(ThemeError::WrongAttributeType(key.clone()));
                    },
                },
                Some(a) => match v {
                    Node::Bool(b) => {
                        definition.set_flag(a, *b);
                    },
                    _ => {
                        return Err(ThemeError::WrongAttributeType(key.clone()));
                    },
                },
            }
            i = i + 1;
        }
        Ok(definition)
    }
}

} // verus!
