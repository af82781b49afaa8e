use colorscheme::definition::{resolve_foreground, Attribute, HighlightDefinition};
use colorscheme::document::{parse_document, Node};
use colorscheme::error::ThemeError;
use colorscheme::highlight::{Highlight, Highlights};
use colorscheme::palette::Palette;
use colorscheme::theme::{compile_document, compile_theme};

fn s(x: &str) -> String {
    x.to_string()
}

fn palette_red() -> Palette {
    let mut p = Palette::new();
    p.insert(s("red"), s("#ff0000"));
    p
}

fn table(entries: Vec<(&str, Node)>) -> Vec<(String, Node)> {
    entries.into_iter().map(|(k, v)| (s(k), v)).collect()
}

fn def(fg: &str) -> HighlightDefinition {
    let mut d = HighlightDefinition::blank();
    d.fg = s(fg);
    d
}

#[test]
fn literal_foreground_is_kept() {
    let mut p = palette_red();
    p.insert(s("#123456"), s("#abcdef"));
    assert_eq!(resolve_foreground(&s("#888888"), &p).unwrap(), "#888888");
    assert_eq!(resolve_foreground(&s("#123456"), &p).unwrap(), "#123456");
}

#[test]
fn symbolic_foreground_is_looked_up() {
    let p = palette_red();
    assert_eq!(resolve_foreground(&s("red"), &p).unwrap(), "#ff0000");
}

#[test]
fn unknown_palette_name_fails() {
    let p = palette_red();
    match resolve_foreground(&s("blue"), &p) {
        Err(ThemeError::UnresolvedPaletteReference(k)) => assert_eq!(k, "blue"),
        other => panic!("unexpected {:?}", other),
    }
    assert!(matches!(
        resolve_foreground(&s(""), &p),
        Err(ThemeError::UnresolvedPaletteReference(_))
    ));
}

#[test]
fn missing_foreground_fails() {
    let p = palette_red();
    let t = table(vec![
        ("bold", Node::Bool(true)),
        ("bg", Node::Str(s("#000000"))),
        ("italic", Node::Bool(false)),
    ]);
    assert!(matches!(
        HighlightDefinition::from_map(&t, &p),
        Err(ThemeError::MissingForeground)
    ));
    let t = table(vec![("bold", Node::Str(s("yes"))), ("undercurl", Node::Bool(true))]);
    assert!(matches!(
        HighlightDefinition::from_map(&t, &p),
        Err(ThemeError::MissingForeground)
    ));
    let t = table(vec![]);
    assert!(matches!(
        HighlightDefinition::from_map(&t, &p),
        Err(ThemeError::MissingForeground)
    ));
}

#[test]
fn no_flags_render_colors_only() {
    let h = Highlight::new(s("Normal"), def("#ffffff"));
    assert_eq!(h.write_string_lua(), "vim.api.nvim_set_hl(0, 'Normal', { fg = '#ffffff' })");
    let mut d = def("#ffffff");
    d.bold = Some(false);
    d.nocombine = Some(false);
    d.bg = Some(s("#101010"));
    let h = Highlight::new(s("Normal"), d);
    assert_eq!(
        h.write_string_lua(),
        "vim.api.nvim_set_hl(0, 'Normal', { fg = '#ffffff', bg = '#101010' })"
    );
}

#[test]
fn single_flag_renders_alone() {
    let mut d = def("#ffffff");
    d.bold = Some(true);
    let h = Highlight::new(s("X"), d);
    assert_eq!(h.write_string_lua(), "vim.api.nvim_set_hl(0, 'X', { fg = '#ffffff', bold = true })");
    let mut d = def("#ffffff");
    d.nocombine = Some(true);
    d.reverse = Some(false);
    let h = Highlight::new(s("X"), d);
    assert_eq!(
        h.write_string_lua(),
        "vim.api.nvim_set_hl(0, 'X', { fg = '#ffffff', nocombine = true })"
    );
}

#[test]
fn all_flags_render_in_order() {
    let mut d = def("#010203");
    d.bg = Some(s("#040506"));
    for a in [
        Attribute::Nocombine,
        Attribute::Reverse,
        Attribute::Strikethrough,
        Attribute::Underline,
        Attribute::Undercurl,
        Attribute::Italic,
        Attribute::Bold,
    ] {
        d.set_flag(a, true);
    }
    let h = Highlight::new(s("All"), d);
    assert_eq!(
        h.write_string_lua(),
        "vim.api.nvim_set_hl(0, 'All', { fg = '#010203', bg = '#040506', bold = true, italic = true, undercurl = true, underline = true, strikethrough = true, reverse = true, nocombine = true })"
    );
}

#[test]
fn palette_reference_and_bold() {
    let text = "[palette]\nred = \"#ff0000\"\n\n[highlights]\nError = { fg = \"red\", bold = true }\n";
    let lines = compile_theme(text).unwrap();
    assert_eq!(lines, vec![s("vim.api.nvim_set_hl(0, 'Error', { fg = '#ff0000', bold = true })")]);
}

#[test]
fn literal_with_background_and_italic() {
    let text = "[palette]\n\n[highlights]\nComment = { fg = \"#888888\", italic = true, bg = \"#000000\" }\n";
    let lines = compile_theme(text).unwrap();
    assert_eq!(
        lines,
        vec![s("vim.api.nvim_set_hl(0, 'Comment', { fg = '#888888', bg = '#000000', italic = true })")]
    );
}

#[test]
fn misspelled_attribute_fails() {
    let text = "[palette]\n\n[highlights]\nError = { fg = \"#ff0000\", underlne = true }\n";
    match compile_theme(text) {
        Err(ThemeError::UnknownAttribute(k)) => assert_eq!(k, "underlne"),
        other => panic!("unexpected {:?}", other),
    }
}

#[test]
fn declaration_order_is_kept() {
    let text = "[palette]\nc = \"#333333\"\n\n[highlights]\nCursor = { fg = \"c\" }\nAccent = { fg = \"#111111\" }\nBorder = { fg = \"#222222\" }\n";
    let lines = compile_theme(text).unwrap();
    assert_eq!(
        lines,
        vec![
            s("vim.api.nvim_set_hl(0, 'Cursor', { fg = '#333333' })"),
            s("vim.api.nvim_set_hl(0, 'Accent', { fg = '#111111' })"),
            s("vim.api.nvim_set_hl(0, 'Border', { fg = '#222222' })"),
        ]
    );
}

#[test]
fn long_names_and_background_without_lookup() {
    let text = "[palette]\nred = \"#ff0000\"\n[highlights]\nA = { foreground = \"red\", background = \"red\", strikethrough = true }\n";
    let lines = compile_theme(text).unwrap();
    assert_eq!(
        lines,
        vec![s("vim.api.nvim_set_hl(0, 'A', { fg = '#ff0000', bg = 'red', strikethrough = true })")]
    );
}

#[test]
fn missing_sections_fail() {
    match compile_theme("[highlights]\nA = { fg = \"#000000\" }\n") {
        Err(ThemeError::MissingSection(k)) => assert_eq!(k, "palette"),
        other => panic!("unexpected {:?}", other),
    }
    match compile_theme("[palette]\nred = \"#ff0000\"\n") {
        Err(ThemeError::MissingSection(k)) => assert_eq!(k, "highlights"),
        other => panic!("unexpected {:?}", other),
    }
}

#[test]
fn wrong_shapes_fail() {
    match compile_theme("palette = 3\n[highlights]\n") {
        Err(ThemeError::WrongShape(k)) => assert_eq!(k, "palette"),
        other => panic!("unexpected {:?}", other),
    }
    match compile_theme("highlights = \"x\"\n[palette]\n") {
        Err(ThemeError::WrongShape(k)) => assert_eq!(k, "highlights"),
        other => panic!("unexpected {:?}", other),
    }
    match compile_theme("[palette]\n[highlights]\nA = \"#ffffff\"\n") {
        Err(ThemeError::WrongShape(k)) => assert_eq!(k, "A"),
        other => panic!("unexpected {:?}", other),
    }
}

#[test]
fn wrong_attribute_types_fail() {
    match compile_theme("[palette]\nred = 1\n[highlights]\n") {
        Err(ThemeError::WrongAttributeType(k)) => assert_eq!(k, "red"),
        other => panic!("unexpected {:?}", other),
    }
    match compile_theme("[palette]\n[highlights]\nA = { fg = 1 }\n") {
        Err(ThemeError::WrongAttributeType(k)) => assert_eq!(k, "fg"),
        other => panic!("unexpected {:?}", other),
    }
    match compile_theme("[palette]\n[highlights]\nA = { fg = \"#000000\", bg = true }\n") {
        Err(ThemeError::WrongAttributeType(k)) => assert_eq!(k, "bg"),
        other => panic!("unexpected {:?}", other),
    }
    match compile_theme("[palette]\n[highlights]\nA = { fg = \"#000000\", reverse = \"yes\" }\n") {
        Err(ThemeError::WrongAttributeType(k)) => assert_eq!(k, "reverse"),
        other => panic!("unexpected {:?}", other),
    }
}

#[test]
fn unresolved_reference_in_document_fails() {
    match compile_theme("[palette]\nred = \"#ff0000\"\n[highlights]\nA = { fg = \"blue\" }\n") {
        Err(ThemeError::UnresolvedPaletteReference(k)) => assert_eq!(k, "blue"),
        other => panic!("unexpected {:?}", other),
    }
}

#[test]
fn malformed_document_fails() {
    assert!(matches!(compile_theme("[palette\nred ="), Err(ThemeError::MalformedDocument)));
    assert!(matches!(parse_document("= 1"), Err(ThemeError::MalformedDocument)));
}

#[test]
fn parsed_document_has_entries_in_order() {
    let doc = parse_document("z = \"a\"\nb = true\nn = 3\n[t]\nk = \"v\"\n").unwrap();
    match &doc {
        Node::Table(entries) => {
            let keys: Vec<&str> = entries.iter().map(|(k, _)| k.as_str()).collect();
            assert_eq!(keys, vec!["z", "b", "n", "t"]);
            assert!(matches!(&entries[0].1, Node::Str(x) if x == "a"));
            assert!(matches!(&entries[1].1, Node::Bool(true)));
            assert!(matches!(&entries[2].1, Node::Other));
            match &entries[3].1 {
                Node::Table(inner) => {
                    assert_eq!(inner.len(), 1);
                    assert_eq!(inner[0].0, "k");
                    assert!(matches!(&inner[0].1, Node::Str(x) if x == "v"));
                }
                other => panic!("unexpected {:?}", other),
            }
        }
        other => panic!("unexpected {:?}", other),
    }
    assert!(doc.get("b").is_some());
    assert!(doc.get("q").is_none());
}

#[test]
fn compile_document_by_hand() {
    let doc = Node::Table(table(vec![
        ("palette", Node::Table(table(vec![("fg0", Node::Str(s("#eeeeee")))]))),
        (
            "highlights",
            Node::Table(table(vec![(
                "Title",
                Node::Table(table(vec![
                    ("fg", Node::Str(s("fg0"))),
                    ("underline", Node::Bool(true)),
                    ("undercurl", Node::Bool(true)),
                ])),
            )])),
        ),
    ]));
    let lines = compile_document(&doc).unwrap();
    assert_eq!(
        lines,
        vec![s("vim.api.nvim_set_hl(0, 'Title', { fg = '#eeeeee', undercurl = true, underline = true })")]
    );
}

#[test]
fn later_attribute_wins() {
    let p = palette_red();
    let t = table(vec![
        ("fg", Node::Str(s("#000000"))),
        ("foreground", Node::Str(s("red"))),
        ("bold", Node::Bool(true)),
        ("bold", Node::Bool(false)),
    ]);
    let d = HighlightDefinition::from_map(&t, &p).unwrap();
    assert_eq!(d.fg, "#ff0000");
    assert_eq!(d.bold, Some(false));
}

#[test]
fn palette_insert_replaces() {
    let mut p = palette_red();
    assert_eq!(p.get(&s("red")).unwrap(), "#ff0000");
    p.insert(s("red"), s("#ee0000"));
    p.insert(s("green"), s("#00ff00"));
    assert_eq!(p.get(&s("red")).unwrap(), "#ee0000");
    assert_eq!(p.get(&s("green")).unwrap(), "#00ff00");
    assert!(p.get(&s("blue")).is_none());
    assert!(Palette::default().get(&s("red")).is_none());
}

#[test]
fn palette_section_is_read() {
    let doc = parse_document("[palette]\na = \"#010101\"\nb = \"#020202\"\n").unwrap();
    let p = Palette::set(&doc).unwrap();
    assert_eq!(p.get(&s("a")).unwrap(), "#010101");
    assert_eq!(p.get(&s("b")).unwrap(), "#020202");
}

#[test]
fn highlights_list_renders_each() {
    let mut hs = Highlights::new();
    hs.push(Highlight::new(s("B"), def("#000002")));
    hs.push(Highlight::new(s("A"), def("#000001")));
    assert_eq!(
        hs.write_string_lua(),
        vec![
            s("vim.api.nvim_set_hl(0, 'B', { fg = '#000002' })"),
            s("vim.api.nvim_set_hl(0, 'A', { fg = '#000001' })"),
        ]
    );
}

#[test]
fn attribute_keys_parse() {
    assert_eq!(Attribute::parse(&s("fg")), Some(Attribute::Foreground));
    assert_eq!(Attribute::parse(&s("background")), Some(Attribute::Background));
    assert_eq!(Attribute::parse(&s("nocombine")), Some(Attribute::Nocombine));
    assert_eq!(Attribute::parse(&s("Bold")), None);
}

#[test]
fn error_messages_name_the_cause() {
    assert_eq!(
        ThemeError::UnknownAttribute(s("underlne")).message(),
        "unrecognized highlight attribute: underlne"
    );
    assert_eq!(ThemeError::MissingForeground.message(), "fg must be set");
}
