use vstd::prelude::*;
use crate::error::{ThemeError, ThemeFault};

verus! {

/// toml's parsed value, opaque here: only `Node::from_toml` reads it.
#[verifier::external_type_specification]
#[verifier::external_body]
pub struct ExTomlValue(toml::Value);

/// toml's parse error: only whether one came back is used.
#[verifier::external_type_specification]
#[verifier::external_body]
pub struct ExTomlError(toml::de::Error);

/// The document that the toml crate reads from `text`, in this library's
/// form, or nothing when `text` is not valid TOML.
pub uninterp spec fn toml_document(text: Seq<char>) -> Option<Node>;

/// A parsed TOML value, as far as a theme reads it. A table keeps its
/// entries in the order in which the document declares them.
#[derive(Debug)]
pub enum Node {
    Str(String),
    Bool(bool),
    Table(Vec<(String, Node)>),
    /// Any other kind of value (integer, float, date-time, array).
    Other,
}

/// The value of the first entry of `entries` whose key is `key`.
pub open spec fn lookup(entries: Seq<(String, Node)>, key: Seq<char>) -> Option<Node>
    decreases entries.len(),
{
    if entries.len() == 0 {
        None
    } else if entries[0].0@ == key {
        Some(entries[0].1)
    } else {
        lookup(entries.drop_first(), key)
    }
}

/// What `Node::get` returns: the entry under `key` of a table, nothing for
/// any other kind of value.
pub open spec fn node_get(v: Node, key: Seq<char>) -> Option<Node> {
    match v {
        Node::Table(entries) => lookup(entries@, key),
        _ => None,
    }
}

impl Node {
    /// Converts a value that toml has parsed: strings, booleans and tables
    /// one for one (a table keeps toml's order of entries, which is the
    /// document's with toml's `preserve_order` feature), anything else to
    /// `Other`.
    #[verifier::external_body]
    fn from_toml(v: &toml::Value) -> Node {
        match v {
            toml::Value::String(s) => Node::Str(s.clone()),
            toml::Value::Boolean(b) => Node::Bool(*b),
            toml::Value::Table(t) => Node::Table(
                t.iter().map(|(k, x)| (k.clone(), Node::from_toml(x))).collect(),
            ),
            _ => Node::Other,
        }
    }

    /// The entry under `key`, when `self` is a table that has one.
    pub fn get(&self, key: &str) -> (r: Option<&Node>)
        ensures
            r matches Some(x) ==> node_get(*self, key@) == Some(*x),
            r is None ==> node_get(*self, key@) is None,
    {
        match self {
            Node::Table(entries) => {
                let k = String::from_str(key);
                let mut i: usize = 0;
                assert(entries@.subrange(0, entries@.len() as int) =~= entries@);
                while i < entries.len()
                    invariant
                        0 <= i <= entries@.len(),
                        k@ == key@,
                        node_get(*self, key@) == lookup(entries@, key@),
                        lookup(entries@, key@) == lookup(entries@.subrange(i as int, entries@.len() as int), key@),
                    decreases entries@.len() - i,
                {
                    let ghost rest = entries@.subrange(i as int, entries@.len() as int);
                    assert(rest.drop_first() =~= entries@.subrange(i + 1, entries@.len() as int));
                    assert(rest[0] == entries@[i as int]);
                    if entries[i].0 == k {
                        assert(lookup(rest, key@) == Some(entries@[i as int].1));
                        return Some(&entries[i].1);
                    }
                    i = i + 1;
                }
                None
            },
            _ => None,
        }
    }
}

/// Relies on toml's `FromStr for toml::Value` (toml::from_str), which
/// parses a whole document: it succeeds or fails on the text alone, and the
/// tree it builds depends on the text alone.
#[verifier::external_body]
fn parse_toml(text: &str) -> (r: Result<Node, toml::de::Error>)
    ensures
        r is Ok <==> toml_document(text@) is Some,
        r matches Ok(v) ==> toml_document(text@) == Some(v),
{
    text.parse::<toml::Value>().map(|v| Node::from_toml(&v))
}

/// Parses a TOML document.
pub fn parse_document(text: &str) -> (r: Result<Node, ThemeError>)
    ensures
        match r {
            Ok(v) => toml_document(text@) == Some(v),
            Err(e) => toml_document(text@) is None && e@ == ThemeFault::MalformedDocument,
        },
{
    match parse_toml(text) {
        Ok(v) => Ok(v),
        Err(_) => Err(ThemeError::MalformedDocument),
    }
}

} // verus!
