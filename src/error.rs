use vstd::prelude::*;

verus! {

/// Every way a theme can be rejected. Each one aborts the whole compilation.
#[derive(Debug)]
pub enum ThemeError {
    /// A required top-level section (`palette` or `highlights`) is absent.
    MissingSection(String),
    /// The named item was expected to be a table.
    WrongShape(String),
    /// The value under the named key has the wrong primitive type.
    WrongAttributeType(String),
    /// A key inside a highlight definition is not a recognized attribute.
    UnknownAttribute(String),
    /// A highlight definition has neither `fg` nor `foreground`.
    MissingForeground,
    /// A symbolic foreground names no palette entry.
    UnresolvedPaletteReference(String),
    /// The input is not a TOML document.
    MalformedDocument,
}

/// The mathematical form of a `ThemeError`.
pub enum ThemeFault {
    MissingSection(Seq<char>),
    WrongShape(Seq<char>),
    WrongAttributeType(Seq<char>),
    UnknownAttribute(Seq<char>),
    MissingForeground,
    UnresolvedPaletteReference(Seq<char>),
    MalformedDocument,
}

impl View for ThemeError {
    type V = ThemeFault;

    open spec fn view(&self) -> ThemeFault {
        match self {
            ThemeError::MissingSection(s) => ThemeFault::MissingSection(s@),
            ThemeError::WrongShape(s) => ThemeFault::WrongShape(s@),
            ThemeError::WrongAttributeType(s) => ThemeFault::WrongAttributeType(s@),
            ThemeError::UnknownAttribute(s) => ThemeFault::UnknownAttribute(s@),
            ThemeError::MissingForeground => ThemeFault::MissingForeground,
            ThemeError::UnresolvedPaletteReference(s) => ThemeFault::UnresolvedPaletteReference(s@),
            ThemeError::MalformedDocument => ThemeFault::MalformedDocument,
        }
    }
}

/// The text that describes a failure.
pub open spec fn message_of(f: ThemeFault) -> Seq<char> {
    match f {
        ThemeFault::MissingSection(s) => "missing top-level section: "@ + s,
        ThemeFault::WrongShape(s) => "expected a table: "@ + s,
        ThemeFault::WrongAttributeType(s) => "value has the wrong type: "@ + s,
        ThemeFault::UnknownAttribute(s) => "unrecognized highlight attribute: "@ + s,
        ThemeFault::MissingForeground => "fg must be set"@,
        ThemeFault::UnresolvedPaletteReference(s) => "unknown palette reference: "@ + s,
        ThemeFault::MalformedDocument => "the input is not a valid TOML document"@,
    }
}

impl ThemeError {
    /// A human-readable description of the failure, naming the section,
    /// key or reference at fault.
    pub fn message(&self) -> (r: String)
        ensures
            r@ == message_of(self@),
    {
        let (head, detail): (&str, Option<&String>) = match self {
            ThemeError::MissingSection(s) => ("missing top-level section: ", Some(s)),
            ThemeError::WrongShape(s) => ("expected a table: ", Some(s)),
            ThemeError::WrongAttributeType(s) => ("value has the wrong type: ", Some(s)),
            ThemeError::UnknownAttribute(s) => ("unrecognized highlight attribute: ", Some(s)),
            ThemeError::MissingForeground => ("fg must be set", None),
            ThemeError::UnresolvedPaletteReference(s) => ("unknown palette reference: ", Some(s)),
            ThemeError::MalformedDocument => ("the input is not a valid TOML document", None),
        };
        let mut r = String::from_str(head);
        match detail {
            Some(s) => r.append(s.as_str()),
            None => {},
        }
        r
    }
}

} // verus!
