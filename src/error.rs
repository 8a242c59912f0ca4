//! The two outputs of a parse besides the tree: structural errors, which
//! abort the production being parsed, and advisory diagnostics.
use vstd::prelude::*;
use crate::token::SourceRange;

verus! {

/// A fixed word or punctuation that the grammar asks for at some point.
#[derive(Clone, Copy, Debug, PartialEq, Eq, Structural)]
pub enum Word {
    Then,
    Else,
    In,
    Use,
    Equals,
    Arrow,
    Colon,
}

pub open spec fn word_text(w: Word) -> Seq<char> {
    match w {
        Word::Then => "then"@,
        Word::Else => "else"@,
        Word::In => "in"@,
        Word::Use => "use"@,
        Word::Equals => "="@,
        Word::Arrow => "->"@,
        Word::Colon => ":"@,
    }
}

impl Word {
    /// The text of the word.
    pub fn text(&self) -> (r: &'static str)
        ensures
            r@ == word_text(*self),
    {
        match self {
            Word::Then => "then",
            Word::Else => "else",
            Word::In => "in",
            Word::Use => "use",
            Word::Equals => "=",
            Word::Arrow => "->",
            Word::Colon => ":",
        }
    }
}

/// What the parser was looking for when it failed.
#[derive(Clone, Copy, Debug, PartialEq, Eq, Structural)]
pub enum Expected {
    Symbol,
    Word(Word),
    /// A delimited list, opened by the given character if one is named.
    List(Option<char>),
    SingleElement,
    StringLiteral,
    Declaration,
    Expression,
    Type,
    Pattern,
    RecordElement,
    BindingElement,
    Operator,
    EndOfSegment,
}

/// What a parser expected, in words.
pub open spec fn expected_text(e: Expected) -> Seq<char> {
    match e {
        Expected::Symbol => "a symbol"@,
        Expected::Word(w) => "'"@ + word_text(w) + "'"@,
        Expected::List(Some(c)) => list_text(c),
        Expected::List(None) => "a delimited list"@,
        Expected::SingleElement => "a list of exactly one element"@,
        Expected::StringLiteral => "a string literal"@,
        Expected::Declaration => "one of 'main', 'const', 'fn', 'import', 'export', 'type', 'interface'"@,
        Expected::Expression => "an expression"@,
        Expected::Type => "a type"@,
        Expected::Pattern => "a binding pattern"@,
        Expected::RecordElement => "a record element"@,
        Expected::BindingElement => "a record binding element"@,
        Expected::Operator => "an operator"@,
        Expected::EndOfSegment => "the end of the segment"@,
    }
}

pub open spec fn list_text(open: char) -> Seq<char> {
    if open == '(' {
        "a parenthesised list"@
    } else if open == '[' {
        "a bracketed list"@
    } else if open == '{' {
        "a braced list"@
    } else {
        "a delimited list"@
    }
}

impl Expected {
    /// What the parser expected, in words.
    pub fn text(&self) -> (r: String)
        ensures
            r@ == expected_text(*self),
    {
        match self {
            Expected::Symbol => String::from_str("a symbol"),
            Expected::Word(w) => {
                let s = String::from_str("'");
                let s = s.concat(w.text());
                s.concat("'")
            },
            Expected::List(Some(c)) => String::from_str(if *c == '(' {
                "a parenthesised list"
            } else if *c == '[' {
                "a bracketed list"
            } else if *c == '{' {
                "a braced list"
            } else {
                "a delimited list"
            }),
            Expected::List(None) => String::from_str("a delimited list"),
            Expected::SingleElement => String::from_str("a list of exactly one element"),
            Expected::StringLiteral => String::from_str("a string literal"),
            Expected::Declaration => String::from_str("one of 'main', 'const', 'fn', 'import', 'export', 'type', 'interface'"),
            Expected::Expression => String::from_str("an expression"),
            Expected::Type => String::from_str("a type"),
            Expected::Pattern => String::from_str("a binding pattern"),
            Expected::RecordElement => String::from_str("a record element"),
            Expected::BindingElement => String::from_str("a record binding element"),
            Expected::Operator => String::from_str("an operator"),
            Expected::EndOfSegment => String::from_str("the end of the segment"),
        }
    }
}

/// A structural parse failure.
#[derive(Debug, PartialEq, Eq)]
pub enum ParseError {
    /// The segment ended where a token was required.
    EndOfSegment,
    /// The next token is of the wrong kind.
    WrongToken { expected: Expected },
    /// The next token is of the right kind but holds other text.
    WrongTokenContents { expected: Expected, found: String },
}

#[derive(Clone, Copy, Debug, PartialEq, Eq, Structural)]
pub enum DiagnosticSeverity {
    Error,
    Warning,
}

#[derive(Clone, Copy, Debug, PartialEq, Eq, Structural)]
pub enum DiagnosticPhase {
    Parse,
}

/// What a diagnostic reports.
#[derive(Debug, PartialEq, Eq)]
pub enum DiagnosticKind {
    /// `()` used as a value.
    EmptyTuple,
    /// A top-level segment starts with a word that opens no declaration.
    UnknownGlobal { keyword: String },
}

/// An advisory report that does not abort parsing.
#[derive(Debug, PartialEq, Eq)]
pub struct Diagnostic {
    pub severity: DiagnosticSeverity,
    pub phase: DiagnosticPhase,
    pub range: SourceRange,
    pub kind: DiagnosticKind,
    /// A further remark on the diagnostic, if any.
    pub note: Option<String>,
    /// The name of the item the diagnostic is about, if any.
    pub subject: Option<String>,
    /// Diagnostics that explain this one, if any.
    pub inner_diagnostics: Option<Vec<Diagnostic>>,
}

pub open spec fn message_text(k: DiagnosticKind) -> Seq<char> {
    match k {
        DiagnosticKind::EmptyTuple => "empty tuple (use 'none' instead)"@,
        DiagnosticKind::UnknownGlobal { keyword } => "unknown global '"@ + keyword@
            + "', expected one of 'main', 'const', 'fn', 'type', 'interface'"@,
    }
}

impl Diagnostic {
    /// The human-readable message of the diagnostic.
    pub fn message(&self) -> (r: String)
        ensures
            r@ == message_text(self.kind),
    {
        match &self.kind {
            DiagnosticKind::EmptyTuple => String::from_str("empty tuple (use 'none' instead)"),
            DiagnosticKind::UnknownGlobal { keyword } => {
                let s = String::from_str("unknown global '");
                let s = s.concat(keyword.as_str());
                s.concat("', expected one of 'main', 'const', 'fn', 'type', 'interface'")
            },
        }
    }
}

} // verus!
