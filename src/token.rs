use vstd::prelude::*;

verus! {

/// Byte offsets of a piece of source text, end exclusive.
#[derive(Clone, Copy, Debug, PartialEq, Eq, Structural)]
pub struct SourceRange {
    pub start: usize,
    pub end: usize,
}

/// One node of the segmented token tree handed to the parser.
#[derive(Debug)]
pub enum Token {
    Symbol(String),
    Sigil(String),
    Number(String),
    /// A string literal, already decoded.
    Str(String),
    /// A delimited group; its contents are split into segments.
    List { open: char, close: char, segments: Vec<Vec<TokenNode>> },
}

/// A token with the source range it was read from.
#[derive(Debug)]
pub struct TokenNode {
    pub token: Token,
    pub range: SourceRange,
}

pub open spec fn is_symbol(n: TokenNode, w: Seq<char>) -> bool {
    n.token matches Token::Symbol(s) && s@ == w
}

pub open spec fn is_sigil(n: TokenNode, w: Seq<char>) -> bool {
    n.token matches Token::Sigil(s) && s@ == w
}

pub open spec fn is_list(n: TokenNode, open: char) -> bool {
    n.token matches Token::List { open: o, .. } && o == open
}

/// Whether `s` holds exactly the characters of `w`.
pub fn text_is(s: &String, w: &str) -> (r: bool)
    ensures
        r == (s@ == w@),
{
    let t = String::from_str(w);
    *s == t
}

/// Whether the token is a symbol with the given text.
pub fn symbol_is(n: &TokenNode, w: &str) -> (r: bool)
    ensures
        r == is_symbol(*n, w@),
{
    match &n.token {
        Token::Symbol(s) => text_is(s, w),
        _ => false,
    }
}

/// Whether the token is a sigil with the given text.
pub fn sigil_is(n: &TokenNode, w: &str) -> (r: bool)
    ensures
        r == is_sigil(*n, w@),
{
    match &n.token {
        Token::Sigil(s) => text_is(s, w),
        _ => false,
    }
}

/// Whether the token is a list opened by `open`.
pub fn list_is(n: &TokenNode, open: char) -> (r: bool)
    ensures
        r == is_list(*n, open),
{
    match &n.token {
        Token::List { open: o, .. } => *o == open,
        _ => false,
    }
}

} // verus!
