use serendipity_parser::ast::{
    ArithmeticOp, Assignment, BindingPattern, CompareOp, Expression, ParameterDeclaration, RecordElement, Type, UnaryOp,
};
use serendipity_parser::error::{Expected, ParseError, Word};
use serendipity_parser::token::{SourceRange, Token, TokenNode};

fn at(token: Token, start: usize, end: usize) -> TokenNode {
    TokenNode { token, range: SourceRange { start, end } }
}

fn sym(s: &str, start: usize) -> TokenNode {
    at(Token::Symbol(s.to_string()), start, start + s.len())
}

fn sig(s: &str, start: usize) -> TokenNode {
    at(Token::Sigil(s.to_string()), start, start + s.len())
}

fn num(s: &str, start: usize) -> TokenNode {
    at(Token::Number(s.to_string()), start, start + s.len())
}

fn list(open: char, close: char, segments: Vec<Vec<TokenNode>>, start: usize, end: usize) -> TokenNode {
    at(Token::List { open, close, segments }, start, end)
}

#[test]
fn operators_from_sigils() {
    let ts = vec![sig(">=", 0), sig("%", 3), sig("!", 5), sym("x", 6)];
    assert_eq!(CompareOp::parse(&ts, 0).unwrap(), (CompareOp::GreaterThanOrEqual, 1));
    assert_eq!(ArithmeticOp::parse(&ts, 1).unwrap(), (ArithmeticOp::Modulus, 2));
    assert_eq!(UnaryOp::parse(&ts, 2).unwrap(), (UnaryOp::Negate, 3));
    assert_eq!(CompareOp::parse(&ts, 1).unwrap_err(), ParseError::WrongToken { expected: Expected::Operator });
    assert_eq!(UnaryOp::parse(&ts, 3).unwrap_err(), ParseError::WrongToken { expected: Expected::Operator });
    assert_eq!(ArithmeticOp::parse(&ts, 4).unwrap_err(), ParseError::EndOfSegment);
    assert_eq!(CompareOp::Equal.text(), "==");
    assert_eq!(Word::Arrow.text(), "->");
}

#[test]
fn parameter_with_and_without_type() {
    let ts = vec![sym("x", 0), sig(":", 1), sym("Int", 3)];
    let (p, q) = ParameterDeclaration::parse(&ts, 0).unwrap();
    assert_eq!(q, 3);
    assert_eq!(p.name.value, "x");
    assert_eq!(p.type_.unwrap().range, SourceRange { start: 1, end: 6 });
    let ts = vec![sym("y", 0), sig(":", 1)];
    let (p, q) = ParameterDeclaration::parse(&ts, 0).unwrap();
    assert_eq!(q, 1);
    assert!(p.type_.is_none());
}

#[test]
fn assignment_requires_equals() {
    let mut diags = Vec::new();
    let ts = vec![sym("x", 0), sig("=", 2), num("1", 4)];
    let (a, q) = Assignment::parse(&ts, 0, &mut diags).unwrap();
    assert_eq!(q, 3);
    assert_eq!(a.equal_token.range, SourceRange { start: 2, end: 3 });
    let ts = vec![sym("x", 0), sig(":", 2), num("1", 4)];
    assert_eq!(
        Assignment::parse(&ts, 0, &mut diags).unwrap_err(),
        ParseError::WrongTokenContents { expected: Expected::Word(Word::Equals), found: ":".to_string() }
    );
}

#[test]
fn record_element_rejects_other_tokens() {
    let mut diags = Vec::new();
    let ts = vec![num("1", 0)];
    assert_eq!(
        RecordElement::parse(&ts, 0, &mut diags).unwrap_err(),
        ParseError::WrongToken { expected: Expected::RecordElement }
    );
}

#[test]
fn index_needs_exactly_one_element() {
    let mut diags = Vec::new();
    let ts = vec![sym("a", 0), list('[', ']', vec![vec![num("1", 2)], vec![num("2", 5)]], 1, 7)];
    assert_eq!(
        Expression::parse(&ts, 0, &mut diags).unwrap_err(),
        ParseError::WrongToken { expected: Expected::SingleElement }
    );
}

#[test]
fn patterns() {
    let ts = vec![list('(', ')', vec![vec![sym("a", 1)], vec![sym("b", 4)]], 0, 6)];
    let (p, _) = BindingPattern::parse(&ts, 0).unwrap();
    assert!(matches!(p, BindingPattern::Tuple { ref patterns } if patterns.value.len() == 2));
    let ts = vec![list('(', ')', vec![vec![sym("a", 1)]], 0, 3)];
    let (p, _) = BindingPattern::parse(&ts, 0).unwrap();
    assert!(matches!(p, BindingPattern::Identifier { ref name } if name.value == "a"));
    let ts = vec![num("1", 0)];
    assert_eq!(BindingPattern::parse(&ts, 0).unwrap_err(), ParseError::WrongToken { expected: Expected::Pattern });
}

#[test]
fn types() {
    let ts = vec![sig("*", 0), sig("|", 2), sig("_", 4)];
    let (t, q) = Type::parse(&ts, 0).unwrap();
    assert_eq!(q, 3);
    match t {
        Type::Union { left, right } => {
            assert!(matches!(left.value, Type::Kind));
            assert!(matches!(right.value, Type::Unknown));
        }
        other => panic!("{:?}", other),
    }
    let empty = vec![list('(', ')', vec![], 0, 2)];
    assert_eq!(Type::parse(&empty, 0).unwrap_err(), ParseError::WrongToken { expected: Expected::SingleElement });
    let bad = vec![sig("?", 0)];
    assert_eq!(Type::parse(&bad, 0).unwrap_err(), ParseError::WrongToken { expected: Expected::Type });
    let grouped = vec![list('(', ')', vec![vec![sym("A", 1)]], 0, 3)];
    let (t, _) = Type::parse(&grouped, 0).unwrap();
    assert!(matches!(t, Type::Reference { ref name, .. } if name.value == "A"));
}

#[test]
fn expected_values_in_words() {
    assert_eq!(Expected::Word(Word::Equals).text(), "'='");
    assert_eq!(Expected::List(Some('(')).text(), "a parenthesised list");
    assert_eq!(Expected::List(None).text(), "a delimited list");
    assert_eq!(
        Expected::Declaration.text(),
        "one of 'main', 'const', 'fn', 'import', 'export', 'type', 'interface'"
    );
}
