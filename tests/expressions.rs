use serendipity_parser::ast::{ArithmeticOp, CompareOp, Expression, RecordElement, Statement, UnaryOp};
use serendipity_parser::error::{Diagnostic, DiagnosticSeverity, Expected, ParseError};
use serendipity_parser::token::{SourceRange, Token, TokenNode};

fn at(token: Token, start: usize, end: usize) -> TokenNode {
    TokenNode { token, range: SourceRange { start, end } }
}

fn sym(s: &str, start: usize) -> TokenNode {
    at(Token::Symbol(s.to_string()), start, start + s.len())
}

fn sig(s: &str, start: usize) -> TokenNode {
    at(Token::Sigil(s.to_string()), start, start + s.len())
}

fn num(s: &str, start: usize) -> TokenNode {
    at(Token::Number(s.to_string()), start, start + s.len())
}

fn list(open: char, close: char, segments: Vec<Vec<TokenNode>>, start: usize, end: usize) -> TokenNode {
    at(Token::List { open, close, segments }, start, end)
}

fn parse(ts: &Vec<TokenNode>) -> (Result<(Expression, usize), ParseError>, Vec<Diagnostic>) {
    let mut diags = Vec::new();
    let r = Expression::parse(ts, 0, &mut diags);
    (r, diags)
}

fn name_of(e: &Expression) -> &str {
    match e {
        Expression::Name(n) => n.as_str(),
        other => panic!("not a name: {:?}", other),
    }
}

fn number_of(e: &Expression) -> &str {
    match e {
        Expression::Number(n) => n.as_str(),
        other => panic!("not a number: {:?}", other),
    }
}

#[test]
fn product_binds_tighter_than_sum() {
    // 1 + 2 * 3
    let ts = vec![num("1", 0), sig("+", 2), num("2", 4), sig("*", 6), num("3", 8)];
    let (r, diags) = parse(&ts);
    let (e, q) = r.unwrap();
    assert_eq!(q, 5);
    assert!(diags.is_empty());
    match e {
        Expression::Arithmetic { operator, left, right } => {
            assert_eq!(operator.value, ArithmeticOp::Add);
            assert_eq!(operator.range, SourceRange { start: 2, end: 3 });
            assert_eq!(number_of(&left.value), "1");
            assert_eq!(left.range, SourceRange { start: 0, end: 1 });
            assert_eq!(right.range, SourceRange { start: 4, end: 9 });
            match right.value {
                Expression::Arithmetic { operator, left, right } => {
                    assert_eq!(operator.value, ArithmeticOp::Multiply);
                    assert_eq!(number_of(&left.value), "2");
                    assert_eq!(number_of(&right.value), "3");
                }
                other => panic!("{:?}", other),
            }
        }
        other => panic!("{:?}", other),
    }
}

#[test]
fn subtraction_nests_to_the_right() {
    // a - b - c
    let ts = vec![sym("a", 0), sig("-", 2), sym("b", 4), sig("-", 6), sym("c", 8)];
    let (e, q) = parse(&ts).0.unwrap();
    assert_eq!(q, 5);
    match e {
        Expression::Arithmetic { operator, left, right } => {
            assert_eq!(operator.value, ArithmeticOp::Subtract);
            assert_eq!(name_of(&left.value), "a");
            match right.value {
                Expression::Arithmetic { operator, left, right } => {
                    assert_eq!(operator.value, ArithmeticOp::Subtract);
                    assert_eq!(name_of(&left.value), "b");
                    assert_eq!(name_of(&right.value), "c");
                }
                other => panic!("{:?}", other),
            }
        }
        other => panic!("{:?}", other),
    }
}

#[test]
fn comparison_nests_to_the_right() {
    // a == b < c
    let ts = vec![sym("a", 0), sig("==", 2), sym("b", 5), sig("<", 7), sym("c", 9)];
    let (e, _) = parse(&ts).0.unwrap();
    match e {
        Expression::Compare { operator, left, right } => {
            assert_eq!(operator.value, CompareOp::Equal);
            assert_eq!(name_of(&left.value), "a");
            match right.value {
                Expression::Compare { operator, .. } => assert_eq!(operator.value, CompareOp::LessThan),
                other => panic!("{:?}", other),
            }
        }
        other => panic!("{:?}", other),
    }
}

#[test]
fn empty_tuple_warns() {
    let ts = vec![list('(', ')', vec![], 0, 2)];
    let (r, diags) = parse(&ts);
    let (e, q) = r.unwrap();
    assert_eq!(q, 1);
    match e {
        Expression::Tuple { elements } => {
            assert!(elements.value.is_empty());
            assert_eq!(elements.range, SourceRange { start: 0, end: 2 });
        }
        other => panic!("{:?}", other),
    }
    assert_eq!(diags.len(), 1);
    assert_eq!(diags[0].severity, DiagnosticSeverity::Warning);
    assert!(diags[0].message().contains("empty tuple"));
    assert_eq!(diags[0].range, SourceRange { start: 0, end: 2 });
}

#[test]
fn parentheses_around_one_expression_are_transparent() {
    let grouped = vec![list('(', ')', vec![vec![sym("x", 1)]], 0, 3)];
    let bare = vec![sym("x", 0)];
    let (g, _) = parse(&grouped).0.unwrap();
    let (b, _) = parse(&bare).0.unwrap();
    assert_eq!(format!("{:?}", g), format!("{:?}", b));
    assert_eq!(name_of(&g), "x");
}

#[test]
fn tuple_of_two() {
    let ts = vec![list('(', ')', vec![vec![num("1", 1)], vec![num("2", 4)]], 0, 6)];
    let (r, diags) = parse(&ts);
    match r.unwrap().0 {
        Expression::Tuple { elements } => {
            assert_eq!(elements.value.len(), 2);
            assert_eq!(number_of(&elements.value[1].value), "2");
            assert_eq!(elements.value[1].range, SourceRange { start: 4, end: 5 });
        }
        other => panic!("{:?}", other),
    }
    assert!(diags.is_empty());
}

#[test]
fn postfix_chain_applies_left_to_right() {
    // a(b)[c].d : calls and index accesses apply from left to right, and the
    // field access wraps the whole chain.
    let ts = vec![
        sym("a", 0),
        list('(', ')', vec![vec![sym("b", 2)]], 1, 4),
        list('[', ']', vec![vec![sym("c", 5)]], 4, 7),
        sig(".", 7),
        sym("d", 8),
    ];
    let (e, q) = parse(&ts).0.unwrap();
    assert_eq!(q, 5);
    match e {
        Expression::FieldAccess { accessee, field } => {
            assert_eq!(field.value, "d");
            assert_eq!(field.range, SourceRange { start: 8, end: 9 });
            assert_eq!(accessee.range, SourceRange { start: 0, end: 7 });
            match accessee.value {
                Expression::Accessor { accessee, index } => {
                    assert_eq!(name_of(&index.value), "c");
                    assert_eq!(accessee.range, SourceRange { start: 0, end: 4 });
                    match accessee.value {
                        Expression::Call { callee, parameters } => {
                            assert_eq!(name_of(&callee.value), "a");
                            assert_eq!(parameters.value.len(), 1);
                            assert_eq!(name_of(&parameters.value[0].value), "b");
                        }
                        other => panic!("{:?}", other),
                    }
                }
                other => panic!("{:?}", other),
            }
        }
        other => panic!("{:?}", other),
    }
}

#[test]
fn field_access_is_read_once_after_the_chain() {
    // a.d(b) : the single field access ends the postfix level, so the call
    // that follows it is left for the caller.
    let ts = vec![sym("a", 0), sig(".", 1), sym("d", 2), list('(', ')', vec![vec![sym("b", 4)]], 3, 6)];
    let (e, q) = parse(&ts).0.unwrap();
    assert_eq!(q, 3);
    match e {
        Expression::FieldAccess { accessee, field } => {
            assert_eq!(name_of(&accessee.value), "a");
            assert_eq!(field.value, "d");
        }
        other => panic!("{:?}", other),
    }
    // (a.d)(b) : grouping re-enters the full ladder.
    let ts = vec![
        list('(', ')', vec![vec![sym("a", 1), sig(".", 2), sym("d", 3)]], 0, 5),
        list('(', ')', vec![vec![sym("b", 6)]], 5, 8),
    ];
    let (e, q) = parse(&ts).0.unwrap();
    assert_eq!(q, 2);
    match e {
        Expression::Call { callee, .. } => assert!(matches!(callee.value, Expression::FieldAccess { .. })),
        other => panic!("{:?}", other),
    }
}

#[test]
fn unary_operators_nest() {
    // - ! x
    let ts = vec![sig("-", 0), sig("!", 1), sym("x", 2)];
    let (e, q) = parse(&ts).0.unwrap();
    assert_eq!(q, 3);
    match e {
        Expression::Unary { operator, expression } => {
            assert_eq!(operator.value, UnaryOp::Minus);
            match expression.value {
                Expression::Unary { operator, expression } => {
                    assert_eq!(operator.value, UnaryOp::Negate);
                    assert_eq!(name_of(&expression.value), "x");
                }
                other => panic!("{:?}", other),
            }
        }
        other => panic!("{:?}", other),
    }
}

#[test]
fn keyword_literals_and_hole() {
    let cases = vec![("true", "Boolean(true)"), ("false", "Boolean(false)"), ("none", "NoneLiteral")];
    for (word, shown) in cases {
        let (e, _) = parse(&vec![sym(word, 0)]).0.unwrap();
        assert_eq!(format!("{:?}", e), shown);
    }
    let (e, _) = parse(&vec![sig("@", 0)]).0.unwrap();
    assert!(matches!(e, Expression::Hole));
    let (e, _) = parse(&vec![at(Token::Str("hi".to_string()), 0, 4)]).0.unwrap();
    assert!(matches!(e, Expression::String(s) if s == "hi"));
}

#[test]
fn record_literal_elements() {
    // { a: 1, b, ...c }
    let ts = vec![list(
        '{',
        '}',
        vec![vec![sym("a", 1), sig(":", 2), num("1", 4)], vec![sym("b", 7)], vec![sig("...", 10), sym("c", 13)]],
        0,
        15,
    )];
    let (e, _) = parse(&ts).0.unwrap();
    match e {
        Expression::Record { elements } => {
            assert_eq!(elements.value.len(), 3);
            match &elements.value[0].value {
                RecordElement::KeyValuePair { key, value } => {
                    assert_eq!(key.value, "a");
                    assert_eq!(number_of(&value.value), "1");
                }
                other => panic!("{:?}", other),
            }
            assert!(matches!(&elements.value[1].value, RecordElement::Identifier { name } if name.value == "b"));
            assert!(matches!(&elements.value[2].value, RecordElement::Spread { .. }));
        }
        other => panic!("{:?}", other),
    }
}

#[test]
fn if_expression_needs_all_three_keywords() {
    let ts = vec![sym("if", 0), sym("c", 3), sym("then", 5), num("1", 10), sym("else", 12), num("2", 17)];
    let (e, q) = parse(&ts).0.unwrap();
    assert_eq!(q, 6);
    assert!(matches!(e, Expression::If { .. }));
    let missing_else = vec![sym("if", 0), sym("c", 3), sym("then", 5), num("1", 10)];
    assert_eq!(parse(&missing_else).0.unwrap_err(), ParseError::EndOfSegment);
    let wrong = vec![sym("if", 0), sym("c", 3), sym("so", 5), num("1", 8)];
    match parse(&wrong).0.unwrap_err() {
        ParseError::WrongTokenContents { found, .. } => assert_eq!(found, "so"),
        other => panic!("{:?}", other),
    }
}

#[test]
fn with_expression_binds() {
    // with (x = 1) x
    let ts = vec![
        sym("with", 0),
        list('(', ')', vec![vec![sym("x", 6), sig("=", 8), num("1", 10)]], 5, 12),
        sym("x", 13),
    ];
    let (e, q) = parse(&ts).0.unwrap();
    assert_eq!(q, 3);
    match e {
        Expression::With { bindings, body, .. } => {
            assert_eq!(bindings.value.len(), 1);
            assert_eq!(bindings.value[0].value.symbol.value, "x");
            assert_eq!(name_of(&body.value), "x");
        }
        other => panic!("{:?}", other),
    }
}

#[test]
fn function_literal_with_optional_parts() {
    // fn (a: T) -> a
    let ts = vec![
        sym("fn", 0),
        list('(', ')', vec![vec![sym("a", 4), sig(":", 5), sym("T", 7)]], 3, 9),
        sig("->", 10),
        sym("a", 13),
    ];
    let (e, q) = parse(&ts).0.unwrap();
    assert_eq!(q, 4);
    match e {
        Expression::Function { name, generic_parameters, parameters, constraint, .. } => {
            assert!(name.is_none());
            assert!(generic_parameters.is_none());
            assert!(constraint.is_none());
            assert_eq!(parameters.value.len(), 1);
            assert!(parameters.value[0].value.type_.is_some());
        }
        other => panic!("{:?}", other),
    }
}

#[test]
fn procedure_of_statements() {
    // #[let x = 1, x = 2, if c pass, for i in xs do f(i), loop break, continue, g()]
    let ts = vec![
        sig("#", 0),
        list(
            '[',
            ']',
            vec![
                vec![sym("let", 2), sym("x", 6), sig("=", 8), num("1", 10)],
                vec![sym("x", 13), sig("=", 15), num("2", 17)],
                vec![sym("if", 20), sym("c", 23), sym("pass", 25)],
                vec![sym("for", 31), sym("i", 35), sym("in", 37), sym("xs", 40), sym("do", 43), sym("f", 46)],
                vec![sym("loop", 50), sym("break", 55)],
                vec![sym("continue", 62)],
                vec![sym("g", 72), list('(', ')', vec![], 73, 75)],
            ],
            1,
            76,
        ),
    ];
    let (r, diags) = parse(&ts);
    let (e, q) = r.unwrap();
    assert_eq!(q, 2);
    assert!(diags.is_empty());
    match e {
        Expression::Procedure { body } => {
            let s: Vec<&Statement> = body.value.iter().map(|n| &n.value).collect();
            assert_eq!(s.len(), 7);
            assert!(matches!(s[0], Statement::Let { .. }));
            assert!(matches!(s[1], Statement::Assign(a) if a.value.symbol.value == "x"));
            assert!(matches!(s[2], Statement::If { _else: None, .. }));
            assert!(matches!(s[3], Statement::ForIn { .. }));
            assert!(matches!(s[4], Statement::Forever(b) if matches!(b.value, Statement::Break)));
            assert!(matches!(s[5], Statement::Continue));
            assert!(matches!(s[6], Statement::Expression(_)));
        }
        other => panic!("{:?}", other),
    }
}

#[test]
fn stray_sigil_is_not_an_expression() {
    let ts = vec![sig("?", 0)];
    assert_eq!(parse(&ts).0.unwrap_err(), ParseError::WrongToken { expected: Expected::Expression });
    assert_eq!(parse(&vec![]).0.unwrap_err(), ParseError::EndOfSegment);
}
