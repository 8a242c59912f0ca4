use serendipity_parser::ast::{ArithmeticOp, BindingPattern, Declaration, Expression, Module, RecordBindingElement, Type};
use serendipity_parser::error::{Diagnostic, DiagnosticKind, DiagnosticSeverity, Expected, ParseError};
use serendipity_parser::token::{SourceRange, Token, TokenNode};

fn at(token: Token, start: usize, end: usize) -> TokenNode {
    TokenNode { token, range: SourceRange { start, end } }
}

fn sym(s: &str, start: usize) -> TokenNode {
    at(Token::Symbol(s.to_string()), start, start + s.len())
}

fn sig(s: &str, start: usize) -> TokenNode {
    at(Token::Sigil(s.to_string()), start, start + s.len())
}

fn num(s: &str, start: usize) -> TokenNode {
    at(Token::Number(s.to_string()), start, start + s.len())
}

fn list(open: char, close: char, segments: Vec<Vec<TokenNode>>, start: usize, end: usize) -> TokenNode {
    at(Token::List { open, close, segments }, start, end)
}

fn parse(ts: &Vec<TokenNode>) -> (Result<(Declaration, usize), ParseError>, Vec<Diagnostic>) {
    let mut diags = Vec::new();
    let r = Declaration::parse(ts, 0, &mut diags);
    (r, diags)
}

fn add_function() -> Vec<TokenNode> {
    // fn add(a, b) -> a + b
    vec![
        sym("fn", 0),
        sym("add", 3),
        list('(', ')', vec![vec![sym("a", 7)], vec![sym("b", 10)]], 6, 12),
        sig("->", 13),
        sym("a", 16),
        sig("+", 18),
        sym("b", 20),
    ]
}

#[test]
fn function_declaration() {
    let (r, diags) = parse(&add_function());
    let (d, q) = r.unwrap();
    assert_eq!(q, 7);
    assert!(diags.is_empty());
    match d {
        Declaration::Function { identifier, generic_parameters, parameters, constraint, body, .. } => {
            assert_eq!(identifier.value, "add");
            assert!(generic_parameters.is_none());
            assert!(constraint.is_none());
            let names: Vec<&str> = parameters.value.iter().map(|p| p.value.name.value.as_str()).collect();
            assert_eq!(names, vec!["a", "b"]);
            assert_eq!(body.range, SourceRange { start: 16, end: 21 });
            match body.value {
                Expression::Arithmetic { operator, left, right } => {
                    assert_eq!(operator.value, ArithmeticOp::Add);
                    assert!(matches!(left.value, Expression::Name(ref n) if n == "a"));
                    assert!(matches!(right.value, Expression::Name(ref n) if n == "b"));
                }
                other => panic!("{:?}", other),
            }
        }
        other => panic!("{:?}", other),
    }
}

#[test]
fn unknown_keyword_fails_with_a_diagnostic() {
    let ts = vec![sym("frobnicate", 0), num("1", 11), num("2", 13)];
    let (r, diags) = parse(&ts);
    assert_eq!(
        r.unwrap_err(),
        ParseError::WrongTokenContents { expected: Expected::Declaration, found: "frobnicate".to_string() }
    );
    assert_eq!(diags.len(), 1);
    assert_eq!(diags[0].severity, DiagnosticSeverity::Error);
    assert!(diags[0].note.is_none() && diags[0].subject.is_none() && diags[0].inner_diagnostics.is_none());
    assert_eq!(diags[0].range, SourceRange { start: 0, end: 10 });
    assert_eq!(diags[0].kind, DiagnosticKind::UnknownGlobal { keyword: "frobnicate".to_string() });
    let expected = Expected::Declaration.text();
    for keyword in ["'main'", "'const'", "'fn'", "'import'", "'export'", "'type'", "'interface'"] {
        assert!(expected.contains(keyword), "{} missing from {}", keyword, expected);
    }
    let message = diags[0].message();
    assert!(message.contains("frobnicate"));
    assert!(message.contains("'main', 'const', 'fn', 'type', 'interface'"));
}

#[test]
fn failed_generics_consume_nothing() {
    // fn f[1](x) -> x : the bracket does not hold generic parameters, so it
    // is left in place and the parameter list is then missing.
    let ts = vec![
        sym("fn", 0),
        sym("f", 3),
        list('[', ']', vec![vec![num("1", 5)]], 4, 7),
        list('(', ')', vec![vec![sym("x", 8)]], 7, 10),
        sig("->", 11),
        sym("x", 14),
    ];
    assert_eq!(parse(&ts).0.unwrap_err(), ParseError::WrongToken { expected: Expected::List(Some('(')) });
}

#[test]
fn generics_and_constraints() {
    // fn id[T: Kind](x: T): T -> x
    let ts = vec![
        sym("fn", 0),
        sym("id", 3),
        list('[', ']', vec![vec![sym("T", 6), sig(":", 7), sym("Kind", 9)]], 5, 14),
        list('(', ')', vec![vec![sym("x", 15), sig(":", 16), sym("T", 18)]], 14, 20),
        sig(":", 20),
        sym("T", 22),
        sig("->", 24),
        sym("x", 27),
    ];
    let (d, q) = parse(&ts).0.unwrap();
    assert_eq!(q, 8);
    match d {
        Declaration::Function { generic_parameters, constraint, .. } => {
            let g = generic_parameters.unwrap();
            assert_eq!(g.value.len(), 1);
            assert!(g.value[0].value.constraint.is_some());
            let c = constraint.unwrap();
            assert_eq!(c.range, SourceRange { start: 20, end: 23 });
        }
        other => panic!("{:?}", other),
    }
}

#[test]
fn const_without_type() {
    let ts = vec![sym("const", 0), sym("x", 6), sig("=", 8), num("1", 10)];
    let (d, q) = parse(&ts).0.unwrap();
    assert_eq!(q, 4);
    match d {
        Declaration::Const { identifier, type_, value, .. } => {
            assert_eq!(identifier.value, "x");
            assert!(type_.is_none());
            assert!(matches!(value.value, Expression::Number(ref n) if n == "1"));
        }
        other => panic!("{:?}", other),
    }
}

#[test]
fn type_alias_union_and_function_type() {
    // type F = fn (A, B) -> C | !
    let ts = vec![
        sym("type", 0),
        sym("F", 5),
        sig("=", 7),
        sym("fn", 9),
        list('(', ')', vec![vec![sym("A", 13)], vec![sym("B", 16)]], 12, 18),
        sig("->", 19),
        sym("C", 22),
        sig("|", 24),
        sig("!", 26),
    ];
    let (d, q) = parse(&ts).0.unwrap();
    assert_eq!(q, 9);
    match d {
        Declaration::TypeAlias { name, value, .. } => {
            assert_eq!(name.value, "F");
            match value.value {
                Type::Function { parameters, return_type, .. } => {
                    assert_eq!(parameters.value.len(), 2);
                    match return_type.value {
                        Type::Union { left, right } => {
                            assert!(matches!(left.value, Type::Reference { ref name, generic_parameters: None } if name.value == "C"));
                            assert!(matches!(right.value, Type::Never));
                        }
                        other => panic!("{:?}", other),
                    }
                }
                other => panic!("{:?}", other),
            }
        }
        other => panic!("{:?}", other),
    }
}

#[test]
fn reference_with_generic_arguments_and_tuple_type() {
    // type P = Map[K, (A, B)]
    let ts = vec![
        sym("type", 0),
        sym("P", 5),
        sig("=", 7),
        sym("Map", 9),
        list('[', ']', vec![vec![sym("K", 13)], vec![list('(', ')', vec![vec![sym("A", 17)], vec![sym("B", 20)]], 16, 22)]], 12, 23),
    ];
    let (d, _) = parse(&ts).0.unwrap();
    match d {
        Declaration::TypeAlias { value, .. } => match value.value {
            Type::Reference { name, generic_parameters } => {
                assert_eq!(name.value, "Map");
                let args = generic_parameters.unwrap();
                assert_eq!(args.value.len(), 2);
                assert!(matches!(args.value[1].value, Type::Tuple { ref members } if members.value.len() == 2));
            }
            other => panic!("{:?}", other),
        },
        other => panic!("{:?}", other),
    }
}

#[test]
fn import_with_record_pattern() {
    // import { a, b: (c), ...rest } = use ("lib")
    let ts = vec![
        sym("import", 0),
        list(
            '{',
            '}',
            vec![
                vec![sym("a", 9)],
                vec![sym("b", 12), sig(":", 13), list('(', ')', vec![vec![sym("c", 16)]], 15, 18)],
                vec![sig("...", 20), sym("rest", 23)],
            ],
            7,
            29,
        ),
        sig("=", 30),
        sym("use", 32),
        list('(', ')', vec![vec![at(Token::Str("lib".to_string()), 37, 42)]], 36, 43),
    ];
    let (d, q) = parse(&ts).0.unwrap();
    assert_eq!(q, 5);
    match d {
        Declaration::Import { pattern, module_specifier, .. } => {
            assert_eq!(module_specifier.value, "lib");
            assert_eq!(module_specifier.range, SourceRange { start: 37, end: 42 });
            match pattern.value {
                BindingPattern::Record { elements } => {
                    assert_eq!(elements.value.len(), 3);
                    assert!(matches!(&elements.value[0].value, RecordBindingElement::Identifier { name } if name.value == "a"));
                    match &elements.value[1].value {
                        RecordBindingElement::KeyValuePair { name, pattern } => {
                            assert_eq!(name.value, "b");
                            assert!(matches!(&pattern.value, BindingPattern::Identifier { name } if name.value == "c"));
                        }
                        other => panic!("{:?}", other),
                    }
                    assert!(matches!(&elements.value[2].value, RecordBindingElement::Rest { name } if name.value == "rest"));
                }
                other => panic!("{:?}", other),
            }
        }
        other => panic!("{:?}", other),
    }
}

#[test]
fn export_and_interface() {
    let export = vec![sym("export", 0), list('{', '}', vec![vec![sym("a", 8)]], 7, 10)];
    let (d, _) = parse(&export).0.unwrap();
    assert!(matches!(d, Declaration::Export { ref elements, .. } if elements.value.len() == 1));
    // interface Shape { area: Number }
    let iface = vec![
        sym("interface", 0),
        sym("Shape", 10),
        list('{', '}', vec![vec![sym("area", 18), sig(":", 22), sym("Number", 24)]], 16, 32),
    ];
    let (d, q) = parse(&iface).0.unwrap();
    assert_eq!(q, 3);
    match d {
        Declaration::Interface { name, generic_parameters, constraint, body, .. } => {
            assert_eq!(name.value, "Shape");
            assert!(generic_parameters.is_none());
            assert!(constraint.is_none());
            assert_eq!(body.value[0].value.name.value, "area");
        }
        other => panic!("{:?}", other),
    }
}

#[test]
fn module_of_declarations() {
    let body = vec![vec![sym("main", 0), num("1", 5)], add_function()];
    let mut diags = Vec::new();
    let m = Module::parse(&body, &mut diags).unwrap();
    assert_eq!(m.declarations.len(), 2);
    assert_eq!(m.declarations[0].range, SourceRange { start: 0, end: 6 });
    assert!(matches!(m.declarations[1].value, Declaration::Function { .. }));
}

#[test]
fn module_rejects_trailing_tokens() {
    let body = vec![vec![sym("main", 0), num("1", 5), num("2", 7)]];
    let mut diags = Vec::new();
    assert_eq!(
        Module::parse(&body, &mut diags).unwrap_err(),
        ParseError::WrongToken { expected: Expected::EndOfSegment }
    );
}

#[test]
fn module_aborts_on_unknown_declaration() {
    let body = vec![vec![sym("frobnicate", 0)], vec![sym("main", 11), num("1", 16)]];
    let mut diags = Vec::new();
    assert!(Module::parse(&body, &mut diags).is_err());
    assert_eq!(diags.len(), 1);
}
