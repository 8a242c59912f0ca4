use serendipity_parser::ast::{Declaration, Expression, Module, Statement};
use serendipity_parser::token::{SourceRange, Token, TokenNode};

fn at(token: Token, start: usize, end: usize) -> TokenNode {
    TokenNode { token, range: SourceRange { start, end } }
}

fn sym(s: &str, start: usize) -> TokenNode {
    at(Token::Symbol(s.to_string()), start, start + s.len())
}

fn sig(s: &str, start: usize) -> TokenNode {
    at(Token::Sigil(s.to_string()), start, start + s.len())
}

fn num(s: &str, start: usize) -> TokenNode {
    at(Token::Number(s.to_string()), start, start + s.len())
}

fn list(open: char, close: char, segments: Vec<Vec<TokenNode>>, start: usize, end: usize) -> TokenNode {
    at(Token::List { open, close, segments }, start, end)
}

fn expr_text(ts: Vec<TokenNode>) -> String {
    let mut diags = Vec::new();
    let (e, _) = Expression::parse(&ts, 0, &mut diags).unwrap();
    e.to_text()
}

#[test]
fn prints_nesting_with_parentheses() {
    let ts = vec![num("1", 0), sig("+", 2), num("2", 4), sig("*", 6), num("3", 8)];
    assert_eq!(expr_text(ts), "(1) + ((2) * (3))");
    let ts = vec![sym("a", 0), sig("<=", 2), sig("-", 5), sym("b", 6)];
    assert_eq!(expr_text(ts), "(a) <= (-(b))");
}

#[test]
fn prints_calls_lists_and_records() {
    let ts = vec![sym("f", 0), list('(', ')', vec![vec![sym("x", 2)], vec![num("2", 5)]], 1, 7)];
    assert_eq!(expr_text(ts), "(f)(x, 2)");
    let ts = vec![list('[', ']', vec![vec![at(Token::Str("s".to_string()), 1, 4)], vec![sym("true", 6)]], 0, 11)];
    assert_eq!(expr_text(ts), "[\"s\", true]");
    let ts = vec![list('{', '}', vec![vec![sym("a", 1), sig(":", 2), num("1", 4)], vec![sig("...", 7), sym("r", 10)]], 0, 12)];
    assert_eq!(expr_text(ts), "{a: (1), ...(r)}");
    let ts = vec![sym("a", 0), sig(".", 1), sym("b", 2)];
    assert_eq!(expr_text(ts), "(a).b");
}

#[test]
fn prints_procedures_and_statements() {
    let ts = vec![
        sig("#", 0),
        list(
            '[',
            ']',
            vec![
                vec![sym("let", 2), sym("x", 6), sig("=", 8), num("1", 10)],
                vec![sym("for", 13), sym("i", 17), sym("in", 19), sym("xs", 22), sym("pass", 25)],
                vec![sym("if", 31), sym("c", 34), sym("break", 36)],
            ],
            1,
            42,
        ),
    ];
    assert_eq!(expr_text(ts), "#[let x = (1);for i in (xs) pass;if (c) break;]");
    let s = vec![sym("loop", 0), sym("do", 5), sym("f", 8)];
    let mut diags = Vec::new();
    let (st, _) = Statement::parse(&s, 0, &mut diags).unwrap();
    assert_eq!(st.to_text(), "loop do f");
}

#[test]
fn prints_declarations_and_modules() {
    let f = vec![
        sym("fn", 0),
        sym("add", 3),
        list('(', ')', vec![vec![sym("a", 7)], vec![sym("b", 10)]], 6, 12),
        sig("->", 13),
        sym("a", 16),
        sig("+", 18),
        sym("b", 20),
    ];
    let mut diags = Vec::new();
    let (d, _) = Declaration::parse(&f, 0, &mut diags).unwrap();
    assert_eq!(d.to_text(), "fn add(a, b) -> (a) + (b)");
    let body = vec![vec![sym("main", 0), num("1", 5)], vec![sym("const", 7), sym("k", 13), sig("=", 15), sym("none", 17)]];
    let m = Module::parse(&body, &mut diags).unwrap();
    assert_eq!(m.to_text(), "main 1;\n\nconst k = none;\n\n");
    let t = vec![sym("type", 0), sym("T", 5), sig("=", 7), sig("*", 9)];
    let (d, _) = Declaration::parse(&t, 0, &mut diags).unwrap();
    assert_eq!(d.to_text(), "type T = *");
}

#[test]
fn prints_indicated_forms() {
    let ts = vec![sym("if", 0), sym("c", 3), sym("then", 5), num("1", 10), sym("else", 12), num("2", 17)];
    assert_eq!(expr_text(ts), "if (c) then (1) else (2)");
    let ts = vec![sym("fn", 0), list('(', ')', vec![vec![sym("x", 4)]], 3, 6), sig("->", 7), sym("x", 10)];
    assert_eq!(expr_text(ts), "fn (x) -> (x)");
    let ts = vec![sym("with", 0), list('(', ')', vec![vec![sym("x", 6), sig("=", 8), num("1", 10)]], 5, 12), sym("x", 13)];
    assert_eq!(expr_text(ts), "with (x = 1) (x)");
}

#[test]
fn prints_every_declaration_kind() {
    let mut diags = Vec::new();
    // fn id[T: Kind](x: T): T -> x
    let f = vec![
        sym("fn", 0),
        sym("id", 3),
        list('[', ']', vec![vec![sym("T", 6), sig(":", 7), sym("Kind", 9)]], 5, 14),
        list('(', ')', vec![vec![sym("x", 15), sig(":", 16), sym("T", 18)]], 14, 20),
        sig(":", 20),
        sym("T", 22),
        sig("->", 24),
        sym("x", 27),
    ];
    let (d, _) = Declaration::parse(&f, 0, &mut diags).unwrap();
    assert_eq!(d.to_text(), "fn id[T: Kind](x: T): T -> x");
    // import { a, b: (c, d), ...r } = use ("lib")
    let i = vec![
        sym("import", 0),
        list(
            '{',
            '}',
            vec![
                vec![sym("a", 9)],
                vec![sym("b", 12), sig(":", 13), list('(', ')', vec![vec![sym("c", 16)], vec![sym("d", 19)]], 15, 21)],
                vec![sig("...", 23), sym("r", 26)],
            ],
            7,
            28,
        ),
        sig("=", 29),
        sym("use", 31),
        list('(', ')', vec![vec![at(Token::Str("lib".to_string()), 36, 41)]], 35, 42),
    ];
    let (d, _) = Declaration::parse(&i, 0, &mut diags).unwrap();
    assert_eq!(d.to_text(), "import {a, b: (c, d), ...r} = use (\"lib\")");
    let e = vec![sym("export", 0), list('{', '}', vec![vec![sym("a", 8)], vec![sym("b", 11), sig(":", 12), sym("c", 14)]], 7, 16)];
    let (d, _) = Declaration::parse(&e, 0, &mut diags).unwrap();
    assert_eq!(d.to_text(), "export {a, b: (c)}");
    // type F[A] = fn (A, Map[A]) -> A | !
    let ty = vec![
        sym("type", 0),
        sym("F", 5),
        list('[', ']', vec![vec![sym("A", 7)]], 6, 9),
        sig("=", 10),
        sym("fn", 12),
        list('(', ')', vec![vec![sym("A", 16)], vec![sym("Map", 19), list('[', ']', vec![vec![sym("A", 23)]], 22, 25)]], 15, 26),
        sig("->", 27),
        sym("A", 30),
        sig("|", 32),
        sig("!", 34),
    ];
    let (d, _) = Declaration::parse(&ty, 0, &mut diags).unwrap();
    assert_eq!(d.to_text(), "type F[A] = fn (A, Map[A]) -> (A) | (!)");
    // interface Shape: Base { area: Number }
    let iface = vec![
        sym("interface", 0),
        sym("Shape", 10),
        sig(":", 15),
        sym("Base", 17),
        list('{', '}', vec![vec![sym("area", 23), sig(":", 27), sym("Number", 29)]], 22, 36),
    ];
    let (d, _) = Declaration::parse(&iface, 0, &mut diags).unwrap();
    assert_eq!(d.to_text(), "interface Shape: Base {area: Number}");
    let c = vec![sym("const", 0), sym("k", 6), sig(":", 7), sig("_", 9), sig("=", 11), num("1", 13)];
    let (d, _) = Declaration::parse(&c, 0, &mut diags).unwrap();
    assert_eq!(d.to_text(), "const k: _ = 1");
    assert!(diags.is_empty());
}

#[test]
fn prints_named_function_literal() {
    let ts = vec![
        sym("fn", 0),
        sym("f", 3),
        list('(', ')', vec![vec![sym("x", 5)]], 4, 7),
        sig(":", 7),
        sym("Int", 9),
        sig("->", 13),
        sym("x", 16),
    ];
    assert_eq!(expr_text(ts), "fn f(x): Int -> (x)");
}
