//! The grammar of the language, stated over token segments.
//!
//! Each production takes a segment `ts` and a position `p` and gives the
//! parsed value with the position after it, or the structural error that
//! stopped it, together with the diagnostics it raised on the way. A
//! production that succeeds always consumes at least one token; the guards
//! `moved(ts, p, q)` below state this and keep the recursion well founded.
use vstd::prelude::*;
use crate::ast::{ArithmeticOp, CompareOp, Node, UnaryOp};
use crate::error::{
    Diagnostic, DiagnosticKind, DiagnosticPhase, DiagnosticSeverity, Expected, ParseError, Word,
    word_text,
};
use crate::model::{
    Assignment, BindingPattern, Declaration, Expression, GenericParameter, InterfaceField, Module,
    ParameterDeclaration, ParsedSeq, RecordBindingElement, RecordElement, Statement, Type,
    TypeConstraint, Verbatim,
};
use crate::token::{SourceRange, Token, TokenNode, is_list, is_sigil, is_symbol};

verus! {

/// A production's outcome, with the diagnostics it raised.
pub type Outcome<T> = (Result<(T, int), ParseError>, Seq<Diagnostic>);

/// The outcome of a production that raises no diagnostics.
pub type Plain<T> = Result<(T, int), ParseError>;

/// The outcome of parsing each segment of a list.
pub type ListOutcome<T> = (Result<Seq<Node<T>>, ParseError>, Seq<Diagnostic>);

pub type PlainList<T> = Result<Seq<Node<T>>, ParseError>;

/// The outcome of parsing one whole segment.
pub type SegOutcome<T> = (Result<Node<T>, ParseError>, Seq<Diagnostic>);

pub open spec fn moved(ts: Seq<TokenNode>, p: int, q: int) -> bool {
    0 <= p < q <= ts.len()
}

/// The source range covered by the tokens `ts[p..q]`.
pub open spec fn span(ts: Seq<TokenNode>, p: int, q: int) -> SourceRange {
    SourceRange { start: ts[p].range.start, end: ts[q - 1].range.end }
}

pub open spec fn at_end(ts: Seq<TokenNode>, p: int) -> bool {
    !(0 <= p < ts.len())
}

pub open spec fn verbatim(ts: Seq<TokenNode>, p: int, s: String) -> Verbatim {
    Node { value: s, range: ts[p].range }
}

// ---------------------------------------------------------------- tokens

/// Any symbol.
pub open spec fn symbol(ts: Seq<TokenNode>, p: int) -> Plain<Verbatim> {
    if at_end(ts, p) {
        Err(ParseError::EndOfSegment)
    } else {
        match ts[p].token {
            Token::Symbol(s) => Ok((verbatim(ts, p, s), p + 1)),
            _ => Err(ParseError::WrongToken { expected: Expected::Symbol }),
        }
    }
}

/// A symbol with the text of `w`.
pub open spec fn keyword(ts: Seq<TokenNode>, p: int, w: Word) -> Plain<Verbatim> {
    if at_end(ts, p) {
        Err(ParseError::EndOfSegment)
    } else {
        match ts[p].token {
            Token::Symbol(s) => if s@ == word_text(w) {
                Ok((verbatim(ts, p, s), p + 1))
            } else {
                Err(ParseError::WrongTokenContents { expected: Expected::Word(w), found: s })
            },
            _ => Err(ParseError::WrongToken { expected: Expected::Word(w) }),
        }
    }
}

/// A sigil with the text of `w`.
pub open spec fn sigil(ts: Seq<TokenNode>, p: int, w: Word) -> Plain<Verbatim> {
    if at_end(ts, p) {
        Err(ParseError::EndOfSegment)
    } else {
        match ts[p].token {
            Token::Sigil(s) => if s@ == word_text(w) {
                Ok((verbatim(ts, p, s), p + 1))
            } else {
                Err(ParseError::WrongTokenContents { expected: Expected::Word(w), found: s })
            },
            _ => Err(ParseError::WrongToken { expected: Expected::Word(w) }),
        }
    }
}

/// Whether `n` is a list opened by `open`, or any list if `open` is `None`.
pub open spec fn list_fits(n: TokenNode, open: Option<char>) -> bool {
    match n.token {
        Token::List { open: o, .. } => match open {
            Some(c) => o == c,
            None => true,
        },
        _ => false,
    }
}

/// The error for a position that holds no fitting list.
pub open spec fn list_error(ts: Seq<TokenNode>, p: int, open: Option<char>) -> ParseError {
    if at_end(ts, p) {
        ParseError::EndOfSegment
    } else {
        ParseError::WrongToken { expected: Expected::List(open) }
    }
}

pub open spec fn segments_of(n: TokenNode) -> Seq<Vec<TokenNode>> {
    match n.token {
        Token::List { segments, .. } => segments@,
        _ => Seq::empty(),
    }
}

pub open spec fn compare_op(s: Seq<char>) -> Option<CompareOp> {
    if s == "=="@ {
        Some(CompareOp::Equal)
    } else if s == "!="@ {
        Some(CompareOp::NotEqual)
    } else if s == "<="@ {
        Some(CompareOp::LessThanOrEqual)
    } else if s == ">="@ {
        Some(CompareOp::GreaterThanOrEqual)
    } else if s == "<"@ {
        Some(CompareOp::LessThan)
    } else if s == ">"@ {
        Some(CompareOp::GreaterThan)
    } else {
        None
    }
}

pub open spec fn sum_op(s: Seq<char>) -> Option<ArithmeticOp> {
    if s == "+"@ {
        Some(ArithmeticOp::Add)
    } else if s == "-"@ {
        Some(ArithmeticOp::Subtract)
    } else {
        None
    }
}

pub open spec fn product_op(s: Seq<char>) -> Option<ArithmeticOp> {
    if s == "*"@ {
        Some(ArithmeticOp::Multiply)
    } else if s == "/"@ {
        Some(ArithmeticOp::Divide)
    } else if s == "%"@ {
        Some(ArithmeticOp::Modulus)
    } else {
        None
    }
}

pub open spec fn unary_op(s: Seq<char>) -> Option<UnaryOp> {
    if s == "!"@ {
        Some(UnaryOp::Negate)
    } else if s == "-"@ {
        Some(UnaryOp::Minus)
    } else {
        None
    }
}

/// The operator that the token at `p` stands for, if it is one of compare_op's sigils.
pub open spec fn compare_at(ts: Seq<TokenNode>, p: int) -> Option<CompareOp> {
    if at_end(ts, p) {
        None
    } else {
        match ts[p].token {
            Token::Sigil(s) => compare_op(s@),
            _ => None,
        }
    }
}

/// The operator that the token at `p` stands for, if it is one of sum_op's sigils.
pub open spec fn sum_at(ts: Seq<TokenNode>, p: int) -> Option<ArithmeticOp> {
    if at_end(ts, p) {
        None
    } else {
        match ts[p].token {
            Token::Sigil(s) => sum_op(s@),
            _ => None,
        }
    }
}

/// The operator that the token at `p` stands for, if it is one of product_op's sigils.
pub open spec fn product_at(ts: Seq<TokenNode>, p: int) -> Option<ArithmeticOp> {
    if at_end(ts, p) {
        None
    } else {
        match ts[p].token {
            Token::Sigil(s) => product_op(s@),
            _ => None,
        }
    }
}

/// The operator that the token at `p` stands for, if it is one of unary_op's sigils.
pub open spec fn unary_at(ts: Seq<TokenNode>, p: int) -> Option<UnaryOp> {
    if at_end(ts, p) {
        None
    } else {
        match ts[p].token {
            Token::Sigil(s) => unary_op(s@),
            _ => None,
        }
    }
}

/// The operator `op` that the token at `p` was read as, if any.
pub open spec fn operator<O>(ts: Seq<TokenNode>, p: int, op: Option<O>) -> Plain<O> {
    if at_end(ts, p) {
        Err(ParseError::EndOfSegment)
    } else {
        match op {
            Some(o) => Ok((o, p + 1)),
            None => Err(ParseError::WrongToken { expected: Expected::Operator }),
        }
    }
}

// ---------------------------------------------------------------- types

/// `Simple ('|' Simple)?`
#[verifier::opaque]
pub open spec fn type_expr(ts: Seq<TokenNode>, p: int) -> Plain<Type>
    decreases ts, ts.len() + 3 - p, 6int,
{
    match simple_type(ts, p) {
        Err(e) => Err(e),
        Ok((t, q)) => if !moved(ts, p, q) {
            Err(ParseError::EndOfSegment)
        } else if q < ts.len() && is_sigil(ts[q], "|"@) {
            match simple_type(ts, q + 1) {
                Err(e) => Err(e),
                Ok((u, r)) => Ok((
                    Type::Union {
                        left: Box::new(Node { value: t, range: span(ts, p, q) }),
                        right: Box::new(Node { value: u, range: span(ts, q + 1, r) }),
                    },
                    r,
                )),
            }
        } else {
            Ok((t, q))
        },
    }
}

/// `*`, `!`, `_`, a function type, a reference with optional generic
/// arguments, or a parenthesised group.
#[verifier::opaque]
pub open spec fn simple_type(ts: Seq<TokenNode>, p: int) -> Plain<Type>
    decreases ts, ts.len() + 3 - p, 5int,
{
    if at_end(ts, p) {
        Err(ParseError::EndOfSegment)
    } else {
        match ts[p].token {
            Token::Sigil(s) => if s@ == "*"@ {
                Ok((Type::Kind, p + 1))
            } else if s@ == "!"@ {
                Ok((Type::Never, p + 1))
            } else if s@ == "_"@ {
                Ok((Type::Unknown, p + 1))
            } else {
                Err(ParseError::WrongToken { expected: Expected::Type })
            },
            Token::Symbol(s) => if s@ == "fn"@ {
                match types_at(ts, p + 1, Some('(')) {
                    Err(e) => Err(e),
                    Ok((params, _)) => match sigil(ts, p + 2, Word::Arrow) {
                        Err(e) => Err(e),
                        Ok((arrow, _)) => match type_expr(ts, p + 3) {
                            Err(e) => Err(e),
                            Ok((rt, r)) => Ok((
                                Type::Function {
                                    fn_keyword: verbatim(ts, p, s),
                                    parameters: params,
                                    arrow_token: arrow,
                                    return_type: Box::new(Node { value: rt, range: span(ts, p + 3, r) }),
                                },
                                r,
                            )),
                        },
                    },
                }
            } else {
                match types_at(ts, p + 1, Some('[')) {
                    Ok((args, q)) => Ok((
                        Type::Reference { name: verbatim(ts, p, s), generic_parameters: Some(args) },
                        q,
                    )),
                    Err(_) => Ok((
                        Type::Reference { name: verbatim(ts, p, s), generic_parameters: None },
                        p + 1,
                    )),
                }
            },
            Token::List { open, segments, .. } => if open != '(' {
                Err(ParseError::WrongToken { expected: Expected::Type })
            } else if segments@.len() > 1 {
                match types_in(segments@, segments@.len() as int) {
                    Err(e) => Err(e),
                    Ok(v) => Ok((Type::Tuple { members: Node { value: v, range: ts[p].range } }, p + 1)),
                }
            } else if segments@.len() == 1 {
                match type_expr_seg(segments@[0]@) {
                    Err(e) => Err(e),
                    Ok(n) => Ok((n.value, p + 1)),
                }
            } else {
                Err(ParseError::WrongToken { expected: Expected::SingleElement })
            },
            _ => Err(ParseError::WrongToken { expected: Expected::Type }),
        }
    }
}

/// `':' Type`
#[verifier::opaque]
pub open spec fn type_constraint(ts: Seq<TokenNode>, p: int) -> Plain<TypeConstraint>
    decreases ts, ts.len() + 3 - p, 7int,
{
    match sigil(ts, p, Word::Colon) {
        Err(e) => Err(e),
        Ok((colon, _)) => match type_expr(ts, p + 1) {
            Err(e) => Err(e),
            Ok((t, q)) => Ok((
                TypeConstraint {
                    colon_token: colon,
                    type_: Box::new(Node { value: t, range: span(ts, p + 1, q) }),
                },
                q,
            )),
        },
    }
}

/// An optional type constraint: on failure nothing is consumed.
#[verifier::opaque]
pub open spec fn opt_type_constraint(ts: Seq<TokenNode>, p: int) -> (Option<Node<TypeConstraint>>, int)
    decreases ts, ts.len() + 3 - p, 8int,
{
    match type_constraint(ts, p) {
        Ok((c, q)) => (Some(Node { value: c, range: span(ts, p, q) }), q),
        Err(_) => (None, p),
    }
}

/// `SYM TypeConstraint?`
#[verifier::opaque]
pub open spec fn generic_parameter(ts: Seq<TokenNode>, p: int) -> Plain<GenericParameter>
    decreases ts, ts.len() + 3 - p, 9int,
{
    match symbol(ts, p) {
        Err(e) => Err(e),
        Ok((name, _)) => {
            let (c, q) = opt_type_constraint(ts, p + 1);
            Ok((GenericParameter { name, constraint: c }, q))
        },
    }
}

/// An optional bracketed generic-parameter list: on failure nothing is
/// consumed.
#[verifier::opaque]
pub open spec fn opt_generics(ts: Seq<TokenNode>, p: int) -> (Option<ParsedSeq<GenericParameter>>, int)
    decreases ts, ts.len() + 3 - p, 1int,
{
    match gps_at(ts, p, Some('[')) {
        Ok((v, q)) => (Some(v), q),
        Err(_) => (None, p),
    }
}

/// `SYM TypeConstraint?`
#[verifier::opaque]
pub open spec fn parameter(ts: Seq<TokenNode>, p: int) -> Plain<ParameterDeclaration>
    decreases ts, ts.len() + 3 - p, 9int,
{
    match symbol(ts, p) {
        Err(e) => Err(e),
        Ok((name, _)) => {
            let (c, q) = opt_type_constraint(ts, p + 1);
            Ok((ParameterDeclaration { name, type_: c }, q))
        },
    }
}

/// `SYM TypeConstraint`
#[verifier::opaque]
pub open spec fn interface_field(ts: Seq<TokenNode>, p: int) -> Plain<InterfaceField>
    decreases ts, ts.len() + 3 - p, 9int,
{
    match symbol(ts, p) {
        Err(e) => Err(e),
        Ok((name, _)) => match type_constraint(ts, p + 1) {
            Err(e) => Err(e),
            Ok((c, q)) => Ok((
                InterfaceField { name, constraint: Node { value: c, range: span(ts, p + 1, q) } },
                q,
            )),
        },
    }
}

// ---------------------------------------------------------------- patterns

/// A symbol, a parenthesised group of patterns, or a braced record of
/// binding elements.
#[verifier::opaque]
pub open spec fn pattern(ts: Seq<TokenNode>, p: int) -> Plain<BindingPattern>
    decreases ts, ts.len() + 3 - p, 3int,
{
    if at_end(ts, p) {
        Err(ParseError::EndOfSegment)
    } else {
        match ts[p].token {
            Token::Symbol(s) => Ok((BindingPattern::Identifier { name: verbatim(ts, p, s) }, p + 1)),
            Token::List { open, segments, .. } => if open == '(' {
                match pats_in(segments@, segments@.len() as int) {
                    Err(e) => Err(e),
                    Ok(v) => if v.len() == 1 {
                        Ok((v[0].value, p + 1))
                    } else {
                        Ok((BindingPattern::Tuple { patterns: Node { value: v, range: ts[p].range } }, p + 1))
                    },
                }
            } else if open == '{' {
                match binds_in(segments@, segments@.len() as int) {
                    Err(e) => Err(e),
                    Ok(v) => Ok((BindingPattern::Record { elements: Node { value: v, range: ts[p].range } }, p + 1)),
                }
            } else {
                Err(ParseError::WrongToken { expected: Expected::Pattern })
            },
            _ => Err(ParseError::WrongToken { expected: Expected::Pattern }),
        }
    }
}

/// `SYM`, `SYM ':' Pattern`, or `'...' SYM`.
#[verifier::opaque]
pub open spec fn binding_element(ts: Seq<TokenNode>, p: int) -> Plain<RecordBindingElement>
    decreases ts, ts.len() + 3 - p, 3int,
{
    if at_end(ts, p) {
        Err(ParseError::EndOfSegment)
    } else {
        match ts[p].token {
            Token::Symbol(s) => if p + 1 < ts.len() && is_sigil(ts[p + 1], ":"@) {
                match pattern(ts, p + 2) {
                    Err(e) => Err(e),
                    Ok((pt, q)) => Ok((
                        RecordBindingElement::KeyValuePair {
                            name: verbatim(ts, p, s),
                            pattern: Node { value: pt, range: span(ts, p + 2, q) },
                        },
                        q,
                    )),
                }
            } else {
                Ok((RecordBindingElement::Identifier { name: verbatim(ts, p, s) }, p + 1))
            },
            Token::Sigil(s) => if s@ == "..."@ {
                match symbol(ts, p + 1) {
                    Err(e) => Err(e),
                    Ok((name, q)) => Ok((RecordBindingElement::Rest { name }, q)),
                }
            } else {
                Err(ParseError::WrongToken { expected: Expected::BindingElement })
            },
            _ => Err(ParseError::WrongToken { expected: Expected::BindingElement }),
        }
    }
}

// ---------------------------------------------------------------- expressions

/// The warning raised for `()` used as a value.
pub open spec fn empty_tuple_warning(range: SourceRange) -> Diagnostic {
    Diagnostic {
        severity: DiagnosticSeverity::Warning,
        phase: DiagnosticPhase::Parse,
        range,
        kind: DiagnosticKind::EmptyTuple,
        note: None,
        subject: None,
        inner_diagnostics: None,
    }
}

/// `Expr ::= IndicatedForm | Compare`
#[verifier::opaque]
pub open spec fn expression(ts: Seq<TokenNode>, p: int) -> Outcome<Expression>
    decreases ts, ts.len() + 3 - p, 20int,
{
    if at_end(ts, p) {
        (Err(ParseError::EndOfSegment), Seq::empty())
    } else if is_symbol(ts[p], "fn"@) {
        fn_literal(ts, p)
    } else if is_symbol(ts[p], "with"@) {
        with_expression(ts, p)
    } else if is_symbol(ts[p], "if"@) {
        if_expression(ts, p)
    } else {
        compare(ts, p)
    }
}

/// `'fn' SYM? Generics? List TypeConstraint? '->' Expr`
#[verifier::opaque]
pub open spec fn fn_literal(ts: Seq<TokenNode>, p: int) -> Outcome<Expression>
    decreases ts, ts.len() + 3 - p, 19int,
{
    match symbol(ts, p) {
        Err(e) => (Err(e), Seq::empty()),
        Ok((kw, _)) => {
            let (name, q1) = match symbol(ts, p + 1) {
                Ok((n, q)) => (Some(n), q),
                Err(_) => (None, p + 1),
            };
            let (generics, q2) = opt_generics(ts, q1);
            if !(p < q2) {
                (Err(ParseError::EndOfSegment), Seq::empty())
            } else {
                match params_at(ts, q2, None) {
                    Err(e) => (Err(e), Seq::empty()),
                    Ok((params, q3)) => {
                        let (constraint, q4) = opt_type_constraint(ts, q3);
                        if !(p < q4) {
                            (Err(ParseError::EndOfSegment), Seq::empty())
                        } else {
                            match sigil(ts, q4, Word::Arrow) {
                                Err(e) => (Err(e), Seq::empty()),
                                Ok((arrow, _)) => {
                                    let (r, d) = expression(ts, q4 + 1);
                                    match r {
                                        Err(e) => (Err(e), d),
                                        Ok((b, q5)) => (
                                            Ok((
                                                Expression::Function {
                                                    fn_keyword: kw,
                                                    name,
                                                    generic_parameters: generics,
                                                    parameters: params,
                                                    constraint,
                                                    arrow_token: arrow,
                                                    body: Box::new(Node { value: b, range: span(ts, q4 + 1, q5) }),
                                                },
                                                q5,
                                            )),
                                            d,
                                        ),
                                    }
                                },
                            }
                        }
                    },
                }
            }
        },
    }
}

/// `'with' List Expr`: a list of bindings, then the body.
#[verifier::opaque]
pub open spec fn with_expression(ts: Seq<TokenNode>, p: int) -> Outcome<Expression>
    decreases ts, ts.len() + 3 - p, 19int,
{
    match symbol(ts, p) {
        Err(e) => (Err(e), Seq::empty()),
        Ok((kw, _)) => {
            let (r1, d1) = assigns_at(ts, p + 1, None);
            match r1 {
                Err(e) => (Err(e), d1),
                Ok((bindings, _)) => {
                    let (r2, d2) = expression(ts, p + 2);
                    match r2 {
                        Err(e) => (Err(e), d1 + d2),
                        Ok((b, q)) => (
                            Ok((
                                Expression::With {
                                    with_keyword: kw,
                                    bindings,
                                    body: Box::new(Node { value: b, range: span(ts, p + 2, q) }),
                                },
                                q,
                            )),
                            d1 + d2,
                        ),
                    }
                },
            }
        },
    }
}

/// `'if' Expr 'then' Expr 'else' Expr`
#[verifier::opaque]
pub open spec fn if_expression(ts: Seq<TokenNode>, p: int) -> Outcome<Expression>
    decreases ts, ts.len() + 3 - p, 19int,
{
    match symbol(ts, p) {
        Err(e) => (Err(e), Seq::empty()),
        Ok((if_kw, _)) => {
            let (r1, d1) = expression(ts, p + 1);
            match r1 {
                Err(e) => (Err(e), d1),
                Ok((c, q1)) => if !moved(ts, p, q1) {
                    (Err(ParseError::EndOfSegment), d1)
                } else {
                    match keyword(ts, q1, Word::Then) {
                        Err(e) => (Err(e), d1),
                        Ok((then_kw, _)) => {
                            let (r2, d2) = expression(ts, q1 + 1);
                            match r2 {
                                Err(e) => (Err(e), d1 + d2),
                                Ok((t, q2)) => if !moved(ts, q1, q2) {
                                    (Err(ParseError::EndOfSegment), d1 + d2)
                                } else {
                                    match keyword(ts, q2, Word::Else) {
                                        Err(e) => (Err(e), d1 + d2),
                                        Ok((else_kw, _)) => {
                                            let (r3, d3) = expression(ts, q2 + 1);
                                            match r3 {
                                                Err(e) => (Err(e), d1 + d2 + d3),
                                                Ok((e, q3)) => (
                                                    Ok((
                                                        Expression::If {
                                                            if_keyword: if_kw,
                                                            condition: Box::new(Node { value: c, range: span(ts, p + 1, q1) }),
                                                            then_keyword: then_kw,
                                                            then: Box::new(Node { value: t, range: span(ts, q1 + 1, q2) }),
                                                            else_keyword: else_kw,
                                                            _else: Box::new(Node { value: e, range: span(ts, q2 + 1, q3) }),
                                                        },
                                                        q3,
                                                    )),
                                                    d1 + d2 + d3,
                                                ),
                                            }
                                        },
                                    }
                                },
                            }
                        },
                    }
                },
            }
        },
    }
}

/// `Compare ::= Arith (CMPOP Compare)?`, nesting to the right.
#[verifier::opaque]
pub open spec fn compare(ts: Seq<TokenNode>, p: int) -> Outcome<Expression>
    decreases ts, ts.len() + 3 - p, 18int,
{
    let (r1, d1) = arith(ts, p);
    match r1 {
        Err(e) => (Err(e), d1),
        Ok((l, q)) => if !moved(ts, p, q) {
            (Err(ParseError::EndOfSegment), d1)
        } else {
            match compare_at(ts, q) {
                None => (Ok((l, q)), d1),
                Some(op) => {
                    let (r2, d2) = compare(ts, q + 1);
                    match r2 {
                        Err(e) => (Err(e), d1 + d2),
                        Ok((rt, r)) => (
                            Ok((
                                Expression::Compare {
                                    operator: Node { value: op, range: ts[q].range },
                                    left: Box::new(Node { value: l, range: span(ts, p, q) }),
                                    right: Box::new(Node { value: rt, range: span(ts, q + 1, r) }),
                                },
                                r,
                            )),
                            d1 + d2,
                        ),
                    }
                },
            }
        },
    }
}

/// `Arith ::= Term (('+'|'-') Arith)?`, nesting to the right.
#[verifier::opaque]
pub open spec fn arith(ts: Seq<TokenNode>, p: int) -> Outcome<Expression>
    decreases ts, ts.len() + 3 - p, 17int,
{
    let (r1, d1) = term(ts, p);
    match r1 {
        Err(e) => (Err(e), d1),
        Ok((l, q)) => if !moved(ts, p, q) {
            (Err(ParseError::EndOfSegment), d1)
        } else {
            match sum_at(ts, q) {
                None => (Ok((l, q)), d1),
                Some(op) => {
                    let (r2, d2) = arith(ts, q + 1);
                    match r2 {
                        Err(e) => (Err(e), d1 + d2),
                        Ok((rt, r)) => (
                            Ok((
                                Expression::Arithmetic {
                                    operator: Node { value: op, range: ts[q].range },
                                    left: Box::new(Node { value: l, range: span(ts, p, q) }),
                                    right: Box::new(Node { value: rt, range: span(ts, q + 1, r) }),
                                },
                                r,
                            )),
                            d1 + d2,
                        ),
                    }
                },
            }
        },
    }
}

/// `Term ::= Unary (('*'|'/'|'%') Term)?`, nesting to the right.
#[verifier::opaque]
pub open spec fn term(ts: Seq<TokenNode>, p: int) -> Outcome<Expression>
    decreases ts, ts.len() + 3 - p, 16int,
{
    let (r1, d1) = unary(ts, p);
    match r1 {
        Err(e) => (Err(e), d1),
        Ok((l, q)) => if !moved(ts, p, q) {
            (Err(ParseError::EndOfSegment), d1)
        } else {
            match product_at(ts, q) {
                None => (Ok((l, q)), d1),
                Some(op) => {
                    let (r2, d2) = term(ts, q + 1);
                    match r2 {
                        Err(e) => (Err(e), d1 + d2),
                        Ok((rt, r)) => (
                            Ok((
                                Expression::Arithmetic {
                                    operator: Node { value: op, range: ts[q].range },
                                    left: Box::new(Node { value: l, range: span(ts, p, q) }),
                                    right: Box::new(Node { value: rt, range: span(ts, q + 1, r) }),
                                },
                                r,
                            )),
                            d1 + d2,
                        ),
                    }
                },
            }
        },
    }
}

/// `Unary ::= ('!'|'-') Unary | FieldAccess`
#[verifier::opaque]
pub open spec fn unary(ts: Seq<TokenNode>, p: int) -> Outcome<Expression>
    decreases ts, ts.len() + 3 - p, 15int,
{
    match unary_at(ts, p) {
        None => field_access(ts, p),
        Some(op) => {
            let (r, d) = unary(ts, p + 1);
            match r {
                Err(e) => (Err(e), d),
                Ok((x, q)) => (
                    Ok((
                        Expression::Unary {
                            operator: Node { value: op, range: ts[p].range },
                            expression: Box::new(Node { value: x, range: span(ts, p + 1, q) }),
                        },
                        q,
                    )),
                    d,
                ),
            }
        },
    }
}

/// `Postfix ::= Primary ('(' Expr* ')' | '[' Expr ']')*`
#[verifier::opaque]
pub open spec fn postfix(ts: Seq<TokenNode>, p: int) -> Outcome<Expression>
    decreases ts, ts.len() + 3 - p, 13int,
{
    let (r1, d1) = element(ts, p);
    match r1 {
        Err(e) => (Err(e), d1),
        Ok((x, q)) => if !moved(ts, p, q) {
            (Err(ParseError::EndOfSegment), d1)
        } else {
            let (r2, d2) = postfix_rest(ts, p, Node { value: x, range: span(ts, p, q) }, q);
            (r2, d1 + d2)
        },
    }
}

/// The calls and index accesses that follow `acc`, which spans `ts[p..q]`,
/// applied from left to right.
#[verifier::opaque]
pub open spec fn postfix_rest(ts: Seq<TokenNode>, p: int, acc: Node<Expression>, q: int) -> Outcome<Expression>
    decreases ts, ts.len() + 3 - q, 1int,
{
    if at_end(ts, q) {
        (Ok((acc.value, q)), Seq::empty())
    } else {
        match ts[q].token {
            Token::List { open, segments, .. } => if open == '(' {
                let (r1, d1) = exprs_in(segments@, segments@.len() as int);
                match r1 {
                    Err(e) => (Err(e), d1),
                    Ok(args) => {
                        let call = Expression::Call {
                            callee: Box::new(acc),
                            parameters: Node { value: args, range: ts[q].range },
                        };
                        let (r2, d2) = postfix_rest(ts, p, Node { value: call, range: span(ts, p, q + 1) }, q + 1);
                        (r2, d1 + d2)
                    },
                }
            } else if open == '[' {
                if segments@.len() != 1 {
                    (Err(ParseError::WrongToken { expected: Expected::SingleElement }), Seq::empty())
                } else {
                    let (r1, d1) = expression_seg(segments@[0]@);
                    match r1 {
                        Err(e) => (Err(e), d1),
                        Ok(ix) => {
                            let acc2 = Expression::Accessor { accessee: Box::new(acc), index: Box::new(ix) };
                            let (r2, d2) = postfix_rest(ts, p, Node { value: acc2, range: span(ts, p, q + 1) }, q + 1);
                            (r2, d1 + d2)
                        },
                    }
                }
            } else {
                (Ok((acc.value, q)), Seq::empty())
            },
            _ => (Ok((acc.value, q)), Seq::empty()),
        }
    }
}

/// `FieldAccess ::= Postfix ('.' SYM)?`: at most one field access, applied
/// to the whole call and index chain.
#[verifier::opaque]
pub open spec fn field_access(ts: Seq<TokenNode>, p: int) -> Outcome<Expression>
    decreases ts, ts.len() + 3 - p, 14int,
{
    let (r, d) = postfix(ts, p);
    match r {
        Err(e) => (Err(e), d),
        Ok((x, q)) => if q < ts.len() && is_sigil(ts[q], "."@) {
            match symbol(ts, q + 1) {
                Err(e) => (Err(e), d),
                Ok((f, r2)) => (
                    Ok((
                        Expression::FieldAccess {
                            accessee: Box::new(Node { value: x, range: span(ts, p, q) }),
                            field: f,
                        },
                        r2,
                    )),
                    d,
                ),
            }
        } else {
            (Ok((x, q)), d)
        },
    }
}

/// A primary element: a delimited group, a literal, a name, a hole, or a
/// procedure `#[...]`.
#[verifier::opaque]
pub open spec fn element(ts: Seq<TokenNode>, p: int) -> Outcome<Expression>
    decreases ts, ts.len() + 3 - p, 12int,
{
    if at_end(ts, p) {
        (Err(ParseError::EndOfSegment), Seq::empty())
    } else {
        match ts[p].token {
            Token::List { .. } => group(ts, p),
            Token::Sigil(_) => sigil_element(ts, p),
            _ => (atom(ts, p), Seq::empty()),
        }
    }
}

/// A literal or a name.
pub open spec fn atom(ts: Seq<TokenNode>, p: int) -> Plain<Expression> {
    if at_end(ts, p) {
        Err(ParseError::EndOfSegment)
    } else {
        match ts[p].token {
            Token::Symbol(s) => if s@ == "true"@ {
                Ok((Expression::Boolean(true), p + 1))
            } else if s@ == "false"@ {
                Ok((Expression::Boolean(false), p + 1))
            } else if s@ == "none"@ {
                Ok((Expression::NoneLiteral, p + 1))
            } else {
                Ok((Expression::Name(s), p + 1))
            },
            Token::Number(s) => Ok((Expression::Number(s), p + 1)),
            Token::Str(s) => Ok((Expression::String(s), p + 1)),
            _ => Err(ParseError::WrongToken { expected: Expected::Expression }),
        }
    }
}

/// A hole `@` or a procedure `#[...]`.
#[verifier::opaque]
pub open spec fn sigil_element(ts: Seq<TokenNode>, p: int) -> Outcome<Expression>
    decreases ts, ts.len() + 3 - p, 10int,
{
    if at_end(ts, p) {
        (Err(ParseError::EndOfSegment), Seq::empty())
    } else {
        match ts[p].token {
            Token::Sigil(s) => if s@ == "@"@ {
                (Ok((Expression::Hole, p + 1)), Seq::empty())
            } else if s@ == "#"@ {
                let (r, d) = stmts_at(ts, p + 1, Some('['));
                match r {
                    Err(e) => (Err(e), d),
                    Ok((body, q)) => (Ok((Expression::Procedure { body }, q)), d),
                }
            } else {
                (Err(ParseError::WrongToken { expected: Expected::Expression }), Seq::empty())
            },
            _ => (Err(ParseError::WrongToken { expected: Expected::Expression }), Seq::empty()),
        }
    }
}

/// A delimited group standing as an expression: `(...)` is a tuple, or the
/// one expression it holds, `[...]` a list, and `{...}` a record.
#[verifier::opaque]
pub open spec fn group(ts: Seq<TokenNode>, p: int) -> Outcome<Expression>
    decreases ts, ts.len() + 3 - p, 11int,
{
    if at_end(ts, p) {
        (Err(ParseError::EndOfSegment), Seq::empty())
    } else {
        match ts[p].token {
        Token::List { open, segments, .. } => if open == '(' {
            let (r, d) = exprs_in(segments@, segments@.len() as int);
            match r {
                Err(e) => (Err(e), d),
                Ok(v) => if v.len() == 0 {
                    (
                        Ok((Expression::Tuple { elements: Node { value: v, range: ts[p].range } }, p + 1)),
                        d.push(empty_tuple_warning(ts[p].range)),
                    )
                } else if v.len() == 1 {
                    (Ok((v[0].value, p + 1)), d)
                } else {
                    (Ok((Expression::Tuple { elements: Node { value: v, range: ts[p].range } }, p + 1)), d)
                },
            }
        } else if open == '[' {
            let (r, d) = exprs_in(segments@, segments@.len() as int);
            match r {
                Err(e) => (Err(e), d),
                Ok(v) => (Ok((Expression::List { elements: Node { value: v, range: ts[p].range } }, p + 1)), d),
            }
        } else if open == '{' {
            let (r, d) = recs_in(segments@, segments@.len() as int);
            match r {
                Err(e) => (Err(e), d),
                Ok(v) => (Ok((Expression::Record { elements: Node { value: v, range: ts[p].range } }, p + 1)), d),
            }
        } else {
            (Err(ParseError::WrongToken { expected: Expected::Expression }), Seq::empty())
        },
            _ => (Err(ParseError::WrongToken { expected: Expected::Expression }), Seq::empty()),
        }
    }
}

/// `SYM '=' Expr`
#[verifier::opaque]
pub open spec fn assignment(ts: Seq<TokenNode>, p: int) -> Outcome<Assignment>
    decreases ts, ts.len() + 3 - p, 21int,
{
    match symbol(ts, p) {
        Err(e) => (Err(e), Seq::empty()),
        Ok((name, _)) => match sigil(ts, p + 1, Word::Equals) {
            Err(e) => (Err(e), Seq::empty()),
            Ok((eq, _)) => {
                let (r, d) = expression(ts, p + 2);
                match r {
                    Err(e) => (Err(e), d),
                    Ok((v, q)) => (
                        Ok((
                            Assignment {
                                symbol: name,
                                equal_token: eq,
                                value: Node { value: v, range: span(ts, p + 2, q) },
                            },
                            q,
                        )),
                        d,
                    ),
                }
            },
        },
    }
}

/// `SYM ':' Expr`, `SYM`, or `'...' Expr`.
#[verifier::opaque]
pub open spec fn record_element(ts: Seq<TokenNode>, p: int) -> Outcome<RecordElement>
    decreases ts, ts.len() + 3 - p, 21int,
{
    if at_end(ts, p) {
        (Err(ParseError::EndOfSegment), Seq::empty())
    } else {
        match ts[p].token {
            Token::Symbol(s) => if p + 1 < ts.len() && is_sigil(ts[p + 1], ":"@) {
                let (r, d) = expression(ts, p + 2);
                match r {
                    Err(e) => (Err(e), d),
                    Ok((v, q)) => (
                        Ok((
                            RecordElement::KeyValuePair {
                                key: verbatim(ts, p, s),
                                value: Node { value: v, range: span(ts, p + 2, q) },
                            },
                            q,
                        )),
                        d,
                    ),
                }
            } else {
                (Ok((RecordElement::Identifier { name: verbatim(ts, p, s) }, p + 1)), Seq::empty())
            },
            Token::Sigil(s) => if s@ == "..."@ {
                let (r, d) = expression(ts, p + 1);
                match r {
                    Err(e) => (Err(e), d),
                    Ok((v, q)) => (
                        Ok((RecordElement::Spread { value: Node { value: v, range: span(ts, p + 1, q) } }, q)),
                        d,
                    ),
                }
            } else {
                (Err(ParseError::WrongToken { expected: Expected::RecordElement }), Seq::empty())
            },
            _ => (Err(ParseError::WrongToken { expected: Expected::RecordElement }), Seq::empty()),
        }
    }
}

// ---------------------------------------------------------------- statements

/// One statement of a procedure body.
#[verifier::opaque]
pub open spec fn statement(ts: Seq<TokenNode>, p: int) -> Outcome<Statement>
    decreases ts, ts.len() + 3 - p, 22int,
{
    if at_end(ts, p) {
        (Err(ParseError::EndOfSegment), Seq::empty())
    } else {
        match ts[p].token {
            Token::Symbol(s) => if s@ == "let"@ {
                let (r, d) = assignment(ts, p + 1);
                match r {
                    Err(e) => (Err(e), d),
                    Ok((a, q)) => (
                        Ok((
                            Statement::Let {
                                let_keyword: verbatim(ts, p, s),
                                assignment: Node { value: a, range: span(ts, p + 1, q) },
                            },
                            q,
                        )),
                        d,
                    ),
                }
            } else if s@ == "if"@ {
                let (r1, d1) = expression(ts, p + 1);
                match r1 {
                    Err(e) => (Err(e), d1),
                    Ok((c, q1)) => if !moved(ts, p, q1) {
                        (Err(ParseError::EndOfSegment), d1)
                    } else {
                        let (r2, d2) = statement(ts, q1);
                        match r2 {
                            Err(e) => (Err(e), d1 + d2),
                            Ok((st, q2)) => (
                                Ok((
                                    Statement::If {
                                        if_keyword: verbatim(ts, p, s),
                                        condition: Box::new(Node { value: c, range: span(ts, p + 1, q1) }),
                                        then: Box::new(Node { value: st, range: span(ts, q1, q2) }),
                                        _else: None,
                                    },
                                    q2,
                                )),
                                d1 + d2,
                            ),
                        }
                    },
                }
            } else if s@ == "for"@ {
                match symbol(ts, p + 1) {
                    Err(e) => (Err(e), Seq::empty()),
                    Ok((binding, _)) => match keyword(ts, p + 2, Word::In) {
                        Err(e) => (Err(e), Seq::empty()),
                        Ok((in_kw, _)) => {
                            let (r1, d1) = expression(ts, p + 3);
                            match r1 {
                                Err(e) => (Err(e), d1),
                                Ok((it, q1)) => if !moved(ts, p, q1) {
                                    (Err(ParseError::EndOfSegment), d1)
                                } else {
                                    let (r2, d2) = statement(ts, q1);
                                    match r2 {
                                        Err(e) => (Err(e), d1 + d2),
                                        Ok((b, q2)) => (
                                            Ok((
                                                Statement::ForIn {
                                                    for_keyword: verbatim(ts, p, s),
                                                    binding,
                                                    in_keyword: in_kw,
                                                    iterator: Box::new(Node { value: it, range: span(ts, p + 3, q1) }),
                                                    body: Box::new(Node { value: b, range: span(ts, q1, q2) }),
                                                },
                                                q2,
                                            )),
                                            d1 + d2,
                                        ),
                                    }
                                },
                            }
                        },
                    },
                }
            } else if s@ == "loop"@ {
                let (r, d) = statement(ts, p + 1);
                match r {
                    Err(e) => (Err(e), d),
                    Ok((b, q)) => (Ok((Statement::Forever(Box::new(Node { value: b, range: span(ts, p + 1, q) })), q)), d),
                }
            } else if s@ == "do"@ {
                let (r, d) = expression(ts, p + 1);
                match r {
                    Err(e) => (Err(e), d),
                    Ok((x, q)) => (Ok((Statement::Do(Box::new(Node { value: x, range: span(ts, p + 1, q) })), q)), d),
                }
            } else if s@ == "break"@ {
                (Ok((Statement::Break, p + 1)), Seq::empty())
            } else if s@ == "continue"@ {
                (Ok((Statement::Continue, p + 1)), Seq::empty())
            } else if s@ == "pass"@ {
                (Ok((Statement::Pass, p + 1)), Seq::empty())
            } else if p + 1 < ts.len() && is_sigil(ts[p + 1], "="@) {
                let (r, d) = assignment(ts, p);
                match r {
                    Err(e) => (Err(e), d),
                    Ok((a, q)) => (Ok((Statement::Assign(Node { value: a, range: span(ts, p, q) }), q)), d),
                }
            } else {
                expression_statement(ts, p)
            },
            _ => expression_statement(ts, p),
        }
    }
}

/// An expression standing as a statement.
#[verifier::opaque]
pub open spec fn expression_statement(ts: Seq<TokenNode>, p: int) -> Outcome<Statement>
    decreases ts, ts.len() + 3 - p, 21int,
{
    let (r, d) = expression(ts, p);
    match r {
        Err(e) => (Err(e), d),
        Ok((x, q)) => (Ok((Statement::Expression(Box::new(Node { value: x, range: span(ts, p, q) })), q)), d),
    }
}

// ---------------------------------------------------------------- declarations

/// The error diagnostic for a segment that opens with an unknown keyword.
pub open spec fn unknown_global(kw: Verbatim) -> Diagnostic {
    Diagnostic {
        severity: DiagnosticSeverity::Error,
        phase: DiagnosticPhase::Parse,
        range: kw.range,
        kind: DiagnosticKind::UnknownGlobal { keyword: kw.value },
        note: None,
        subject: None,
        inner_diagnostics: None,
    }
}

/// A parenthesised list that holds one string literal and nothing else.
pub open spec fn module_specifier(ts: Seq<TokenNode>, p: int) -> Plain<Node<String>> {
    if at_end(ts, p) {
        Err(ParseError::EndOfSegment)
    } else if !is_list(ts[p], '(') {
        Err(ParseError::WrongToken { expected: Expected::List(Some('(')) })
    } else if segments_of(ts[p]).len() != 1 {
        Err(ParseError::WrongToken { expected: Expected::SingleElement })
    } else {
        let seg = segments_of(ts[p])[0]@;
        if seg.len() == 0 {
            Err(ParseError::EndOfSegment)
        } else {
            match seg[0].token {
                Token::Str(s) => if seg.len() == 1 {
                    Ok((Node { value: s, range: seg[0].range }, p + 1))
                } else {
                    Err(ParseError::WrongToken { expected: Expected::EndOfSegment })
                },
                _ => Err(ParseError::WrongToken { expected: Expected::StringLiteral }),
            }
        }
    }
}

/// The keywords that open a declaration.
#[derive(Clone, Copy, Debug, PartialEq, Eq, Structural)]
pub enum DeclarationKeyword {
    Main,
    Const,
    Function,
    Import,
    Export,
    TypeAlias,
    Interface,
}

pub open spec fn declaration_keyword(s: Seq<char>) -> Option<DeclarationKeyword> {
    if s == "main"@ {
        Some(DeclarationKeyword::Main)
    } else if s == "const"@ {
        Some(DeclarationKeyword::Const)
    } else if s == "fn"@ {
        Some(DeclarationKeyword::Function)
    } else if s == "import"@ {
        Some(DeclarationKeyword::Import)
    } else if s == "export"@ {
        Some(DeclarationKeyword::Export)
    } else if s == "type"@ {
        Some(DeclarationKeyword::TypeAlias)
    } else if s == "interface"@ {
        Some(DeclarationKeyword::Interface)
    } else {
        None
    }
}

/// The rest of a `main` declaration, whose keyword `kw` stands at `p`.
#[verifier::opaque]
pub open spec fn main_declaration(ts: Seq<TokenNode>, p: int, kw: Verbatim) -> Outcome<Declaration>
    decreases ts, ts.len() + 3 - p, 29int,
{
    let (r, d) = expression(ts, p + 1);
    match r {
        Err(e) => (Err(e), d),
        Ok((b, q)) => (
            Ok((Declaration::Main { main_keyword: kw, body: Box::new(Node { value: b, range: span(ts, p + 1, q) }) }, q)),
            d,
        ),
    }

}

/// The rest of a `const` declaration, whose keyword `kw` stands at `p`.
#[verifier::opaque]
pub open spec fn const_declaration(ts: Seq<TokenNode>, p: int, kw: Verbatim) -> Outcome<Declaration>
    decreases ts, ts.len() + 3 - p, 29int,
{
    match symbol(ts, p + 1) {
        Err(e) => (Err(e), Seq::empty()),
        Ok((ident, _)) => {
            let (ty, q1) = opt_type_constraint(ts, p + 2);
            if !(p < q1) {
                (Err(ParseError::EndOfSegment), Seq::empty())
            } else {
                match sigil(ts, q1, Word::Equals) {
                    Err(e) => (Err(e), Seq::empty()),
                    Ok((eq, _)) => {
                        let (r, d) = expression(ts, q1 + 1);
                        match r {
                            Err(e) => (Err(e), d),
                            Ok((v, q)) => (
                                Ok((
                                    Declaration::Const {
                                        const_keyword: kw,
                                        identifier: ident,
                                        type_: ty,
                                        equals_token: eq,
                                        value: Box::new(Node { value: v, range: span(ts, q1 + 1, q) }),
                                    },
                                    q,
                                )),
                                d,
                            ),
                        }
                    },
                }
            }
        },
    }

}

/// The rest of a `fn` declaration, whose keyword `kw` stands at `p`.
#[verifier::opaque]
pub open spec fn function_declaration(ts: Seq<TokenNode>, p: int, kw: Verbatim) -> Outcome<Declaration>
    decreases ts, ts.len() + 3 - p, 29int,
{
    match symbol(ts, p + 1) {
        Err(e) => (Err(e), Seq::empty()),
        Ok((ident, _)) => {
            let (generics, q1) = opt_generics(ts, p + 2);
            if !(p < q1) {
                (Err(ParseError::EndOfSegment), Seq::empty())
            } else {
                match params_at(ts, q1, Some('(')) {
                    Err(e) => (Err(e), Seq::empty()),
                    Ok((params, q2)) => {
                        let (constraint, q3) = opt_type_constraint(ts, q2);
                        if !(p < q3) {
                            (Err(ParseError::EndOfSegment), Seq::empty())
                        } else {
                            match sigil(ts, q3, Word::Arrow) {
                                Err(e) => (Err(e), Seq::empty()),
                                Ok((arrow, _)) => {
                                    let (r, d) = expression(ts, q3 + 1);
                                    match r {
                                        Err(e) => (Err(e), d),
                                        Ok((b, q)) => (
                                            Ok((
                                                Declaration::Function {
                                                    function_keyword: kw,
                                                    identifier: ident,
                                                    generic_parameters: generics,
                                                    parameters: params,
                                                    constraint,
                                                    arrow_token: arrow,
                                                    body: Box::new(Node { value: b, range: span(ts, q3 + 1, q) }),
                                                },
                                                q,
                                            )),
                                            d,
                                        ),
                                    }
                                },
                            }
                        }
                    },
                }
            }
        },
    }

}

/// The rest of an `import` declaration, whose keyword `kw` stands at `p`.
#[verifier::opaque]
pub open spec fn import_declaration(ts: Seq<TokenNode>, p: int, kw: Verbatim) -> Outcome<Declaration>
    decreases ts, ts.len() + 3 - p, 29int,
{
    match pattern(ts, p + 1) {
        Err(e) => (Err(e), Seq::empty()),
        Ok((pt, q1)) => match sigil(ts, q1, Word::Equals) {
            Err(e) => (Err(e), Seq::empty()),
            Ok((eq, _)) => match keyword(ts, q1 + 1, Word::Use) {
                Err(e) => (Err(e), Seq::empty()),
                Ok((use_kw, _)) => match module_specifier(ts, q1 + 2) {
                    Err(e) => (Err(e), Seq::empty()),
                    Ok((spec, q)) => (
                        Ok((
                            Declaration::Import {
                                import_keyword: kw,
                                pattern: Node { value: pt, range: span(ts, p + 1, q1) },
                                equal_token: eq,
                                use_keyword: use_kw,
                                module_specifier: spec,
                            },
                            q,
                        )),
                        Seq::empty(),
                    ),
                },
            },
        },
    }

}

/// The rest of an `export` declaration, whose keyword `kw` stands at `p`.
#[verifier::opaque]
pub open spec fn export_declaration(ts: Seq<TokenNode>, p: int, kw: Verbatim) -> Outcome<Declaration>
    decreases ts, ts.len() + 3 - p, 29int,
{
    let (r, d) = recs_at(ts, p + 1, Some('{'));
    match r {
        Err(e) => (Err(e), d),
        Ok((elements, q)) => (Ok((Declaration::Export { export_keyword: kw, elements }, q)), d),
    }

}

/// The rest of a `type` declaration, whose keyword `kw` stands at `p`.
#[verifier::opaque]
pub open spec fn type_alias_declaration(ts: Seq<TokenNode>, p: int, kw: Verbatim) -> Outcome<Declaration>
    decreases ts, ts.len() + 3 - p, 29int,
{
    match symbol(ts, p + 1) {
        Err(e) => (Err(e), Seq::empty()),
        Ok((name, _)) => {
            let (generics, q1) = opt_generics(ts, p + 2);
            if !(p < q1) {
                (Err(ParseError::EndOfSegment), Seq::empty())
            } else {
                match sigil(ts, q1, Word::Equals) {
                    Err(e) => (Err(e), Seq::empty()),
                    Ok((eq, _)) => match type_expr(ts, q1 + 1) {
                        Err(e) => (Err(e), Seq::empty()),
                        Ok((t, q)) => (
                            Ok((
                                Declaration::TypeAlias {
                                    type_keyword: kw,
                                    name,
                                    generic_parameters: generics,
                                    equals_token: eq,
                                    value: Node { value: t, range: span(ts, q1 + 1, q) },
                                },
                                q,
                            )),
                            Seq::empty(),
                        ),
                    },
                }
            }
        },
    }

}

/// The rest of an `interface` declaration, whose keyword `kw` stands at `p`.
#[verifier::opaque]
pub open spec fn interface_declaration(ts: Seq<TokenNode>, p: int, kw: Verbatim) -> Outcome<Declaration>
    decreases ts, ts.len() + 3 - p, 29int,
{
    match symbol(ts, p + 1) {
        Err(e) => (Err(e), Seq::empty()),
        Ok((name, _)) => {
            let (generics, q1) = opt_generics(ts, p + 2);
            if !(p < q1) {
                (Err(ParseError::EndOfSegment), Seq::empty())
            } else {
                let (constraint, q2) = opt_type_constraint(ts, q1);
                if !(p < q2) {
                    (Err(ParseError::EndOfSegment), Seq::empty())
                } else {
                    match fields_at(ts, q2, Some('{')) {
                        Err(e) => (Err(e), Seq::empty()),
                        Ok((body, q)) => (
                            Ok((
                                Declaration::Interface {
                                    interface_keyword: kw,
                                    name,
                                    generic_parameters: generics,
                                    constraint,
                                    body,
                                },
                                q,
                            )),
                            Seq::empty(),
                        ),
                    }
                }
            }
        },
    }

}

/// One declaration, chosen by its leading keyword.
#[verifier::opaque]
pub open spec fn declaration(ts: Seq<TokenNode>, p: int) -> Outcome<Declaration>
    decreases ts, ts.len() + 3 - p, 30int,
{
    match symbol(ts, p) {
        Err(e) => (Err(e), Seq::empty()),
        Ok((kw, _)) => {
            let k = declaration_keyword(kw.value@);
            if k == Some(DeclarationKeyword::Main) {
                main_declaration(ts, p, kw)
            } else if k == Some(DeclarationKeyword::Const) {
                const_declaration(ts, p, kw)
            } else if k == Some(DeclarationKeyword::Function) {
                function_declaration(ts, p, kw)
            } else if k == Some(DeclarationKeyword::Import) {
                import_declaration(ts, p, kw)
            } else if k == Some(DeclarationKeyword::Export) {
                export_declaration(ts, p, kw)
            } else if k == Some(DeclarationKeyword::TypeAlias) {
                type_alias_declaration(ts, p, kw)
            } else if k == Some(DeclarationKeyword::Interface) {
                interface_declaration(ts, p, kw)
            } else {
                (
                    Err(ParseError::WrongTokenContents { expected: Expected::Declaration, found: kw.value }),
                    seq![unknown_global(kw)],
                )
            }
        },
    }
}

/// A module: each segment of the body parsed as one declaration, in order.
pub open spec fn module(body: Seq<Vec<TokenNode>>) -> (Result<Module, ParseError>, Seq<Diagnostic>) {
    let (r, d) = decls_in(body, body.len() as int);
    match r {
        Err(e) => (Err(e), d),
        Ok(v) => (Ok(Module { declarations: v }), d),
    }
}

// ---------------------------------------------------------------- lists
/// A whole segment parsed as one Type.
#[verifier::opaque]
pub open spec fn type_expr_seg(ts: Seq<TokenNode>) -> Result<Node<Type>, ParseError>
    decreases ts, ts.len() + 4, 0int,
{
    match type_expr(ts, 0) {
        Err(e) => Err(e),
        Ok((v, q)) => if q == ts.len() {
            Ok(Node { value: v, range: span(ts, 0, q) })
        } else {
            Err(ParseError::WrongToken { expected: Expected::EndOfSegment })
        },
    }
}

/// The first `n` segments, each parsed as one Type.
#[verifier::opaque]
pub open spec fn types_in(segs: Seq<Vec<TokenNode>>, n: int) -> PlainList<Type>
    decreases segs, n, 0int,
{
    if 0 < n <= segs.len() {
        match types_in(segs, n - 1) {
            Err(e) => Err(e),
            Ok(v) => match type_expr_seg(segs[n - 1]@) {
                Err(e) => Err(e),
                Ok(x) => Ok(v.push(x)),
            },
        }
    } else {
        Ok(Seq::empty())
    }
}

/// A list token at `p` whose segments each hold one Type.
#[verifier::opaque]
pub open spec fn types_at(ts: Seq<TokenNode>, p: int, open: Option<char>) -> Plain<ParsedSeq<Type>>
    decreases ts, ts.len() + 3 - p, 0int,
{
    if at_end(ts, p) || !list_fits(ts[p], open) {
        Err(list_error(ts, p, open))
    } else {
        match ts[p].token {
            Token::List { segments, .. } => match types_in(segments@, segments@.len() as int) {
                Err(e) => Err(e),
                Ok(v) => Ok((Node { value: v, range: ts[p].range }, p + 1)),
            },
            _ => Err(list_error(ts, p, open)),
        }
    }
}

/// A whole segment parsed as one GenericParameter.
#[verifier::opaque]
pub open spec fn generic_parameter_seg(ts: Seq<TokenNode>) -> Result<Node<GenericParameter>, ParseError>
    decreases ts, ts.len() + 4, 0int,
{
    match generic_parameter(ts, 0) {
        Err(e) => Err(e),
        Ok((v, q)) => if q == ts.len() {
            Ok(Node { value: v, range: span(ts, 0, q) })
        } else {
            Err(ParseError::WrongToken { expected: Expected::EndOfSegment })
        },
    }
}

/// The first `n` segments, each parsed as one GenericParameter.
#[verifier::opaque]
pub open spec fn gps_in(segs: Seq<Vec<TokenNode>>, n: int) -> PlainList<GenericParameter>
    decreases segs, n, 0int,
{
    if 0 < n <= segs.len() {
        match gps_in(segs, n - 1) {
            Err(e) => Err(e),
            Ok(v) => match generic_parameter_seg(segs[n - 1]@) {
                Err(e) => Err(e),
                Ok(x) => Ok(v.push(x)),
            },
        }
    } else {
        Ok(Seq::empty())
    }
}

/// A list token at `p` whose segments each hold one GenericParameter.
#[verifier::opaque]
pub open spec fn gps_at(ts: Seq<TokenNode>, p: int, open: Option<char>) -> Plain<ParsedSeq<GenericParameter>>
    decreases ts, ts.len() + 3 - p, 0int,
{
    if at_end(ts, p) || !list_fits(ts[p], open) {
        Err(list_error(ts, p, open))
    } else {
        match ts[p].token {
            Token::List { segments, .. } => match gps_in(segments@, segments@.len() as int) {
                Err(e) => Err(e),
                Ok(v) => Ok((Node { value: v, range: ts[p].range }, p + 1)),
            },
            _ => Err(list_error(ts, p, open)),
        }
    }
}

/// A whole segment parsed as one ParameterDeclaration.
#[verifier::opaque]
pub open spec fn parameter_seg(ts: Seq<TokenNode>) -> Result<Node<ParameterDeclaration>, ParseError>
    decreases ts, ts.len() + 4, 0int,
{
    match parameter(ts, 0) {
        Err(e) => Err(e),
        Ok((v, q)) => if q == ts.len() {
            Ok(Node { value: v, range: span(ts, 0, q) })
        } else {
            Err(ParseError::WrongToken { expected: Expected::EndOfSegment })
        },
    }
}

/// The first `n` segments, each parsed as one ParameterDeclaration.
#[verifier::opaque]
pub open spec fn params_in(segs: Seq<Vec<TokenNode>>, n: int) -> PlainList<ParameterDeclaration>
    decreases segs, n, 0int,
{
    if 0 < n <= segs.len() {
        match params_in(segs, n - 1) {
            Err(e) => Err(e),
            Ok(v) => match parameter_seg(segs[n - 1]@) {
                Err(e) => Err(e),
                Ok(x) => Ok(v.push(x)),
            },
        }
    } else {
        Ok(Seq::empty())
    }
}

/// A list token at `p` whose segments each hold one ParameterDeclaration.
#[verifier::opaque]
pub open spec fn params_at(ts: Seq<TokenNode>, p: int, open: Option<char>) -> Plain<ParsedSeq<ParameterDeclaration>>
    decreases ts, ts.len() + 3 - p, 0int,
{
    if at_end(ts, p) || !list_fits(ts[p], open) {
        Err(list_error(ts, p, open))
    } else {
        match ts[p].token {
            Token::List { segments, .. } => match params_in(segments@, segments@.len() as int) {
                Err(e) => Err(e),
                Ok(v) => Ok((Node { value: v, range: ts[p].range }, p + 1)),
            },
            _ => Err(list_error(ts, p, open)),
        }
    }
}

/// A whole segment parsed as one BindingPattern.
#[verifier::opaque]
pub open spec fn pattern_seg(ts: Seq<TokenNode>) -> Result<Node<BindingPattern>, ParseError>
    decreases ts, ts.len() + 4, 0int,
{
    match pattern(ts, 0) {
        Err(e) => Err(e),
        Ok((v, q)) => if q == ts.len() {
            Ok(Node { value: v, range: span(ts, 0, q) })
        } else {
            Err(ParseError::WrongToken { expected: Expected::EndOfSegment })
        },
    }
}

/// The first `n` segments, each parsed as one BindingPattern.
#[verifier::opaque]
pub open spec fn pats_in(segs: Seq<Vec<TokenNode>>, n: int) -> PlainList<BindingPattern>
    decreases segs, n, 0int,
{
    if 0 < n <= segs.len() {
        match pats_in(segs, n - 1) {
            Err(e) => Err(e),
            Ok(v) => match pattern_seg(segs[n - 1]@) {
                Err(e) => Err(e),
                Ok(x) => Ok(v.push(x)),
            },
        }
    } else {
        Ok(Seq::empty())
    }
}

/// A list token at `p` whose segments each hold one BindingPattern.
#[verifier::opaque]
pub open spec fn pats_at(ts: Seq<TokenNode>, p: int, open: Option<char>) -> Plain<ParsedSeq<BindingPattern>>
    decreases ts, ts.len() + 3 - p, 0int,
{
    if at_end(ts, p) || !list_fits(ts[p], open) {
        Err(list_error(ts, p, open))
    } else {
        match ts[p].token {
            Token::List { segments, .. } => match pats_in(segments@, segments@.len() as int) {
                Err(e) => Err(e),
                Ok(v) => Ok((Node { value: v, range: ts[p].range }, p + 1)),
            },
            _ => Err(list_error(ts, p, open)),
        }
    }
}

/// A whole segment parsed as one RecordBindingElement.
#[verifier::opaque]
pub open spec fn binding_element_seg(ts: Seq<TokenNode>) -> Result<Node<RecordBindingElement>, ParseError>
    decreases ts, ts.len() + 4, 0int,
{
    match binding_element(ts, 0) {
        Err(e) => Err(e),
        Ok((v, q)) => if q == ts.len() {
            Ok(Node { value: v, range: span(ts, 0, q) })
        } else {
            Err(ParseError::WrongToken { expected: Expected::EndOfSegment })
        },
    }
}

/// The first `n` segments, each parsed as one RecordBindingElement.
#[verifier::opaque]
pub open spec fn binds_in(segs: Seq<Vec<TokenNode>>, n: int) -> PlainList<RecordBindingElement>
    decreases segs, n, 0int,
{
    if 0 < n <= segs.len() {
        match binds_in(segs, n - 1) {
            Err(e) => Err(e),
            Ok(v) => match binding_element_seg(segs[n - 1]@) {
                Err(e) => Err(e),
                Ok(x) => Ok(v.push(x)),
            },
        }
    } else {
        Ok(Seq::empty())
    }
}

/// A list token at `p` whose segments each hold one RecordBindingElement.
#[verifier::opaque]
pub open spec fn binds_at(ts: Seq<TokenNode>, p: int, open: Option<char>) -> Plain<ParsedSeq<RecordBindingElement>>
    decreases ts, ts.len() + 3 - p, 0int,
{
    if at_end(ts, p) || !list_fits(ts[p], open) {
        Err(list_error(ts, p, open))
    } else {
        match ts[p].token {
            Token::List { segments, .. } => match binds_in(segments@, segments@.len() as int) {
                Err(e) => Err(e),
                Ok(v) => Ok((Node { value: v, range: ts[p].range }, p + 1)),
            },
            _ => Err(list_error(ts, p, open)),
        }
    }
}

/// A whole segment parsed as one InterfaceField.
#[verifier::opaque]
pub open spec fn interface_field_seg(ts: Seq<TokenNode>) -> Result<Node<InterfaceField>, ParseError>
    decreases ts, ts.len() + 4, 0int,
{
    match interface_field(ts, 0) {
        Err(e) => Err(e),
        Ok((v, q)) => if q == ts.len() {
            Ok(Node { value: v, range: span(ts, 0, q) })
        } else {
            Err(ParseError::WrongToken { expected: Expected::EndOfSegment })
        },
    }
}

/// The first `n` segments, each parsed as one InterfaceField.
#[verifier::opaque]
pub open spec fn fields_in(segs: Seq<Vec<TokenNode>>, n: int) -> PlainList<InterfaceField>
    decreases segs, n, 0int,
{
    if 0 < n <= segs.len() {
        match fields_in(segs, n - 1) {
            Err(e) => Err(e),
            Ok(v) => match interface_field_seg(segs[n - 1]@) {
                Err(e) => Err(e),
                Ok(x) => Ok(v.push(x)),
            },
        }
    } else {
        Ok(Seq::empty())
    }
}

/// A list token at `p` whose segments each hold one InterfaceField.
#[verifier::opaque]
pub open spec fn fields_at(ts: Seq<TokenNode>, p: int, open: Option<char>) -> Plain<ParsedSeq<InterfaceField>>
    decreases ts, ts.len() + 3 - p, 0int,
{
    if at_end(ts, p) || !list_fits(ts[p], open) {
        Err(list_error(ts, p, open))
    } else {
        match ts[p].token {
            Token::List { segments, .. } => match fields_in(segments@, segments@.len() as int) {
                Err(e) => Err(e),
                Ok(v) => Ok((Node { value: v, range: ts[p].range }, p + 1)),
            },
            _ => Err(list_error(ts, p, open)),
        }
    }
}

/// A whole segment parsed as one Expression.
#[verifier::opaque]
pub open spec fn expression_seg(ts: Seq<TokenNode>) -> SegOutcome<Expression>
    decreases ts, ts.len() + 4, 0int,
{
    let (r, d) = expression(ts, 0);
    match r {
        Err(e) => (Err(e), d),
        Ok((v, q)) => if q == ts.len() {
            (Ok(Node { value: v, range: span(ts, 0, q) }), d)
        } else {
            (Err(ParseError::WrongToken { expected: Expected::EndOfSegment }), d)
        },
    }
}

/// The first `n` segments, each parsed as one Expression.
#[verifier::opaque]
pub open spec fn exprs_in(segs: Seq<Vec<TokenNode>>, n: int) -> ListOutcome<Expression>
    decreases segs, n, 0int,
{
    if 0 < n <= segs.len() {
        let (r0, d0) = exprs_in(segs, n - 1);
        match r0 {
            Err(e) => (Err(e), d0),
            Ok(v) => {
                let (r1, d1) = expression_seg(segs[n - 1]@);
                match r1 {
                    Err(e) => (Err(e), d0 + d1),
                    Ok(x) => (Ok(v.push(x)), d0 + d1),
                }
            },
        }
    } else {
        (Ok(Seq::empty()), Seq::empty())
    }
}

/// A list token at `p` whose segments each hold one Expression.
#[verifier::opaque]
pub open spec fn exprs_at(ts: Seq<TokenNode>, p: int, open: Option<char>) -> Outcome<ParsedSeq<Expression>>
    decreases ts, ts.len() + 3 - p, 0int,
{
    if at_end(ts, p) || !list_fits(ts[p], open) {
        (Err(list_error(ts, p, open)), Seq::empty())
    } else {
        match ts[p].token {
            Token::List { segments, .. } => {
                let (r, d) = exprs_in(segments@, segments@.len() as int);
                match r {
                    Err(e) => (Err(e), d),
                    Ok(v) => (Ok((Node { value: v, range: ts[p].range }, p + 1)), d),
                }
            },
            _ => (Err(list_error(ts, p, open)), Seq::empty()),
        }
    }
}

/// A whole segment parsed as one Statement.
#[verifier::opaque]
pub open spec fn statement_seg(ts: Seq<TokenNode>) -> SegOutcome<Statement>
    decreases ts, ts.len() + 4, 0int,
{
    let (r, d) = statement(ts, 0);
    match r {
        Err(e) => (Err(e), d),
        Ok((v, q)) => if q == ts.len() {
            (Ok(Node { value: v, range: span(ts, 0, q) }), d)
        } else {
            (Err(ParseError::WrongToken { expected: Expected::EndOfSegment }), d)
        },
    }
}

/// The first `n` segments, each parsed as one Statement.
#[verifier::opaque]
pub open spec fn stmts_in(segs: Seq<Vec<TokenNode>>, n: int) -> ListOutcome<Statement>
    decreases segs, n, 0int,
{
    if 0 < n <= segs.len() {
        let (r0, d0) = stmts_in(segs, n - 1);
        match r0 {
            Err(e) => (Err(e), d0),
            Ok(v) => {
                let (r1, d1) = statement_seg(segs[n - 1]@);
                match r1 {
                    Err(e) => (Err(e), d0 + d1),
                    Ok(x) => (Ok(v.push(x)), d0 + d1),
                }
            },
        }
    } else {
        (Ok(Seq::empty()), Seq::empty())
    }
}

/// A list token at `p` whose segments each hold one Statement.
#[verifier::opaque]
pub open spec fn stmts_at(ts: Seq<TokenNode>, p: int, open: Option<char>) -> Outcome<ParsedSeq<Statement>>
    decreases ts, ts.len() + 3 - p, 0int,
{
    if at_end(ts, p) || !list_fits(ts[p], open) {
        (Err(list_error(ts, p, open)), Seq::empty())
    } else {
        match ts[p].token {
            Token::List { segments, .. } => {
                let (r, d) = stmts_in(segments@, segments@.len() as int);
                match r {
                    Err(e) => (Err(e), d),
                    Ok(v) => (Ok((Node { value: v, range: ts[p].range }, p + 1)), d),
                }
            },
            _ => (Err(list_error(ts, p, open)), Seq::empty()),
        }
    }
}

/// A whole segment parsed as one Assignment.
#[verifier::opaque]
pub open spec fn assignment_seg(ts: Seq<TokenNode>) -> SegOutcome<Assignment>
    decreases ts, ts.len() + 4, 0int,
{
    let (r, d) = assignment(ts, 0);
    match r {
        Err(e) => (Err(e), d),
        Ok((v, q)) => if q == ts.len() {
            (Ok(Node { value: v, range: span(ts, 0, q) }), d)
        } else {
            (Err(ParseError::WrongToken { expected: Expected::EndOfSegment }), d)
        },
    }
}

/// The first `n` segments, each parsed as one Assignment.
#[verifier::opaque]
pub open spec fn assigns_in(segs: Seq<Vec<TokenNode>>, n: int) -> ListOutcome<Assignment>
    decreases segs, n, 0int,
{
    if 0 < n <= segs.len() {
        let (r0, d0) = assigns_in(segs, n - 1);
        match r0 {
            Err(e) => (Err(e), d0),
            Ok(v) => {
                let (r1, d1) = assignment_seg(segs[n - 1]@);
                match r1 {
                    Err(e) => (Err(e), d0 + d1),
                    Ok(x) => (Ok(v.push(x)), d0 + d1),
                }
            },
        }
    } else {
        (Ok(Seq::empty()), Seq::empty())
    }
}

/// A list token at `p` whose segments each hold one Assignment.
#[verifier::opaque]
pub open spec fn assigns_at(ts: Seq<TokenNode>, p: int, open: Option<char>) -> Outcome<ParsedSeq<Assignment>>
    decreases ts, ts.len() + 3 - p, 0int,
{
    if at_end(ts, p) || !list_fits(ts[p], open) {
        (Err(list_error(ts, p, open)), Seq::empty())
    } else {
        match ts[p].token {
            Token::List { segments, .. } => {
                let (r, d) = assigns_in(segments@, segments@.len() as int);
                match r {
                    Err(e) => (Err(e), d),
                    Ok(v) => (Ok((Node { value: v, range: ts[p].range }, p + 1)), d),
                }
            },
            _ => (Err(list_error(ts, p, open)), Seq::empty()),
        }
    }
}

/// A whole segment parsed as one RecordElement.
#[verifier::opaque]
pub open spec fn record_element_seg(ts: Seq<TokenNode>) -> SegOutcome<RecordElement>
    decreases ts, ts.len() + 4, 0int,
{
    let (r, d) = record_element(ts, 0);
    match r {
        Err(e) => (Err(e), d),
        Ok((v, q)) => if q == ts.len() {
            (Ok(Node { value: v, range: span(ts, 0, q) }), d)
        } else {
            (Err(ParseError::WrongToken { expected: Expected::EndOfSegment }), d)
        },
    }
}

/// The first `n` segments, each parsed as one RecordElement.
#[verifier::opaque]
pub open spec fn recs_in(segs: Seq<Vec<TokenNode>>, n: int) -> ListOutcome<RecordElement>
    decreases segs, n, 0int,
{
    if 0 < n <= segs.len() {
        let (r0, d0) = recs_in(segs, n - 1);
        match r0 {
            Err(e) => (Err(e), d0),
            Ok(v) => {
                let (r1, d1) = record_element_seg(segs[n - 1]@);
                match r1 {
                    Err(e) => (Err(e), d0 + d1),
                    Ok(x) => (Ok(v.push(x)), d0 + d1),
                }
            },
        }
    } else {
        (Ok(Seq::empty()), Seq::empty())
    }
}

/// A list token at `p` whose segments each hold one RecordElement.
#[verifier::opaque]
pub open spec fn recs_at(ts: Seq<TokenNode>, p: int, open: Option<char>) -> Outcome<ParsedSeq<RecordElement>>
    decreases ts, ts.len() + 3 - p, 0int,
{
    if at_end(ts, p) || !list_fits(ts[p], open) {
        (Err(list_error(ts, p, open)), Seq::empty())
    } else {
        match ts[p].token {
            Token::List { segments, .. } => {
                let (r, d) = recs_in(segments@, segments@.len() as int);
                match r {
                    Err(e) => (Err(e), d),
                    Ok(v) => (Ok((Node { value: v, range: ts[p].range }, p + 1)), d),
                }
            },
            _ => (Err(list_error(ts, p, open)), Seq::empty()),
        }
    }
}

/// A whole segment parsed as one Declaration.
#[verifier::opaque]
pub open spec fn declaration_seg(ts: Seq<TokenNode>) -> SegOutcome<Declaration>
    decreases ts, ts.len() + 4, 0int,
{
    let (r, d) = declaration(ts, 0);
    match r {
        Err(e) => (Err(e), d),
        Ok((v, q)) => if q == ts.len() {
            (Ok(Node { value: v, range: span(ts, 0, q) }), d)
        } else {
            (Err(ParseError::WrongToken { expected: Expected::EndOfSegment }), d)
        },
    }
}

/// The first `n` segments, each parsed as one Declaration.
#[verifier::opaque]
pub open spec fn decls_in(segs: Seq<Vec<TokenNode>>, n: int) -> ListOutcome<Declaration>
    decreases segs, n, 0int,
{
    if 0 < n <= segs.len() {
        let (r0, d0) = decls_in(segs, n - 1);
        match r0 {
            Err(e) => (Err(e), d0),
            Ok(v) => {
                let (r1, d1) = declaration_seg(segs[n - 1]@);
                match r1 {
                    Err(e) => (Err(e), d0 + d1),
                    Ok(x) => (Ok(v.push(x)), d0 + d1),
                }
            },
        }
    } else {
        (Ok(Seq::empty()), Seq::empty())
    }
}

// ---------------------------------------------------------------- sequences

pub broadcast proof fn lemma_concat_assoc<A>(a: Seq<A>, b: Seq<A>, c: Seq<A>)
    ensures
        #[trigger] ((a + b) + c) == a + (b + c),
{
    assert((a + b) + c =~= a + (b + c));
}

pub broadcast proof fn lemma_concat_empty<A>(a: Seq<A>)
    ensures
        #[trigger] (a + Seq::<A>::empty()) == a,
{
    assert(a + Seq::<A>::empty() =~= a);
}

pub broadcast proof fn lemma_concat_push<A>(a: Seq<A>, b: Seq<A>, x: A)
    ensures
        #[trigger] (a + b).push(x) == a + b.push(x),
{
    assert((a + b).push(x) =~= a + b.push(x));
}

} // verus!
