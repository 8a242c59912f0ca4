//! The executable parser. Each function computes exactly the production of
//! `grammar` that it is named after.
use vstd::prelude::*;
use crate::ast::{
    ArithmeticOp, Assignment, BindingPattern, CompareOp, Declaration, Expression, GenericParameter,
    InterfaceField, Module, Node, ParameterDeclaration, ParsedVec, RecordBindingElement,
    RecordElement, Statement, Type, TypeConstraint, UnaryOp, Verbatim,
};
use crate::error::{
    Diagnostic, DiagnosticKind, DiagnosticPhase, DiagnosticSeverity, Expected, ParseError, Word,
};
use crate::grammar;
use crate::model as m;

use crate::token::{SourceRange, Token, TokenNode, list_is, sigil_is, symbol_is, text_is};
use crate::view::{
    assign_list_view, assign_node_view, assign_nodes_view, assign_view, bind_list_view,
    bind_node_view, bind_nodes_view, bind_view, decl_node_view, decl_nodes_view, decl_view,
    expr_list_view, expr_node_view, expr_nodes_view, expr_view, field_list_view, field_node_view,
    field_nodes_view, field_view, gp_list_view, gp_node_view, gp_nodes_view, gp_view,
    opt_gp_view, opt_tc_view, param_list_view, param_node_view, param_nodes_view, param_view,
    pat_list_view, pat_node_view, pat_nodes_view, pat_view, rec_list_view, rec_node_view,
    rec_nodes_view, rec_view, stmt_list_view, stmt_node_view, stmt_nodes_view, stmt_view, tc_view,
    ty_list_view, ty_node_view, ty_nodes_view, ty_view, lemma_expr_nodes_view, lemma_pat_nodes_view,
};

verus! {

broadcast use crate::grammar::lemma_concat_assoc, crate::grammar::lemma_concat_empty, crate::grammar::lemma_concat_push;

/// An executable result with its position read as an integer and its
/// value mapped by `f`.
pub open spec fn lift<A, B>(r: Result<(A, usize), ParseError>, f: spec_fn(A) -> B) -> Result<(B, int), ParseError> {
    match r {
        Ok((a, q)) => Ok((f(a), q as int)),
        Err(e) => Err(e),
    }
}

pub open spec fn lift_one<A, B>(r: Result<A, ParseError>, f: spec_fn(A) -> B) -> Result<B, ParseError> {
    match r {
        Ok(a) => Ok(f(a)),
        Err(e) => Err(e),
    }
}

pub(crate) fn span_of(ts: &Vec<TokenNode>, p: usize, q: usize) -> (r: SourceRange)
    requires
        p < q <= ts.len(),
    ensures
        r == grammar::span(ts@, p as int, q as int),
{
    SourceRange { start: ts[p].range.start, end: ts[q - 1].range.end }
}

pub(crate) fn fits(n: &TokenNode, open: Option<char>) -> (r: bool)
    ensures
        r == grammar::list_fits(*n, open),
{
    match &n.token {
        Token::List { open: o, .. } => match open {
            Some(c) => *o == c,
            None => true,
        },
        _ => false,
    }
}

pub(crate) fn is_sigil_token(n: &TokenNode) -> (r: bool)
    ensures
        r == (n.token is Sigil),
{
    match &n.token {
        Token::Sigil(_) => true,
        _ => false,
    }
}

pub(crate) fn list_error_at(ts: &Vec<TokenNode>, p: usize, open: Option<char>) -> (r: ParseError)
    ensures
        r == grammar::list_error(ts@, p as int, open),
{
    if p >= ts.len() {
        ParseError::EndOfSegment
    } else {
        ParseError::WrongToken { expected: Expected::List(open) }
    }
}

/// Any symbol.
#[verifier::spinoff_prover]
pub fn parse_symbol(ts: &Vec<TokenNode>, p: usize) -> (r: Result<(Verbatim, usize), ParseError>)
    ensures
        lift(r, |v: Verbatim| v) == grammar::symbol(ts@, p as int),
        r matches Ok((_, q)) ==> q == p + 1 && p < ts.len(),
{
    if p >= ts.len() {
        return Err(ParseError::EndOfSegment);
    }
    match &ts[p].token {
        Token::Symbol(s) => Ok((Node { value: s.clone(), range: ts[p].range }, p + 1)),
        _ => Err(ParseError::WrongToken { expected: Expected::Symbol }),
    }
}

/// A symbol with the text of `w`.
#[verifier::spinoff_prover]
pub fn parse_keyword(ts: &Vec<TokenNode>, p: usize, w: Word) -> (r: Result<(Verbatim, usize), ParseError>)
    ensures
        lift(r, |v: Verbatim| v) == grammar::keyword(ts@, p as int, w),
        r matches Ok((_, q)) ==> q == p + 1 && p < ts.len(),
{
    if p >= ts.len() {
        return Err(ParseError::EndOfSegment);
    }
    match &ts[p].token {
        Token::Symbol(s) => if text_is(s, w.text()) {
            Ok((Node { value: s.clone(), range: ts[p].range }, p + 1))
        } else {
            Err(ParseError::WrongTokenContents { expected: Expected::Word(w), found: s.clone() })
        },
        _ => Err(ParseError::WrongToken { expected: Expected::Word(w) }),
    }
}

/// A sigil with the text of `w`.
#[verifier::spinoff_prover]
pub fn parse_sigil(ts: &Vec<TokenNode>, p: usize, w: Word) -> (r: Result<(Verbatim, usize), ParseError>)
    ensures
        lift(r, |v: Verbatim| v) == grammar::sigil(ts@, p as int, w),
        r matches Ok((_, q)) ==> q == p + 1 && p < ts.len(),
{
    if p >= ts.len() {
        return Err(ParseError::EndOfSegment);
    }
    match &ts[p].token {
        Token::Sigil(s) => if text_is(s, w.text()) {
            Ok((Node { value: s.clone(), range: ts[p].range }, p + 1))
        } else {
            Err(ParseError::WrongTokenContents { expected: Expected::Word(w), found: s.clone() })
        },
        _ => Err(ParseError::WrongToken { expected: Expected::Word(w) }),
    }
}

pub(crate) fn compare_op_at(ts: &Vec<TokenNode>, p: usize) -> (r: Option<CompareOp>)
    ensures
        r == grammar::compare_at(ts@, p as int),
        r is Some ==> p < ts.len(),
{
    if p >= ts.len() {
        return None;
    }
    match &ts[p].token {
        Token::Sigil(s) => if text_is(s, "==") {
            Some(CompareOp::Equal)
        } else if text_is(s, "!=") {
            Some(CompareOp::NotEqual)
        } else if text_is(s, "<=") {
            Some(CompareOp::LessThanOrEqual)
        } else if text_is(s, ">=") {
            Some(CompareOp::GreaterThanOrEqual)
        } else if text_is(s, "<") {
            Some(CompareOp::LessThan)
        } else if text_is(s, ">") {
            Some(CompareOp::GreaterThan)
        } else {
            None
        },
        _ => None,
    }
}

pub(crate) fn sum_op_at(ts: &Vec<TokenNode>, p: usize) -> (r: Option<ArithmeticOp>)
    ensures
        r == grammar::sum_at(ts@, p as int),
        r is Some ==> p < ts.len(),
{
    if p >= ts.len() {
        return None;
    }
    match &ts[p].token {
        Token::Sigil(s) => if text_is(s, "+") {
            Some(ArithmeticOp::Add)
        } else if text_is(s, "-") {
            Some(ArithmeticOp::Subtract)
        } else {
            None
        },
        _ => None,
    }
}

pub(crate) fn product_op_at(ts: &Vec<TokenNode>, p: usize) -> (r: Option<ArithmeticOp>)
    ensures
        r == grammar::product_at(ts@, p as int),
        r is Some ==> p < ts.len(),
{
    if p >= ts.len() {
        return None;
    }
    match &ts[p].token {
        Token::Sigil(s) => if text_is(s, "*") {
            Some(ArithmeticOp::Multiply)
        } else if text_is(s, "/") {
            Some(ArithmeticOp::Divide)
        } else if text_is(s, "%") {
            Some(ArithmeticOp::Modulus)
        } else {
            None
        },
        _ => None,
    }
}

pub(crate) fn unary_op_at(ts: &Vec<TokenNode>, p: usize) -> (r: Option<UnaryOp>)
    ensures
        r == grammar::unary_at(ts@, p as int),
        r is Some ==> p < ts.len(),
{
    if p >= ts.len() {
        return None;
    }
    match &ts[p].token {
        Token::Sigil(s) => if text_is(s, "!") {
            Some(UnaryOp::Negate)
        } else if text_is(s, "-") {
            Some(UnaryOp::Minus)
        } else {
            None
        },
        _ => None,
    }
}

// ---------------------------------------------------------------- types

/// `Simple ('|' Simple)?`
#[verifier::spinoff_prover]
pub fn parse_type_expr(ts: &Vec<TokenNode>, p: usize) -> (r: Result<(Type, usize), ParseError>)
    ensures
        lift(r, |t: Type| ty_view(t)) == grammar::type_expr(ts@, p as int),
        r matches Ok((_, q)) ==> p < q <= ts.len(),
    decreases ts@, ts@.len() + 3 - p, 6int,
{
    proof {
        reveal_with_fuel(grammar::type_expr, 1);
    }
    match parse_simple_type(ts, p) {
        Err(e) => Err(e),
        Ok((t, q)) => if q < ts.len() && sigil_is(&ts[q], "|") {
            match parse_simple_type(ts, q + 1) {
                Err(e) => Err(e),
                Ok((u, r)) => Ok((
                    Type::Union {
                        left: Box::new(Node { value: t, range: span_of(ts, p, q) }),
                        right: Box::new(Node { value: u, range: span_of(ts, q + 1, r) }),
                    },
                    r,
                )),
            }
        } else {
            Ok((t, q))
        },
    }
}

/// `*`, `!`, `_`, a function type, a reference with optional generic
/// arguments, or a parenthesised group.
#[verifier::spinoff_prover]
pub fn parse_simple_type(ts: &Vec<TokenNode>, p: usize) -> (r: Result<(Type, usize), ParseError>)
    ensures
        lift(r, |t: Type| ty_view(t)) == grammar::simple_type(ts@, p as int),
        r matches Ok((_, q)) ==> p < q <= ts.len(),
    decreases ts@, ts@.len() + 3 - p, 5int,
{
    proof {
        reveal_with_fuel(grammar::simple_type, 1);
    }
    if p >= ts.len() {
        return Err(ParseError::EndOfSegment);
    }
    match &ts[p].token {
        Token::Sigil(s) => if text_is(s, "*") {
            Ok((Type::Kind, p + 1))
        } else if text_is(s, "!") {
            Ok((Type::Never, p + 1))
        } else if text_is(s, "_") {
            Ok((Type::Unknown, p + 1))
        } else {
            Err(ParseError::WrongToken { expected: Expected::Type })
        },
        Token::Symbol(s) => if text_is(s, "fn") {
            match parse_types_at(ts, p + 1, Some('(')) {
                Err(e) => Err(e),
                Ok((params, _)) => match parse_sigil(ts, p + 2, Word::Arrow) {
                    Err(e) => Err(e),
                    Ok((arrow, _)) => match parse_type_expr(ts, p + 3) {
                        Err(e) => Err(e),
                        Ok((rt, r)) => Ok((
                            Type::Function {
                                fn_keyword: Node { value: s.clone(), range: ts[p].range },
                                parameters: params,
                                arrow_token: arrow,
                                return_type: Box::new(Node { value: rt, range: span_of(ts, p + 3, r) }),
                            },
                            r,
                        )),
                    },
                },
            }
        } else {
            match parse_types_at(ts, p + 1, Some('[')) {
                Ok((args, q)) => Ok((
                    Type::Reference {
                        name: Node { value: s.clone(), range: ts[p].range },
                        generic_parameters: Some(args),
                    },
                    q,
                )),
                Err(_) => Ok((
                    Type::Reference { name: Node { value: s.clone(), range: ts[p].range }, generic_parameters: None },
                    p + 1,
                )),
            }
        },
        Token::List { open, segments, .. } => if *open != '(' {
            Err(ParseError::WrongToken { expected: Expected::Type })
        } else if segments.len() > 1 {
            match parse_types_in(segments, segments.len()) {
                Err(e) => Err(e),
                Ok(v) => Ok((Type::Tuple { members: Node { value: v, range: ts[p].range } }, p + 1)),
            }
        } else if segments.len() == 1 {
            match parse_type_expr_seg(&segments[0]) {
                Err(e) => Err(e),
                Ok(n) => Ok((n.value, p + 1)),
            }
        } else {
            Err(ParseError::WrongToken { expected: Expected::SingleElement })
        },
        _ => Err(ParseError::WrongToken { expected: Expected::Type }),
    }
}

/// `':' Type`
#[verifier::spinoff_prover]
pub fn parse_type_constraint(ts: &Vec<TokenNode>, p: usize) -> (r: Result<(TypeConstraint, usize), ParseError>)
    ensures
        lift(r, |c: TypeConstraint| tc_view(c)) == grammar::type_constraint(ts@, p as int),
        r matches Ok((_, q)) ==> p < q <= ts.len(),
    decreases ts@, ts@.len() + 3 - p, 7int,
{
    proof {
        reveal_with_fuel(grammar::type_constraint, 1);
    }
    match parse_sigil(ts, p, Word::Colon) {
        Err(e) => Err(e),
        Ok((colon, _)) => match parse_type_expr(ts, p + 1) {
            Err(e) => Err(e),
            Ok((t, q)) => Ok((
                TypeConstraint {
                    colon_token: colon,
                    type_: Box::new(Node { value: t, range: span_of(ts, p + 1, q) }),
                },
                q,
            )),
        },
    }
}

/// An optional type constraint; when none can be parsed, the position is
/// handed back unchanged.
#[verifier::spinoff_prover]
pub fn parse_opt_type_constraint(ts: &Vec<TokenNode>, p: usize) -> (r: (Option<Node<TypeConstraint>>, usize))
    ensures
        (opt_tc_view(r.0), r.1 as int) == grammar::opt_type_constraint(ts@, p as int),
        r.0 is None ==> r.1 == p,
        r.0 is Some ==> p < r.1 <= ts.len(),
    decreases ts@, ts@.len() + 3 - p, 8int,
{
    proof {
        reveal_with_fuel(grammar::opt_type_constraint, 1);
    }
    match parse_type_constraint(ts, p) {
        Ok((c, q)) => (Some(Node { value: c, range: span_of(ts, p, q) }), q),
        Err(_) => (None, p),
    }
}

/// `SYM TypeConstraint?`
#[verifier::spinoff_prover]
pub fn parse_generic_parameter(ts: &Vec<TokenNode>, p: usize) -> (r: Result<(GenericParameter, usize), ParseError>)
    ensures
        lift(r, |g: GenericParameter| gp_view(g)) == grammar::generic_parameter(ts@, p as int),
        r matches Ok((_, q)) ==> p < q <= ts.len(),
    decreases ts@, ts@.len() + 3 - p, 9int,
{
    proof {
        reveal_with_fuel(grammar::generic_parameter, 1);
    }
    match parse_symbol(ts, p) {
        Err(e) => Err(e),
        Ok((name, _)) => {
            let (c, q) = parse_opt_type_constraint(ts, p + 1);
            Ok((GenericParameter { name, constraint: c }, q))
        },
    }
}

/// An optional bracketed list of generic parameters; when none can be
/// parsed, the position is handed back unchanged.
#[verifier::spinoff_prover]
pub fn parse_opt_generics(ts: &Vec<TokenNode>, p: usize) -> (r: (Option<ParsedVec<GenericParameter>>, usize))
    ensures
        (opt_gp_view(r.0), r.1 as int) == grammar::opt_generics(ts@, p as int),
        r.0 is None ==> r.1 == p,
        r.0 is Some ==> r.1 == p + 1 && p < ts.len(),
    decreases ts@, ts@.len() + 3 - p, 1int,
{
    proof {
        reveal_with_fuel(grammar::opt_generics, 1);
    }
    match parse_gps_at(ts, p, Some('[')) {
        Ok((v, q)) => (Some(v), q),
        Err(_) => (None, p),
    }
}

/// `SYM TypeConstraint?`
#[verifier::spinoff_prover]
pub fn parse_parameter(ts: &Vec<TokenNode>, p: usize) -> (r: Result<(ParameterDeclaration, usize), ParseError>)
    ensures
        lift(r, |g: ParameterDeclaration| param_view(g)) == grammar::parameter(ts@, p as int),
        r matches Ok((_, q)) ==> p < q <= ts.len(),
    decreases ts@, ts@.len() + 3 - p, 9int,
{
    proof {
        reveal_with_fuel(grammar::parameter, 1);
    }
    match parse_symbol(ts, p) {
        Err(e) => Err(e),
        Ok((name, _)) => {
            let (c, q) = parse_opt_type_constraint(ts, p + 1);
            Ok((ParameterDeclaration { name, type_: c }, q))
        },
    }
}

/// `SYM TypeConstraint`
#[verifier::spinoff_prover]
pub fn parse_interface_field(ts: &Vec<TokenNode>, p: usize) -> (r: Result<(InterfaceField, usize), ParseError>)
    ensures
        lift(r, |g: InterfaceField| field_view(g)) == grammar::interface_field(ts@, p as int),
        r matches Ok((_, q)) ==> p < q <= ts.len(),
    decreases ts@, ts@.len() + 3 - p, 9int,
{
    proof {
        reveal_with_fuel(grammar::interface_field, 1);
    }
    match parse_symbol(ts, p) {
        Err(e) => Err(e),
        Ok((name, _)) => match parse_type_constraint(ts, p + 1) {
            Err(e) => Err(e),
            Ok((c, q)) => Ok((
                InterfaceField { name, constraint: Node { value: c, range: span_of(ts, p + 1, q) } },
                q,
            )),
        },
    }
}

// ---------------------------------------------------------------- patterns

/// A symbol, a parenthesised group of patterns, or a braced record of
/// binding elements.
#[verifier::spinoff_prover]
pub fn parse_pattern(ts: &Vec<TokenNode>, p: usize) -> (r: Result<(BindingPattern, usize), ParseError>)
    ensures
        lift(r, |b: BindingPattern| pat_view(b)) == grammar::pattern(ts@, p as int),
        r matches Ok((_, q)) ==> p < q <= ts.len(),
    decreases ts@, ts@.len() + 3 - p, 3int,
{
    proof {
        reveal_with_fuel(grammar::pattern, 1);
    }
    if p >= ts.len() {
        return Err(ParseError::EndOfSegment);
    }
    match &ts[p].token {
        Token::Symbol(s) => Ok((
            BindingPattern::Identifier { name: Node { value: s.clone(), range: ts[p].range } },
            p + 1,
        )),
        Token::List { open, segments, .. } => if *open == '(' {
            match parse_pats_in(segments, segments.len()) {
                Err(e) => Err(e),
                Ok(v) => if v.len() == 1 {
                    proof {
                        lemma_pat_nodes_view(v@);
                    }
                    let mut v = v;
                    let n = v.remove(0);
                    Ok((n.value, p + 1))
                } else {
                    Ok((BindingPattern::Tuple { patterns: Node { value: v, range: ts[p].range } }, p + 1))
                },
            }
        } else if *open == '{' {
            match parse_binds_in(segments, segments.len()) {
                Err(e) => Err(e),
                Ok(v) => Ok((BindingPattern::Record { elements: Node { value: v, range: ts[p].range } }, p + 1)),
            }
        } else {
            Err(ParseError::WrongToken { expected: Expected::Pattern })
        },
        _ => Err(ParseError::WrongToken { expected: Expected::Pattern }),
    }
}

/// `SYM`, `SYM ':' Pattern`, or `'...' SYM`.
#[verifier::spinoff_prover]
pub fn parse_binding_element(ts: &Vec<TokenNode>, p: usize) -> (r: Result<(RecordBindingElement, usize), ParseError>)
    ensures
        lift(r, |b: RecordBindingElement| bind_view(b)) == grammar::binding_element(ts@, p as int),
        r matches Ok((_, q)) ==> p < q <= ts.len(),
    decreases ts@, ts@.len() + 3 - p, 3int,
{
    proof {
        reveal_with_fuel(grammar::binding_element, 1);
    }
    if p >= ts.len() {
        return Err(ParseError::EndOfSegment);
    }
    match &ts[p].token {
        Token::Symbol(s) => if p + 1 < ts.len() && sigil_is(&ts[p + 1], ":") {
            match parse_pattern(ts, p + 2) {
                Err(e) => Err(e),
                Ok((pt, q)) => Ok((
                    RecordBindingElement::KeyValuePair {
                        name: Node { value: s.clone(), range: ts[p].range },
                        pattern: Node { value: pt, range: span_of(ts, p + 2, q) },
                    },
                    q,
                )),
            }
        } else {
            Ok((RecordBindingElement::Identifier { name: Node { value: s.clone(), range: ts[p].range } }, p + 1))
        },
        Token::Sigil(s) => if text_is(s, "...") {
            match parse_symbol(ts, p + 1) {
                Err(e) => Err(e),
                Ok((name, q)) => Ok((RecordBindingElement::Rest { name }, q)),
            }
        } else {
            Err(ParseError::WrongToken { expected: Expected::BindingElement })
        },
        _ => Err(ParseError::WrongToken { expected: Expected::BindingElement }),
    }
}

// ---------------------------------------------------------------- lists
/// A whole segment parsed as one Type.
#[verifier::spinoff_prover]
pub fn parse_type_expr_seg(ts: &Vec<TokenNode>) -> (r: Result<Node<Type>, ParseError>)
    ensures
        lift_one(r, |n: Node<Type>| ty_node_view(n)) == grammar::type_expr_seg(ts@),
    decreases ts@, ts@.len() + 4, 0int,
{
    proof {
        reveal_with_fuel(grammar::type_expr_seg, 1);
    }
    match parse_type_expr(ts, 0) {
        Err(e) => Err(e),
        Ok((x, q)) => if q == ts.len() {
            Ok(Node { value: x, range: span_of(ts, 0, q) })
        } else {
            Err(ParseError::WrongToken { expected: Expected::EndOfSegment })
        },
    }
}

/// The first `n` segments, each parsed as one Type.
#[verifier::spinoff_prover]
pub fn parse_types_in(segs: &Vec<Vec<TokenNode>>, n: usize) -> (r: Result<Vec<Node<Type>>, ParseError>)
    requires
        n <= segs.len(),
    ensures
        lift_one(r, |v: Vec<Node<Type>>| ty_nodes_view(v@)) == grammar::types_in(segs@, n as int),
    decreases segs@, n, 0int,
{
    proof {
        reveal_with_fuel(grammar::types_in, 1);
    }
    if n == 0 {
        return Ok(Vec::new());
    }
    match parse_types_in(segs, n - 1) {
        Err(e) => Err(e),
        Ok(v) => match parse_type_expr_seg(&segs[n - 1]) {
            Err(e) => Err(e),
            Ok(x) => {
                let mut v = v;
                let ghost before = v@;
                v.push(x);
                assert(v@.drop_last() =~= before);
                Ok(v)
            },
        },
    }
}

/// A list token at `p` whose segments each hold one Type.
#[verifier::spinoff_prover]
pub fn parse_types_at(ts: &Vec<TokenNode>, p: usize, open: Option<char>) -> (r: Result<(ParsedVec<Type>, usize), ParseError>)
    ensures
        lift(r, |v: ParsedVec<Type>| ty_list_view(v)) == grammar::types_at(ts@, p as int, open),
        r matches Ok((_, q)) ==> q == p + 1 && p < ts.len(),
    decreases ts@, ts@.len() + 3 - p, 0int,
{
    proof {
        reveal_with_fuel(grammar::types_at, 1);
    }
    if p >= ts.len() || !fits(&ts[p], open) {
        return Err(list_error_at(ts, p, open));
    }
    match &ts[p].token {
        Token::List { segments, .. } => match parse_types_in(segments, segments.len()) {
            Err(e) => Err(e),
            Ok(v) => Ok((Node { value: v, range: ts[p].range }, p + 1)),
        },
        _ => Err(list_error_at(ts, p, open)),
    }
}

/// A whole segment parsed as one GenericParameter.
#[verifier::spinoff_prover]
pub fn parse_generic_parameter_seg(ts: &Vec<TokenNode>) -> (r: Result<Node<GenericParameter>, ParseError>)
    ensures
        lift_one(r, |n: Node<GenericParameter>| gp_node_view(n)) == grammar::generic_parameter_seg(ts@),
    decreases ts@, ts@.len() + 4, 0int,
{
    proof {
        reveal_with_fuel(grammar::generic_parameter_seg, 1);
    }
    match parse_generic_parameter(ts, 0) {
        Err(e) => Err(e),
        Ok((x, q)) => if q == ts.len() {
            Ok(Node { value: x, range: span_of(ts, 0, q) })
        } else {
            Err(ParseError::WrongToken { expected: Expected::EndOfSegment })
        },
    }
}

/// The first `n` segments, each parsed as one GenericParameter.
#[verifier::spinoff_prover]
pub fn parse_gps_in(segs: &Vec<Vec<TokenNode>>, n: usize) -> (r: Result<Vec<Node<GenericParameter>>, ParseError>)
    requires
        n <= segs.len(),
    ensures
        lift_one(r, |v: Vec<Node<GenericParameter>>| gp_nodes_view(v@)) == grammar::gps_in(segs@, n as int),
    decreases segs@, n, 0int,
{
    proof {
        reveal_with_fuel(grammar::gps_in, 1);
    }
    if n == 0 {
        return Ok(Vec::new());
    }
    match parse_gps_in(segs, n - 1) {
        Err(e) => Err(e),
        Ok(v) => match parse_generic_parameter_seg(&segs[n - 1]) {
            Err(e) => Err(e),
            Ok(x) => {
                let mut v = v;
                let ghost before = v@;
                v.push(x);
                assert(v@.drop_last() =~= before);
                Ok(v)
            },
        },
    }
}

/// A list token at `p` whose segments each hold one GenericParameter.
#[verifier::spinoff_prover]
pub fn parse_gps_at(ts: &Vec<TokenNode>, p: usize, open: Option<char>) -> (r: Result<(ParsedVec<GenericParameter>, usize), ParseError>)
    ensures
        lift(r, |v: ParsedVec<GenericParameter>| gp_list_view(v)) == grammar::gps_at(ts@, p as int, open),
        r matches Ok((_, q)) ==> q == p + 1 && p < ts.len(),
    decreases ts@, ts@.len() + 3 - p, 0int,
{
    proof {
        reveal_with_fuel(grammar::gps_at, 1);
    }
    if p >= ts.len() || !fits(&ts[p], open) {
        return Err(list_error_at(ts, p, open));
    }
    match &ts[p].token {
        Token::List { segments, .. } => match parse_gps_in(segments, segments.len()) {
            Err(e) => Err(e),
            Ok(v) => Ok((Node { value: v, range: ts[p].range }, p + 1)),
        },
        _ => Err(list_error_at(ts, p, open)),
    }
}

/// A whole segment parsed as one ParameterDeclaration.
#[verifier::spinoff_prover]
pub fn parse_parameter_seg(ts: &Vec<TokenNode>) -> (r: Result<Node<ParameterDeclaration>, ParseError>)
    ensures
        lift_one(r, |n: Node<ParameterDeclaration>| param_node_view(n)) == grammar::parameter_seg(ts@),
    decreases ts@, ts@.len() + 4, 0int,
{
    proof {
        reveal_with_fuel(grammar::parameter_seg, 1);
    }
    match parse_parameter(ts, 0) {
        Err(e) => Err(e),
        Ok((x, q)) => if q == ts.len() {
            Ok(Node { value: x, range: span_of(ts, 0, q) })
        } else {
            Err(ParseError::WrongToken { expected: Expected::EndOfSegment })
        },
    }
}

/// The first `n` segments, each parsed as one ParameterDeclaration.
#[verifier::spinoff_prover]
pub fn parse_params_in(segs: &Vec<Vec<TokenNode>>, n: usize) -> (r: Result<Vec<Node<ParameterDeclaration>>, ParseError>)
    requires
        n <= segs.len(),
    ensures
        lift_one(r, |v: Vec<Node<ParameterDeclaration>>| param_nodes_view(v@)) == grammar::params_in(segs@, n as int),
    decreases segs@, n, 0int,
{
    proof {
        reveal_with_fuel(grammar::params_in, 1);
    }
    if n == 0 {
        return Ok(Vec::new());
    }
    match parse_params_in(segs, n - 1) {
        Err(e) => Err(e),
        Ok(v) => match parse_parameter_seg(&segs[n - 1]) {
            Err(e) => Err(e),
            Ok(x) => {
                let mut v = v;
                let ghost before = v@;
                v.push(x);
                assert(v@.drop_last() =~= before);
                Ok(v)
            },
        },
    }
}

/// A list token at `p` whose segments each hold one ParameterDeclaration.
#[verifier::spinoff_prover]
pub fn parse_params_at(ts: &Vec<TokenNode>, p: usize, open: Option<char>) -> (r: Result<(ParsedVec<ParameterDeclaration>, usize), ParseError>)
    ensures
        lift(r, |v: ParsedVec<ParameterDeclaration>| param_list_view(v)) == grammar::params_at(ts@, p as int, open),
        r matches Ok((_, q)) ==> q == p + 1 && p < ts.len(),
    decreases ts@, ts@.len() + 3 - p, 0int,
{
    proof {
        reveal_with_fuel(grammar::params_at, 1);
    }
    if p >= ts.len() || !fits(&ts[p], open) {
        return Err(list_error_at(ts, p, open));
    }
    match &ts[p].token {
        Token::List { segments, .. } => match parse_params_in(segments, segments.len()) {
            Err(e) => Err(e),
            Ok(v) => Ok((Node { value: v, range: ts[p].range }, p + 1)),
        },
        _ => Err(list_error_at(ts, p, open)),
    }
}

/// A whole segment parsed as one BindingPattern.
#[verifier::spinoff_prover]
pub fn parse_pattern_seg(ts: &Vec<TokenNode>) -> (r: Result<Node<BindingPattern>, ParseError>)
    ensures
        lift_one(r, |n: Node<BindingPattern>| pat_node_view(n)) == grammar::pattern_seg(ts@),
    decreases ts@, ts@.len() + 4, 0int,
{
    proof {
        reveal_with_fuel(grammar::pattern_seg, 1);
    }
    match parse_pattern(ts, 0) {
        Err(e) => Err(e),
        Ok((x, q)) => if q == ts.len() {
            Ok(Node { value: x, range: span_of(ts, 0, q) })
        } else {
            Err(ParseError::WrongToken { expected: Expected::EndOfSegment })
        },
    }
}

/// The first `n` segments, each parsed as one BindingPattern.
#[verifier::spinoff_prover]
pub fn parse_pats_in(segs: &Vec<Vec<TokenNode>>, n: usize) -> (r: Result<Vec<Node<BindingPattern>>, ParseError>)
    requires
        n <= segs.len(),
    ensures
        lift_one(r, |v: Vec<Node<BindingPattern>>| pat_nodes_view(v@)) == grammar::pats_in(segs@, n as int),
    decreases segs@, n, 0int,
{
    proof {
        reveal_with_fuel(grammar::pats_in, 1);
    }
    if n == 0 {
        return Ok(Vec::new());
    }
    match parse_pats_in(segs, n - 1) {
        Err(e) => Err(e),
        Ok(v) => match parse_pattern_seg(&segs[n - 1]) {
            Err(e) => Err(e),
            Ok(x) => {
                let mut v = v;
                let ghost before = v@;
                v.push(x);
                assert(v@.drop_last() =~= before);
                Ok(v)
            },
        },
    }
}

/// A list token at `p` whose segments each hold one BindingPattern.
#[verifier::spinoff_prover]
pub fn parse_pats_at(ts: &Vec<TokenNode>, p: usize, open: Option<char>) -> (r: Result<(ParsedVec<BindingPattern>, usize), ParseError>)
    ensures
        lift(r, |v: ParsedVec<BindingPattern>| pat_list_view(v)) == grammar::pats_at(ts@, p as int, open),
        r matches Ok((_, q)) ==> q == p + 1 && p < ts.len(),
    decreases ts@, ts@.len() + 3 - p, 0int,
{
    proof {
        reveal_with_fuel(grammar::pats_at, 1);
    }
    if p >= ts.len() || !fits(&ts[p], open) {
        return Err(list_error_at(ts, p, open));
    }
    match &ts[p].token {
        Token::List { segments, .. } => match parse_pats_in(segments, segments.len()) {
            Err(e) => Err(e),
            Ok(v) => Ok((Node { value: v, range: ts[p].range }, p + 1)),
        },
        _ => Err(list_error_at(ts, p, open)),
    }
}

/// A whole segment parsed as one RecordBindingElement.
#[verifier::spinoff_prover]
pub fn parse_binding_element_seg(ts: &Vec<TokenNode>) -> (r: Result<Node<RecordBindingElement>, ParseError>)
    ensures
        lift_one(r, |n: Node<RecordBindingElement>| bind_node_view(n)) == grammar::binding_element_seg(ts@),
    decreases ts@, ts@.len() + 4, 0int,
{
    proof {
        reveal_with_fuel(grammar::binding_element_seg, 1);
    }
    match parse_binding_element(ts, 0) {
        Err(e) => Err(e),
        Ok((x, q)) => if q == ts.len() {
            Ok(Node { value: x, range: span_of(ts, 0, q) })
        } else {
            Err(ParseError::WrongToken { expected: Expected::EndOfSegment })
        },
    }
}

/// The first `n` segments, each parsed as one RecordBindingElement.
#[verifier::spinoff_prover]
pub fn parse_binds_in(segs: &Vec<Vec<TokenNode>>, n: usize) -> (r: Result<Vec<Node<RecordBindingElement>>, ParseError>)
    requires
        n <= segs.len(),
    ensures
        lift_one(r, |v: Vec<Node<RecordBindingElement>>| bind_nodes_view(v@)) == grammar::binds_in(segs@, n as int),
    decreases segs@, n, 0int,
{
    proof {
        reveal_with_fuel(grammar::binds_in, 1);
    }
    if n == 0 {
        return Ok(Vec::new());
    }
    match parse_binds_in(segs, n - 1) {
        Err(e) => Err(e),
        Ok(v) => match parse_binding_element_seg(&segs[n - 1]) {
            Err(e) => Err(e),
            Ok(x) => {
                let mut v = v;
                let ghost before = v@;
                v.push(x);
                assert(v@.drop_last() =~= before);
                Ok(v)
            },
        },
    }
}

/// A list token at `p` whose segments each hold one RecordBindingElement.
#[verifier::spinoff_prover]
pub fn parse_binds_at(ts: &Vec<TokenNode>, p: usize, open: Option<char>) -> (r: Result<(ParsedVec<RecordBindingElement>, usize), ParseError>)
    ensures
        lift(r, |v: ParsedVec<RecordBindingElement>| bind_list_view(v)) == grammar::binds_at(ts@, p as int, open),
        r matches Ok((_, q)) ==> q == p + 1 && p < ts.len(),
    decreases ts@, ts@.len() + 3 - p, 0int,
{
    proof {
        reveal_with_fuel(grammar::binds_at, 1);
    }
    if p >= ts.len() || !fits(&ts[p], open) {
        return Err(list_error_at(ts, p, open));
    }
    match &ts[p].token {
        Token::List { segments, .. } => match parse_binds_in(segments, segments.len()) {
            Err(e) => Err(e),
            Ok(v) => Ok((Node { value: v, range: ts[p].range }, p + 1)),
        },
        _ => Err(list_error_at(ts, p, open)),
    }
}

/// A whole segment parsed as one InterfaceField.
#[verifier::spinoff_prover]
pub fn parse_interface_field_seg(ts: &Vec<TokenNode>) -> (r: Result<Node<InterfaceField>, ParseError>)
    ensures
        lift_one(r, |n: Node<InterfaceField>| field_node_view(n)) == grammar::interface_field_seg(ts@),
    decreases ts@, ts@.len() + 4, 0int,
{
    proof {
        reveal_with_fuel(grammar::interface_field_seg, 1);
    }
    match parse_interface_field(ts, 0) {
        Err(e) => Err(e),
        Ok((x, q)) => if q == ts.len() {
            Ok(Node { value: x, range: span_of(ts, 0, q) })
        } else {
            Err(ParseError::WrongToken { expected: Expected::EndOfSegment })
        },
    }
}

/// The first `n` segments, each parsed as one InterfaceField.
#[verifier::spinoff_prover]
pub fn parse_fields_in(segs: &Vec<Vec<TokenNode>>, n: usize) -> (r: Result<Vec<Node<InterfaceField>>, ParseError>)
    requires
        n <= segs.len(),
    ensures
        lift_one(r, |v: Vec<Node<InterfaceField>>| field_nodes_view(v@)) == grammar::fields_in(segs@, n as int),
    decreases segs@, n, 0int,
{
    proof {
        reveal_with_fuel(grammar::fields_in, 1);
    }
    if n == 0 {
        return Ok(Vec::new());
    }
    match parse_fields_in(segs, n - 1) {
        Err(e) => Err(e),
        Ok(v) => match parse_interface_field_seg(&segs[n - 1]) {
            Err(e) => Err(e),
            Ok(x) => {
                let mut v = v;
                let ghost before = v@;
                v.push(x);
                assert(v@.drop_last() =~= before);
                Ok(v)
            },
        },
    }
}

/// A list token at `p` whose segments each hold one InterfaceField.
#[verifier::spinoff_prover]
pub fn parse_fields_at(ts: &Vec<TokenNode>, p: usize, open: Option<char>) -> (r: Result<(ParsedVec<InterfaceField>, usize), ParseError>)
    ensures
        lift(r, |v: ParsedVec<InterfaceField>| field_list_view(v)) == grammar::fields_at(ts@, p as int, open),
        r matches Ok((_, q)) ==> q == p + 1 && p < ts.len(),
    decreases ts@, ts@.len() + 3 - p, 0int,
{
    proof {
        reveal_with_fuel(grammar::fields_at, 1);
    }
    if p >= ts.len() || !fits(&ts[p], open) {
        return Err(list_error_at(ts, p, open));
    }
    match &ts[p].token {
        Token::List { segments, .. } => match parse_fields_in(segments, segments.len()) {
            Err(e) => Err(e),
            Ok(v) => Ok((Node { value: v, range: ts[p].range }, p + 1)),
        },
        _ => Err(list_error_at(ts, p, open)),
    }
}

} // verus!
