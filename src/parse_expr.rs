//! Executable parsing of expressions.
use vstd::prelude::*;
use crate::ast::{
    ArithmeticOp, Assignment, BindingPattern, CompareOp, Declaration, Expression, GenericParameter,
    InterfaceField, Module, Node, ParameterDeclaration, ParsedVec, RecordBindingElement,
    RecordElement, Statement, Type, TypeConstraint, UnaryOp, Verbatim,
};
use crate::error::{
    Diagnostic, DiagnosticKind, DiagnosticPhase, DiagnosticSeverity, Expected, ParseError, Word,
};
use crate::grammar;
use crate::parser::{lift, lift_one, span_of, fits, list_error_at, is_sigil_token, parse_symbol, parse_keyword, parse_sigil, compare_op_at, sum_op_at, product_op_at, unary_op_at, parse_opt_generics, parse_params_at, parse_opt_type_constraint};
use crate::parse_stmt::parse_stmts_at;
use crate::model as m;
use crate::token::{SourceRange, Token, TokenNode, list_is, sigil_is, symbol_is, text_is};
use crate::view::{
    assign_list_view, assign_node_view, assign_nodes_view, assign_view, bind_list_view,
    bind_node_view, bind_nodes_view, bind_view, decl_node_view, decl_nodes_view, decl_view,
    expr_list_view, expr_node_view, expr_nodes_view, expr_view, field_list_view, field_node_view,
    field_nodes_view, field_view, gp_list_view, gp_node_view, gp_nodes_view, gp_view,
    opt_gp_view, opt_tc_view, param_list_view, param_node_view, param_nodes_view, param_view,
    pat_list_view, pat_node_view, pat_nodes_view, pat_view, rec_list_view, rec_node_view,
    rec_nodes_view, rec_view, stmt_list_view, stmt_node_view, stmt_nodes_view, stmt_view, tc_view,
    ty_list_view, ty_node_view, ty_nodes_view, ty_view, lemma_expr_nodes_view, lemma_pat_nodes_view,
};

verus! {

broadcast use crate::grammar::lemma_concat_assoc, crate::grammar::lemma_concat_empty, crate::grammar::lemma_concat_push;

// ---------------------------------------------------------------- expressions

/// `Expr ::= IndicatedForm | Compare`
#[verifier::spinoff_prover]
pub fn parse_expression(ts: &Vec<TokenNode>, p: usize, diags: &mut Vec<Diagnostic>) -> (r: Result<(Expression, usize), ParseError>)
    ensures
        lift(r, |e: Expression| expr_view(e)) == grammar::expression(ts@, p as int).0,
        final(diags)@ == old(diags)@ + grammar::expression(ts@, p as int).1,
        r matches Ok((_, q)) ==> p < q <= ts.len(),
    decreases ts@, ts@.len() + 3 - p, 20int,
{
    proof {
        reveal_with_fuel(grammar::expression, 1);
        reveal_with_fuel(crate::view::expr_view, 1);
    }
    if p >= ts.len() {
        return Err(ParseError::EndOfSegment);
    }
    if symbol_is(&ts[p], "fn") {
        parse_fn_literal(ts, p, diags)
    } else if symbol_is(&ts[p], "with") {
        parse_with_expression(ts, p, diags)
    } else if symbol_is(&ts[p], "if") {
        parse_if_expression(ts, p, diags)
    } else {
        parse_compare(ts, p, diags)
    }
}

/// `'fn' SYM? Generics? List TypeConstraint? '->' Expr`
#[verifier::spinoff_prover]
fn parse_fn_literal(ts: &Vec<TokenNode>, p: usize, diags: &mut Vec<Diagnostic>) -> (r: Result<(Expression, usize), ParseError>)
    ensures
        lift(r, |e: Expression| expr_view(e)) == grammar::fn_literal(ts@, p as int).0,
        final(diags)@ == old(diags)@ + grammar::fn_literal(ts@, p as int).1,
        r matches Ok((_, q)) ==> p < q <= ts.len(),
    decreases ts@, ts@.len() + 3 - p, 19int,
{
    proof {
        reveal_with_fuel(grammar::fn_literal, 1);
        reveal_with_fuel(crate::view::expr_view, 1);
    }
    let kw = match parse_symbol(ts, p) {
        Err(e) => return Err(e),
        Ok((kw, _)) => kw,
    };
    let (name, q1) = match parse_symbol(ts, p + 1) {
        Ok((n, q)) => (Some(n), q),
        Err(_) => (None, p + 1),
    };
    let (generics, q2) = parse_opt_generics(ts, q1);
    let (params, q3) = match parse_params_at(ts, q2, None) {
        Err(e) => return Err(e),
        Ok(x) => x,
    };
    let (constraint, q4) = parse_opt_type_constraint(ts, q3);
    let arrow = match parse_sigil(ts, q4, Word::Arrow) {
        Err(e) => return Err(e),
        Ok((a, _)) => a,
    };
    match parse_expression(ts, q4 + 1, diags) {
        Err(e) => Err(e),
        Ok((b, q5)) => Ok((
            Expression::Function {
                fn_keyword: kw,
                name,
                generic_parameters: generics,
                parameters: params,
                constraint,
                arrow_token: arrow,
                body: Box::new(Node { value: b, range: span_of(ts, q4 + 1, q5) }),
            },
            q5,
        )),
    }
}

/// `'with' List Expr`
#[verifier::spinoff_prover]
fn parse_with_expression(ts: &Vec<TokenNode>, p: usize, diags: &mut Vec<Diagnostic>) -> (r: Result<(Expression, usize), ParseError>)
    ensures
        lift(r, |e: Expression| expr_view(e)) == grammar::with_expression(ts@, p as int).0,
        final(diags)@ == old(diags)@ + grammar::with_expression(ts@, p as int).1,
        r matches Ok((_, q)) ==> p < q <= ts.len(),
    decreases ts@, ts@.len() + 3 - p, 19int,
{
    proof {
        reveal_with_fuel(grammar::with_expression, 1);
        reveal_with_fuel(crate::view::expr_view, 1);
    }
    let kw = match parse_symbol(ts, p) {
        Err(e) => return Err(e),
        Ok((kw, _)) => kw,
    };
    let bindings = match parse_assigns_at(ts, p + 1, None, diags) {
        Err(e) => return Err(e),
        Ok((b, _)) => b,
    };
    match parse_expression(ts, p + 2, diags) {
        Err(e) => Err(e),
        Ok((b, q)) => Ok((
            Expression::With {
                with_keyword: kw,
                bindings,
                body: Box::new(Node { value: b, range: span_of(ts, p + 2, q) }),
            },
            q,
        )),
    }
}

/// `'if' Expr 'then' Expr 'else' Expr`
#[verifier::spinoff_prover]
fn parse_if_expression(ts: &Vec<TokenNode>, p: usize, diags: &mut Vec<Diagnostic>) -> (r: Result<(Expression, usize), ParseError>)
    ensures
        lift(r, |e: Expression| expr_view(e)) == grammar::if_expression(ts@, p as int).0,
        final(diags)@ == old(diags)@ + grammar::if_expression(ts@, p as int).1,
        r matches Ok((_, q)) ==> p < q <= ts.len(),
    decreases ts@, ts@.len() + 3 - p, 19int,
{
    proof {
        reveal_with_fuel(grammar::if_expression, 1);
        reveal_with_fuel(crate::view::expr_view, 1);
    }
    let if_kw = match parse_symbol(ts, p) {
        Err(e) => return Err(e),
        Ok((kw, _)) => kw,
    };
    let (c, q1) = match parse_expression(ts, p + 1, diags) {
        Err(e) => return Err(e),
        Ok(x) => x,
    };
    let then_kw = match parse_keyword(ts, q1, Word::Then) {
        Err(e) => return Err(e),
        Ok((kw, _)) => kw,
    };
    let (t, q2) = match parse_expression(ts, q1 + 1, diags) {
        Err(e) => return Err(e),
        Ok(x) => x,
    };
    let else_kw = match parse_keyword(ts, q2, Word::Else) {
        Err(e) => return Err(e),
        Ok((kw, _)) => kw,
    };
    match parse_expression(ts, q2 + 1, diags) {
        Err(e) => Err(e),
        Ok((e, q3)) => Ok((
            Expression::If {
                if_keyword: if_kw,
                condition: Box::new(Node { value: c, range: span_of(ts, p + 1, q1) }),
                then_keyword: then_kw,
                then: Box::new(Node { value: t, range: span_of(ts, q1 + 1, q2) }),
                else_keyword: else_kw,
                _else: Box::new(Node { value: e, range: span_of(ts, q2 + 1, q3) }),
            },
            q3,
        )),
    }
}

/// `Compare ::= Arith (CMPOP Compare)?`
#[verifier::spinoff_prover]
fn parse_compare(ts: &Vec<TokenNode>, p: usize, diags: &mut Vec<Diagnostic>) -> (r: Result<(Expression, usize), ParseError>)
    ensures
        lift(r, |e: Expression| expr_view(e)) == grammar::compare(ts@, p as int).0,
        final(diags)@ == old(diags)@ + grammar::compare(ts@, p as int).1,
        r matches Ok((_, q)) ==> p < q <= ts.len(),
    decreases ts@, ts@.len() + 3 - p, 18int,
{
    proof {
        reveal_with_fuel(grammar::compare, 1);
        reveal_with_fuel(crate::view::expr_view, 1);
    }
    let (l, q) = match parse_arith(ts, p, diags) {
        Err(e) => return Err(e),
        Ok(x) => x,
    };
    match compare_op_at(ts, q) {
        None => Ok((l, q)),
        Some(op) => match parse_compare(ts, q + 1, diags) {
            Err(e) => Err(e),
            Ok((rt, r)) => Ok((
                Expression::Compare {
                    operator: Node { value: op, range: ts[q].range },
                    left: Box::new(Node { value: l, range: span_of(ts, p, q) }),
                    right: Box::new(Node { value: rt, range: span_of(ts, q + 1, r) }),
                },
                r,
            )),
        },
    }
}

/// `Arith ::= Term (('+'|'-') Arith)?`
#[verifier::spinoff_prover]
fn parse_arith(ts: &Vec<TokenNode>, p: usize, diags: &mut Vec<Diagnostic>) -> (r: Result<(Expression, usize), ParseError>)
    ensures
        lift(r, |e: Expression| expr_view(e)) == grammar::arith(ts@, p as int).0,
        final(diags)@ == old(diags)@ + grammar::arith(ts@, p as int).1,
        r matches Ok((_, q)) ==> p < q <= ts.len(),
    decreases ts@, ts@.len() + 3 - p, 17int,
{
    proof {
        reveal_with_fuel(grammar::arith, 1);
        reveal_with_fuel(crate::view::expr_view, 1);
    }
    let (l, q) = match parse_term(ts, p, diags) {
        Err(e) => return Err(e),
        Ok(x) => x,
    };
    match sum_op_at(ts, q) {
        None => Ok((l, q)),
        Some(op) => match parse_arith(ts, q + 1, diags) {
            Err(e) => Err(e),
            Ok((rt, r)) => Ok((
                Expression::Arithmetic {
                    operator: Node { value: op, range: ts[q].range },
                    left: Box::new(Node { value: l, range: span_of(ts, p, q) }),
                    right: Box::new(Node { value: rt, range: span_of(ts, q + 1, r) }),
                },
                r,
            )),
        },
    }
}

/// `Term ::= Unary (('*'|'/'|'%') Term)?`
#[verifier::spinoff_prover]
fn parse_term(ts: &Vec<TokenNode>, p: usize, diags: &mut Vec<Diagnostic>) -> (r: Result<(Expression, usize), ParseError>)
    ensures
        lift(r, |e: Expression| expr_view(e)) == grammar::term(ts@, p as int).0,
        final(diags)@ == old(diags)@ + grammar::term(ts@, p as int).1,
        r matches Ok((_, q)) ==> p < q <= ts.len(),
    decreases ts@, ts@.len() + 3 - p, 16int,
{
    proof {
        reveal_with_fuel(grammar::term, 1);
        reveal_with_fuel(crate::view::expr_view, 1);
    }
    let (l, q) = match parse_unary(ts, p, diags) {
        Err(e) => return Err(e),
        Ok(x) => x,
    };
    match product_op_at(ts, q) {
        None => Ok((l, q)),
        Some(op) => match parse_term(ts, q + 1, diags) {
            Err(e) => Err(e),
            Ok((rt, r)) => Ok((
                Expression::Arithmetic {
                    operator: Node { value: op, range: ts[q].range },
                    left: Box::new(Node { value: l, range: span_of(ts, p, q) }),
                    right: Box::new(Node { value: rt, range: span_of(ts, q + 1, r) }),
                },
                r,
            )),
        },
    }
}

/// `Unary ::= ('!'|'-') Unary | FieldAccess`
#[verifier::spinoff_prover]
fn parse_unary(ts: &Vec<TokenNode>, p: usize, diags: &mut Vec<Diagnostic>) -> (r: Result<(Expression, usize), ParseError>)
    ensures
        lift(r, |e: Expression| expr_view(e)) == grammar::unary(ts@, p as int).0,
        final(diags)@ == old(diags)@ + grammar::unary(ts@, p as int).1,
        r matches Ok((_, q)) ==> p < q <= ts.len(),
    decreases ts@, ts@.len() + 3 - p, 15int,
{
    proof {
        reveal_with_fuel(grammar::unary, 1);
        reveal_with_fuel(crate::view::expr_view, 1);
    }
    match unary_op_at(ts, p) {
        None => parse_field_access(ts, p, diags),
        Some(op) => match parse_unary(ts, p + 1, diags) {
            Err(e) => Err(e),
            Ok((x, q)) => Ok((
                Expression::Unary {
                    operator: Node { value: op, range: ts[p].range },
                    expression: Box::new(Node { value: x, range: span_of(ts, p + 1, q) }),
                },
                q,
            )),
        },
    }
}

/// `Postfix ::= Primary ('(' Expr* ')' | '[' Expr ']')*`
#[verifier::spinoff_prover]
fn parse_postfix(ts: &Vec<TokenNode>, p: usize, diags: &mut Vec<Diagnostic>) -> (r: Result<(Expression, usize), ParseError>)
    ensures
        lift(r, |e: Expression| expr_view(e)) == grammar::postfix(ts@, p as int).0,
        final(diags)@ == old(diags)@ + grammar::postfix(ts@, p as int).1,
        r matches Ok((_, q)) ==> p < q <= ts.len(),
    decreases ts@, ts@.len() + 3 - p, 13int,
{
    proof {
        reveal_with_fuel(grammar::postfix, 1);
    }
    let (x, q) = match parse_element(ts, p, diags) {
        Err(e) => return Err(e),
        Ok(x) => x,
    };
    parse_postfix_rest(ts, p, Node { value: x, range: span_of(ts, p, q) }, q, diags)
}

/// A call node: `callee` applied to `args`.
#[verifier::spinoff_prover]
fn make_call(callee: Node<Expression>, args: Vec<Node<Expression>>, args_range: SourceRange, range: SourceRange) -> (r: Node<Expression>)
    ensures
        expr_node_view(r) == (Node {
            value: m::Expression::Call {
                callee: Box::new(expr_node_view(callee)),
                parameters: Node { value: expr_nodes_view(args@), range: args_range },
            },
            range,
        }),
{
    proof {
        reveal_with_fuel(crate::view::expr_view, 1);
    }
    let params = Node { value: args, range: args_range };
    let ghost cv = expr_node_view(callee);
    let ghost pv = expr_list_view(params);
    assert(pv == Node { value: expr_nodes_view(params.value@), range: args_range });
    let r = Node { value: Expression::Call { callee: Box::new(callee), parameters: params }, range };
    assert(expr_view(r.value) == m::Expression::Call { callee: Box::new(cv), parameters: pv });
    r
}

/// An index node: `accessee[index]`.
#[verifier::spinoff_prover]
fn make_accessor(accessee: Node<Expression>, index: Node<Expression>, range: SourceRange) -> (r: Node<Expression>)
    ensures
        expr_node_view(r) == (Node {
            value: m::Expression::Accessor {
                accessee: Box::new(expr_node_view(accessee)),
                index: Box::new(expr_node_view(index)),
            },
            range,
        }),
{
    proof {
        reveal_with_fuel(crate::view::expr_view, 1);
    }
    Node { value: Expression::Accessor { accessee: Box::new(accessee), index: Box::new(index) }, range }
}

/// The calls and index accesses that follow `acc`, which spans `ts[p..q]`,
/// applied from left to right.
#[verifier::spinoff_prover]
fn parse_postfix_rest(ts: &Vec<TokenNode>, p: usize, acc: Node<Expression>, q: usize, diags: &mut Vec<Diagnostic>) -> (r: Result<(Expression, usize), ParseError>)
    requires
        p < q <= ts.len(),
    ensures
        lift(r, |e: Expression| expr_view(e)) == grammar::postfix_rest(ts@, p as int, expr_node_view(acc), q as int).0,
        final(diags)@ == old(diags)@ + grammar::postfix_rest(ts@, p as int, expr_node_view(acc), q as int).1,
        r matches Ok((_, q2)) ==> q <= q2 <= ts.len(),
    decreases ts@, ts@.len() + 3 - q, 1int,
{
    proof {
        reveal_with_fuel(grammar::postfix_rest, 1);
        reveal_with_fuel(crate::view::expr_view, 1);
    }
    if q >= ts.len() {
        return Ok((acc.value, q));
    }
    match &ts[q].token {
        Token::List { open, segments, .. } => if *open == '(' {
            match parse_exprs_in(segments, segments.len(), diags) {
                Err(e) => Err(e),
                Ok(args) => {
                    let node = make_call(acc, args, ts[q].range, span_of(ts, p, q + 1));
                    parse_postfix_rest(ts, p, node, q + 1, diags)
                },
            }
        } else if *open == '[' {
            if segments.len() != 1 {
                Err(ParseError::WrongToken { expected: Expected::SingleElement })
            } else {
                match parse_expression_seg(&segments[0], diags) {
                    Err(e) => Err(e),
                    Ok(ix) => {
                        let node = make_accessor(acc, ix, span_of(ts, p, q + 1));
                        parse_postfix_rest(ts, p, node, q + 1, diags)
                    },
                }
            }
        } else {
            Ok((acc.value, q))
        },
        _ => Ok((acc.value, q)),
    }
}

/// `FieldAccess ::= Postfix ('.' SYM)?`: at most one field access, applied
/// to the whole call and index chain.
#[verifier::spinoff_prover]
fn parse_field_access(ts: &Vec<TokenNode>, p: usize, diags: &mut Vec<Diagnostic>) -> (r: Result<(Expression, usize), ParseError>)
    ensures
        lift(r, |e: Expression| expr_view(e)) == grammar::field_access(ts@, p as int).0,
        final(diags)@ == old(diags)@ + grammar::field_access(ts@, p as int).1,
        r matches Ok((_, q)) ==> p < q <= ts.len(),
    decreases ts@, ts@.len() + 3 - p, 14int,
{
    proof {
        reveal_with_fuel(grammar::field_access, 1);
        reveal_with_fuel(crate::view::expr_view, 1);
    }
    let (x, q) = match parse_postfix(ts, p, diags) {
        Err(e) => return Err(e),
        Ok(x) => x,
    };
    if q < ts.len() && sigil_is(&ts[q], ".") {
        match parse_symbol(ts, q + 1) {
            Err(e) => Err(e),
            Ok((f, r)) => Ok((
                Expression::FieldAccess {
                    accessee: Box::new(Node { value: x, range: span_of(ts, p, q) }),
                    field: f,
                },
                r,
            )),
        }
    } else {
        Ok((x, q))
    }
}

/// A primary element: a delimited group, a literal, a name, a hole, or a
/// procedure `#[...]`.
#[verifier::spinoff_prover]
fn parse_element(ts: &Vec<TokenNode>, p: usize, diags: &mut Vec<Diagnostic>) -> (r: Result<(Expression, usize), ParseError>)
    ensures
        lift(r, |e: Expression| expr_view(e)) == grammar::element(ts@, p as int).0,
        final(diags)@ == old(diags)@ + grammar::element(ts@, p as int).1,
        r matches Ok((_, q)) ==> p < q <= ts.len(),
    decreases ts@, ts@.len() + 3 - p, 12int,
{
    proof {
        reveal_with_fuel(grammar::element, 1);
    }
    if p >= ts.len() {
        return Err(ParseError::EndOfSegment);
    }
    if fits(&ts[p], None) {
        parse_group(ts, p, diags)
    } else if is_sigil_token(&ts[p]) {
        parse_sigil_element(ts, p, diags)
    } else {
        parse_atom(ts, p)
    }
}

/// A literal or a name.
fn parse_atom(ts: &Vec<TokenNode>, p: usize) -> (r: Result<(Expression, usize), ParseError>)
    ensures
        lift(r, |e: Expression| expr_view(e)) == grammar::atom(ts@, p as int),
        r matches Ok((_, q)) ==> p < q <= ts.len(),
{
    proof {
        reveal_with_fuel(crate::view::expr_view, 1);
    }
    if p >= ts.len() {
        return Err(ParseError::EndOfSegment);
    }
    match &ts[p].token {
        Token::Symbol(s) => if text_is(s, "true") {
            Ok((Expression::Boolean(true), p + 1))
        } else if text_is(s, "false") {
            Ok((Expression::Boolean(false), p + 1))
        } else if text_is(s, "none") {
            Ok((Expression::NoneLiteral, p + 1))
        } else {
            Ok((Expression::Name(s.clone()), p + 1))
        },
        Token::Number(s) => Ok((Expression::Number(s.clone()), p + 1)),
        Token::Str(s) => Ok((Expression::String(s.clone()), p + 1)),
        _ => Err(ParseError::WrongToken { expected: Expected::Expression }),
    }
}

/// A hole `@` or a procedure `#[...]`.
#[verifier::spinoff_prover]
fn parse_sigil_element(ts: &Vec<TokenNode>, p: usize, diags: &mut Vec<Diagnostic>) -> (r: Result<(Expression, usize), ParseError>)
    ensures
        lift(r, |e: Expression| expr_view(e)) == grammar::sigil_element(ts@, p as int).0,
        final(diags)@ == old(diags)@ + grammar::sigil_element(ts@, p as int).1,
        r matches Ok((_, q)) ==> p < q <= ts.len(),
    decreases ts@, ts@.len() + 3 - p, 10int,
{
    proof {
        reveal_with_fuel(grammar::sigil_element, 1);
        reveal_with_fuel(crate::view::expr_view, 1);
    }
    if p >= ts.len() {
        return Err(ParseError::EndOfSegment);
    }
    match &ts[p].token {
        Token::Sigil(s) => if text_is(s, "@") {
            Ok((Expression::Hole, p + 1))
        } else if text_is(s, "#") {
            match parse_stmts_at(ts, p + 1, Some('['), diags) {
                Err(e) => Err(e),
                Ok((body, q)) => Ok((Expression::Procedure { body }, q)),
            }
        } else {
            Err(ParseError::WrongToken { expected: Expected::Expression })
        },
        _ => Err(ParseError::WrongToken { expected: Expected::Expression }),
    }
}

/// A delimited group standing as an expression.
#[verifier::spinoff_prover]
fn parse_group(ts: &Vec<TokenNode>, p: usize, diags: &mut Vec<Diagnostic>) -> (r: Result<(Expression, usize), ParseError>)
    ensures
        lift(r, |e: Expression| expr_view(e)) == grammar::group(ts@, p as int).0,
        final(diags)@ == old(diags)@ + grammar::group(ts@, p as int).1,
        r matches Ok((_, q)) ==> p < q <= ts.len(),
    decreases ts@, ts@.len() + 3 - p, 11int,
{
    proof {
        reveal_with_fuel(grammar::group, 1);
        reveal_with_fuel(crate::view::expr_view, 1);
    }
    if p >= ts.len() {
        return Err(ParseError::EndOfSegment);
    }
    match &ts[p].token {
        Token::List { open, segments, .. } => if *open == '(' {
            match parse_exprs_in(segments, segments.len(), diags) {
                Err(e) => Err(e),
                Ok(v) => {
                    proof {
                        lemma_expr_nodes_view(v@);
                    }
                    if v.len() == 0 {
                        diags.push(
                            Diagnostic {
                                severity: DiagnosticSeverity::Warning,
                                phase: DiagnosticPhase::Parse,
                                range: ts[p].range,
                                kind: DiagnosticKind::EmptyTuple,
                                note: None,
                                subject: None,
                                inner_diagnostics: None,
                            },
                        );
                        Ok((Expression::Tuple { elements: Node { value: v, range: ts[p].range } }, p + 1))
                    } else if v.len() == 1 {
                        let ghost vm = expr_nodes_view(v@);
                        let mut v = v;
                        let n = v.remove(0);
                        assert(vm[0].value == expr_view(n.value));
                        Ok((n.value, p + 1))
                    } else {
                        Ok((Expression::Tuple { elements: Node { value: v, range: ts[p].range } }, p + 1))
                    }
                },
            }
        } else if *open == '[' {
            match parse_exprs_in(segments, segments.len(), diags) {
                Err(e) => Err(e),
                Ok(v) => Ok((Expression::List { elements: Node { value: v, range: ts[p].range } }, p + 1)),
            }
        } else if *open == '{' {
            match parse_recs_in(segments, segments.len(), diags) {
                Err(e) => Err(e),
                Ok(v) => Ok((Expression::Record { elements: Node { value: v, range: ts[p].range } }, p + 1)),
            }
        } else {
            Err(ParseError::WrongToken { expected: Expected::Expression })
        },
        _ => Err(ParseError::WrongToken { expected: Expected::Expression }),
    }
}

/// `SYM '=' Expr`
#[verifier::spinoff_prover]
pub fn parse_assignment(ts: &Vec<TokenNode>, p: usize, diags: &mut Vec<Diagnostic>) -> (r: Result<(Assignment, usize), ParseError>)
    ensures
        lift(r, |a: Assignment| assign_view(a)) == grammar::assignment(ts@, p as int).0,
        final(diags)@ == old(diags)@ + grammar::assignment(ts@, p as int).1,
        r matches Ok((_, q)) ==> p < q <= ts.len(),
    decreases ts@, ts@.len() + 3 - p, 21int,
{
    proof {
        reveal_with_fuel(grammar::assignment, 1);
    }
    let name = match parse_symbol(ts, p) {
        Err(e) => return Err(e),
        Ok((n, _)) => n,
    };
    let eq = match parse_sigil(ts, p + 1, Word::Equals) {
        Err(e) => return Err(e),
        Ok((t, _)) => t,
    };
    match parse_expression(ts, p + 2, diags) {
        Err(e) => Err(e),
        Ok((v, q)) => Ok((
            Assignment { symbol: name, equal_token: eq, value: Node { value: v, range: span_of(ts, p + 2, q) } },
            q,
        )),
    }
}

/// `SYM ':' Expr`, `SYM`, or `'...' Expr`.
#[verifier::spinoff_prover]
pub fn parse_record_element(ts: &Vec<TokenNode>, p: usize, diags: &mut Vec<Diagnostic>) -> (r: Result<(RecordElement, usize), ParseError>)
    ensures
        lift(r, |x: RecordElement| rec_view(x)) == grammar::record_element(ts@, p as int).0,
        final(diags)@ == old(diags)@ + grammar::record_element(ts@, p as int).1,
        r matches Ok((_, q)) ==> p < q <= ts.len(),
    decreases ts@, ts@.len() + 3 - p, 21int,
{
    proof {
        reveal_with_fuel(grammar::record_element, 1);
    }
    if p >= ts.len() {
        return Err(ParseError::EndOfSegment);
    }
    match &ts[p].token {
        Token::Symbol(s) => if p + 1 < ts.len() && sigil_is(&ts[p + 1], ":") {
            match parse_expression(ts, p + 2, diags) {
                Err(e) => Err(e),
                Ok((v, q)) => Ok((
                    RecordElement::KeyValuePair {
                        key: Node { value: s.clone(), range: ts[p].range },
                        value: Node { value: v, range: span_of(ts, p + 2, q) },
                    },
                    q,
                )),
            }
        } else {
            Ok((RecordElement::Identifier { name: Node { value: s.clone(), range: ts[p].range } }, p + 1))
        },
        Token::Sigil(s) => if text_is(s, "...") {
            match parse_expression(ts, p + 1, diags) {
                Err(e) => Err(e),
                Ok((v, q)) => Ok((RecordElement::Spread { value: Node { value: v, range: span_of(ts, p + 1, q) } }, q)),
            }
        } else {
            Err(ParseError::WrongToken { expected: Expected::RecordElement })
        },
        _ => Err(ParseError::WrongToken { expected: Expected::RecordElement }),
    }
}

/// A whole segment parsed as one Expression.
#[verifier::spinoff_prover]
pub fn parse_expression_seg(ts: &Vec<TokenNode>, diags: &mut Vec<Diagnostic>) -> (r: Result<Node<Expression>, ParseError>)
    ensures
        lift_one(r, |n: Node<Expression>| expr_node_view(n)) == grammar::expression_seg(ts@).0,
        final(diags)@ == old(diags)@ + grammar::expression_seg(ts@).1,
    decreases ts@, ts@.len() + 4, 0int,
{
    proof {
        reveal_with_fuel(grammar::expression_seg, 1);
    }
    match parse_expression(ts, 0, diags) {
        Err(e) => Err(e),
        Ok((x, q)) => if q == ts.len() {
            Ok(Node { value: x, range: span_of(ts, 0, q) })
        } else {
            Err(ParseError::WrongToken { expected: Expected::EndOfSegment })
        },
    }
}

/// The first `n` segments, each parsed as one Expression.
#[verifier::spinoff_prover]
pub fn parse_exprs_in(segs: &Vec<Vec<TokenNode>>, n: usize, diags: &mut Vec<Diagnostic>) -> (r: Result<Vec<Node<Expression>>, ParseError>)
    requires
        n <= segs.len(),
    ensures
        lift_one(r, |v: Vec<Node<Expression>>| expr_nodes_view(v@)) == grammar::exprs_in(segs@, n as int).0,
        final(diags)@ == old(diags)@ + grammar::exprs_in(segs@, n as int).1,
    decreases segs@, n, 0int,
{
    proof {
        reveal_with_fuel(grammar::exprs_in, 1);
    }
    if n == 0 {
        return Ok(Vec::new());
    }
    match parse_exprs_in(segs, n - 1, diags) {
        Err(e) => Err(e),
        Ok(v) => match parse_expression_seg(&segs[n - 1], diags) {
            Err(e) => Err(e),
            Ok(x) => {
                let mut v = v;
                let ghost before = v@;
                v.push(x);
                assert(v@.drop_last() =~= before);
                Ok(v)
            },
        },
    }
}

/// A list token at `p` whose segments each hold one Expression.
#[verifier::spinoff_prover]
pub fn parse_exprs_at(ts: &Vec<TokenNode>, p: usize, open: Option<char>, diags: &mut Vec<Diagnostic>) -> (r: Result<(ParsedVec<Expression>, usize), ParseError>)
    ensures
        lift(r, |v: ParsedVec<Expression>| expr_list_view(v)) == grammar::exprs_at(ts@, p as int, open).0,
        final(diags)@ == old(diags)@ + grammar::exprs_at(ts@, p as int, open).1,
        r matches Ok((_, q)) ==> q == p + 1 && p < ts.len(),
    decreases ts@, ts@.len() + 3 - p, 0int,
{
    proof {
        reveal_with_fuel(grammar::exprs_at, 1);
    }
    if p >= ts.len() || !fits(&ts[p], open) {
        return Err(list_error_at(ts, p, open));
    }
    match &ts[p].token {
        Token::List { segments, .. } => match parse_exprs_in(segments, segments.len(), diags) {
            Err(e) => Err(e),
            Ok(v) => Ok((Node { value: v, range: ts[p].range }, p + 1)),
        },
        _ => Err(list_error_at(ts, p, open)),
    }
}

/// A whole segment parsed as one Assignment.
#[verifier::spinoff_prover]
pub fn parse_assignment_seg(ts: &Vec<TokenNode>, diags: &mut Vec<Diagnostic>) -> (r: Result<Node<Assignment>, ParseError>)
    ensures
        lift_one(r, |n: Node<Assignment>| assign_node_view(n)) == grammar::assignment_seg(ts@).0,
        final(diags)@ == old(diags)@ + grammar::assignment_seg(ts@).1,
    decreases ts@, ts@.len() + 4, 0int,
{
    proof {
        reveal_with_fuel(grammar::assignment_seg, 1);
    }
    match parse_assignment(ts, 0, diags) {
        Err(e) => Err(e),
        Ok((x, q)) => if q == ts.len() {
            Ok(Node { value: x, range: span_of(ts, 0, q) })
        } else {
            Err(ParseError::WrongToken { expected: Expected::EndOfSegment })
        },
    }
}

/// The first `n` segments, each parsed as one Assignment.
#[verifier::spinoff_prover]
pub fn parse_assigns_in(segs: &Vec<Vec<TokenNode>>, n: usize, diags: &mut Vec<Diagnostic>) -> (r: Result<Vec<Node<Assignment>>, ParseError>)
    requires
        n <= segs.len(),
    ensures
        lift_one(r, |v: Vec<Node<Assignment>>| assign_nodes_view(v@)) == grammar::assigns_in(segs@, n as int).0,
        final(diags)@ == old(diags)@ + grammar::assigns_in(segs@, n as int).1,
    decreases segs@, n, 0int,
{
    proof {
        reveal_with_fuel(grammar::assigns_in, 1);
    }
    if n == 0 {
        return Ok(Vec::new());
    }
    match parse_assigns_in(segs, n - 1, diags) {
        Err(e) => Err(e),
        Ok(v) => match parse_assignment_seg(&segs[n - 1], diags) {
            Err(e) => Err(e),
            Ok(x) => {
                let mut v = v;
                let ghost before = v@;
                v.push(x);
                assert(v@.drop_last() =~= before);
                Ok(v)
            },
        },
    }
}

/// A list token at `p` whose segments each hold one Assignment.
#[verifier::spinoff_prover]
pub fn parse_assigns_at(ts: &Vec<TokenNode>, p: usize, open: Option<char>, diags: &mut Vec<Diagnostic>) -> (r: Result<(ParsedVec<Assignment>, usize), ParseError>)
    ensures
        lift(r, |v: ParsedVec<Assignment>| assign_list_view(v)) == grammar::assigns_at(ts@, p as int, open).0,
        final(diags)@ == old(diags)@ + grammar::assigns_at(ts@, p as int, open).1,
        r matches Ok((_, q)) ==> q == p + 1 && p < ts.len(),
    decreases ts@, ts@.len() + 3 - p, 0int,
{
    proof {
        reveal_with_fuel(grammar::assigns_at, 1);
    }
    if p >= ts.len() || !fits(&ts[p], open) {
        return Err(list_error_at(ts, p, open));
    }
    match &ts[p].token {
        Token::List { segments, .. } => match parse_assigns_in(segments, segments.len(), diags) {
            Err(e) => Err(e),
            Ok(v) => Ok((Node { value: v, range: ts[p].range }, p + 1)),
        },
        _ => Err(list_error_at(ts, p, open)),
    }
}

/// A whole segment parsed as one RecordElement.
#[verifier::spinoff_prover]
pub fn parse_record_element_seg(ts: &Vec<TokenNode>, diags: &mut Vec<Diagnostic>) -> (r: Result<Node<RecordElement>, ParseError>)
    ensures
        lift_one(r, |n: Node<RecordElement>| rec_node_view(n)) == grammar::record_element_seg(ts@).0,
        final(diags)@ == old(diags)@ + grammar::record_element_seg(ts@).1,
    decreases ts@, ts@.len() + 4, 0int,
{
    proof {
        reveal_with_fuel(grammar::record_element_seg, 1);
    }
    match parse_record_element(ts, 0, diags) {
        Err(e) => Err(e),
        Ok((x, q)) => if q == ts.len() {
            Ok(Node { value: x, range: span_of(ts, 0, q) })
        } else {
            Err(ParseError::WrongToken { expected: Expected::EndOfSegment })
        },
    }
}

/// The first `n` segments, each parsed as one RecordElement.
#[verifier::spinoff_prover]
pub fn parse_recs_in(segs: &Vec<Vec<TokenNode>>, n: usize, diags: &mut Vec<Diagnostic>) -> (r: Result<Vec<Node<RecordElement>>, ParseError>)
    requires
        n <= segs.len(),
    ensures
        lift_one(r, |v: Vec<Node<RecordElement>>| rec_nodes_view(v@)) == grammar::recs_in(segs@, n as int).0,
        final(diags)@ == old(diags)@ + grammar::recs_in(segs@, n as int).1,
    decreases segs@, n, 0int,
{
    proof {
        reveal_with_fuel(grammar::recs_in, 1);
    }
    if n == 0 {
        return Ok(Vec::new());
    }
    match parse_recs_in(segs, n - 1, diags) {
        Err(e) => Err(e),
        Ok(v) => match parse_record_element_seg(&segs[n - 1], diags) {
            Err(e) => Err(e),
            Ok(x) => {
                let mut v = v;
                let ghost before = v@;
                v.push(x);
                assert(v@.drop_last() =~= before);
                Ok(v)
            },
        },
    }
}

/// A list token at `p` whose segments each hold one RecordElement.
#[verifier::spinoff_prover]
pub fn parse_recs_at(ts: &Vec<TokenNode>, p: usize, open: Option<char>, diags: &mut Vec<Diagnostic>) -> (r: Result<(ParsedVec<RecordElement>, usize), ParseError>)
    ensures
        lift(r, |v: ParsedVec<RecordElement>| rec_list_view(v)) == grammar::recs_at(ts@, p as int, open).0,
        final(diags)@ == old(diags)@ + grammar::recs_at(ts@, p as int, open).1,
        r matches Ok((_, q)) ==> q == p + 1 && p < ts.len(),
    decreases ts@, ts@.len() + 3 - p, 0int,
{
    proof {
        reveal_with_fuel(grammar::recs_at, 1);
    }
    if p >= ts.len() || !fits(&ts[p], open) {
        return Err(list_error_at(ts, p, open));
    }
    match &ts[p].token {
        Token::List { segments, .. } => match parse_recs_in(segments, segments.len(), diags) {
            Err(e) => Err(e),
            Ok(v) => Ok((Node { value: v, range: ts[p].range }, p + 1)),
        },
        _ => Err(list_error_at(ts, p, open)),
    }
}

} // verus!
