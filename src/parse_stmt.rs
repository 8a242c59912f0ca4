//! Executable parsing of statements.
use vstd::prelude::*;
use crate::ast::{
    ArithmeticOp, Assignment, BindingPattern, CompareOp, Declaration, Expression, GenericParameter,
    InterfaceField, Module, Node, ParameterDeclaration, ParsedVec, RecordBindingElement,
    RecordElement, Statement, Type, TypeConstraint, UnaryOp, Verbatim,
};
use crate::error::{
    Diagnostic, DiagnosticKind, DiagnosticPhase, DiagnosticSeverity, Expected, ParseError, Word,
};
use crate::grammar;
use crate::parse_expr::{parse_assignment, parse_expression};
use crate::parser::{lift, lift_one, parse_keyword, parse_symbol, span_of, fits, list_error_at};
use crate::token::{SourceRange, Token, TokenNode, list_is, sigil_is, symbol_is, text_is};
use crate::view::{
    assign_list_view, assign_node_view, assign_nodes_view, assign_view, bind_list_view,
    bind_node_view, bind_nodes_view, bind_view, decl_node_view, decl_nodes_view, decl_view,
    expr_list_view, expr_node_view, expr_nodes_view, expr_view, field_list_view, field_node_view,
    field_nodes_view, field_view, gp_list_view, gp_node_view, gp_nodes_view, gp_view,
    opt_gp_view, opt_tc_view, param_list_view, param_node_view, param_nodes_view, param_view,
    pat_list_view, pat_node_view, pat_nodes_view, pat_view, rec_list_view, rec_node_view,
    rec_nodes_view, rec_view, stmt_list_view, stmt_node_view, stmt_nodes_view, stmt_view, tc_view,
    ty_list_view, ty_node_view, ty_nodes_view, ty_view, lemma_expr_nodes_view, lemma_pat_nodes_view,
};

verus! {

broadcast use crate::grammar::lemma_concat_assoc, crate::grammar::lemma_concat_empty, crate::grammar::lemma_concat_push;

// ---------------------------------------------------------------- statements

/// One statement of a procedure body.
#[verifier::spinoff_prover]
pub fn parse_statement(ts: &Vec<TokenNode>, p: usize, diags: &mut Vec<Diagnostic>) -> (r: Result<(Statement, usize), ParseError>)
    ensures
        lift(r, |s: Statement| stmt_view(s)) == grammar::statement(ts@, p as int).0,
        final(diags)@ == old(diags)@ + grammar::statement(ts@, p as int).1,
        r matches Ok((_, q)) ==> p < q <= ts.len(),
    decreases ts@, ts@.len() + 3 - p, 22int,
{
    proof {
        reveal_with_fuel(grammar::statement, 1);
        reveal_with_fuel(crate::view::stmt_view, 1);
    }
    if p >= ts.len() {
        return Err(ParseError::EndOfSegment);
    }
    let s = match &ts[p].token {
        Token::Symbol(s) => s,
        _ => return parse_expression_statement(ts, p, diags),
    };
    if text_is(s, "let") {
        match parse_assignment(ts, p + 1, diags) {
            Err(e) => Err(e),
            Ok((a, q)) => Ok((
                Statement::Let {
                    let_keyword: Node { value: s.clone(), range: ts[p].range },
                    assignment: Node { value: a, range: span_of(ts, p + 1, q) },
                },
                q,
            )),
        }
    } else if text_is(s, "if") {
        let (c, q1) = match parse_expression(ts, p + 1, diags) {
            Err(e) => return Err(e),
            Ok(x) => x,
        };
        match parse_statement(ts, q1, diags) {
            Err(e) => Err(e),
            Ok((st, q2)) => Ok((
                Statement::If {
                    if_keyword: Node { value: s.clone(), range: ts[p].range },
                    condition: Box::new(Node { value: c, range: span_of(ts, p + 1, q1) }),
                    then: Box::new(Node { value: st, range: span_of(ts, q1, q2) }),
                    _else: None,
                },
                q2,
            )),
        }
    } else if text_is(s, "for") {
        let binding = match parse_symbol(ts, p + 1) {
            Err(e) => return Err(e),
            Ok((b, _)) => b,
        };
        let in_kw = match parse_keyword(ts, p + 2, Word::In) {
            Err(e) => return Err(e),
            Ok((k, _)) => k,
        };
        let (it, q1) = match parse_expression(ts, p + 3, diags) {
            Err(e) => return Err(e),
            Ok(x) => x,
        };
        match parse_statement(ts, q1, diags) {
            Err(e) => Err(e),
            Ok((b, q2)) => Ok((
                Statement::ForIn {
                    for_keyword: Node { value: s.clone(), range: ts[p].range },
                    binding,
                    in_keyword: in_kw,
                    iterator: Box::new(Node { value: it, range: span_of(ts, p + 3, q1) }),
                    body: Box::new(Node { value: b, range: span_of(ts, q1, q2) }),
                },
                q2,
            )),
        }
    } else if text_is(s, "loop") {
        match parse_statement(ts, p + 1, diags) {
            Err(e) => Err(e),
            Ok((b, q)) => Ok((Statement::Forever(Box::new(Node { value: b, range: span_of(ts, p + 1, q) })), q)),
        }
    } else if text_is(s, "do") {
        match parse_expression(ts, p + 1, diags) {
            Err(e) => Err(e),
            Ok((x, q)) => Ok((Statement::Do(Box::new(Node { value: x, range: span_of(ts, p + 1, q) })), q)),
        }
    } else if text_is(s, "break") {
        Ok((Statement::Break, p + 1))
    } else if text_is(s, "continue") {
        Ok((Statement::Continue, p + 1))
    } else if text_is(s, "pass") {
        Ok((Statement::Pass, p + 1))
    } else if p + 1 < ts.len() && sigil_is(&ts[p + 1], "=") {
        match parse_assignment(ts, p, diags) {
            Err(e) => Err(e),
            Ok((a, q)) => Ok((Statement::Assign(Node { value: a, range: span_of(ts, p, q) }), q)),
        }
    } else {
        parse_expression_statement(ts, p, diags)
    }
}

/// An expression standing as a statement.
#[verifier::spinoff_prover]
pub fn parse_expression_statement(ts: &Vec<TokenNode>, p: usize, diags: &mut Vec<Diagnostic>) -> (r: Result<(Statement, usize), ParseError>)
    ensures
        lift(r, |s: Statement| stmt_view(s)) == grammar::expression_statement(ts@, p as int).0,
        final(diags)@ == old(diags)@ + grammar::expression_statement(ts@, p as int).1,
        r matches Ok((_, q)) ==> p < q <= ts.len(),
    decreases ts@, ts@.len() + 3 - p, 21int,
{
    proof {
        reveal_with_fuel(grammar::expression_statement, 1);
        reveal_with_fuel(crate::view::stmt_view, 1);
    }
    match parse_expression(ts, p, diags) {
        Err(e) => Err(e),
        Ok((x, q)) => Ok((Statement::Expression(Box::new(Node { value: x, range: span_of(ts, p, q) })), q)),
    }
}

/// A whole segment parsed as one Statement.
#[verifier::spinoff_prover]
pub fn parse_statement_seg(ts: &Vec<TokenNode>, diags: &mut Vec<Diagnostic>) -> (r: Result<Node<Statement>, ParseError>)
    ensures
        lift_one(r, |n: Node<Statement>| stmt_node_view(n)) == grammar::statement_seg(ts@).0,
        final(diags)@ == old(diags)@ + grammar::statement_seg(ts@).1,
    decreases ts@, ts@.len() + 4, 0int,
{
    proof {
        reveal_with_fuel(grammar::statement_seg, 1);
    }
    match parse_statement(ts, 0, diags) {
        Err(e) => Err(e),
        Ok((x, q)) => if q == ts.len() {
            Ok(Node { value: x, range: span_of(ts, 0, q) })
        } else {
            Err(ParseError::WrongToken { expected: Expected::EndOfSegment })
        },
    }
}

/// The first `n` segments, each parsed as one Statement.
#[verifier::spinoff_prover]
pub fn parse_stmts_in(segs: &Vec<Vec<TokenNode>>, n: usize, diags: &mut Vec<Diagnostic>) -> (r: Result<Vec<Node<Statement>>, ParseError>)
    requires
        n <= segs.len(),
    ensures
        lift_one(r, |v: Vec<Node<Statement>>| stmt_nodes_view(v@)) == grammar::stmts_in(segs@, n as int).0,
        final(diags)@ == old(diags)@ + grammar::stmts_in(segs@, n as int).1,
    decreases segs@, n, 0int,
{
    proof {
        reveal_with_fuel(grammar::stmts_in, 1);
    }
    if n == 0 {
        return Ok(Vec::new());
    }
    match parse_stmts_in(segs, n - 1, diags) {
        Err(e) => Err(e),
        Ok(v) => match parse_statement_seg(&segs[n - 1], diags) {
            Err(e) => Err(e),
            Ok(x) => {
                let mut v = v;
                let ghost before = v@;
                v.push(x);
                assert(v@.drop_last() =~= before);
                Ok(v)
            },
        },
    }
}

/// A list token at `p` whose segments each hold one Statement.
#[verifier::spinoff_prover]
pub fn parse_stmts_at(ts: &Vec<TokenNode>, p: usize, open: Option<char>, diags: &mut Vec<Diagnostic>) -> (r: Result<(ParsedVec<Statement>, usize), ParseError>)
    ensures
        lift(r, |v: ParsedVec<Statement>| stmt_list_view(v)) == grammar::stmts_at(ts@, p as int, open).0,
        final(diags)@ == old(diags)@ + grammar::stmts_at(ts@, p as int, open).1,
        r matches Ok((_, q)) ==> q == p + 1 && p < ts.len(),
    decreases ts@, ts@.len() + 3 - p, 0int,
{
    proof {
        reveal_with_fuel(grammar::stmts_at, 1);
    }
    if p >= ts.len() || !fits(&ts[p], open) {
        return Err(list_error_at(ts, p, open));
    }
    match &ts[p].token {
        Token::List { segments, .. } => match parse_stmts_in(segments, segments.len(), diags) {
            Err(e) => Err(e),
            Ok(v) => Ok((Node { value: v, range: ts[p].range }, p + 1)),
        },
        _ => Err(list_error_at(ts, p, open)),
    }
}

} // verus!
