//! The parser's entry points, one per syntactic category. Each reads from
//! position `p` of a segment and gives the parsed value with the position
//! after it; diagnostics are appended to `diags`.
use vstd::prelude::*;
use crate::ast::{
    ArithmeticOp, Assignment, BindingPattern, CompareOp, Declaration, Expression, Module,
    ParameterDeclaration, RecordElement, Statement, Type, UnaryOp,
};
use crate::error::{Diagnostic, Expected, ParseError};
use crate::grammar;
use crate::parse_decl::{parse_declaration, parse_decls_in};
use crate::parse_expr::{parse_assignment, parse_expression, parse_record_element};
use crate::parse_stmt::parse_statement;
use crate::parser::{
    compare_op_at, lift, lift_one, parse_parameter, parse_pattern, parse_type_expr, product_op_at,
    sum_op_at, unary_op_at,
};
use crate::token::TokenNode;
use crate::view::{
    assign_view, decl_nodes_view, decl_view, expr_view, param_view, pat_view, rec_view, stmt_view,
    ty_view,
};

verus! {

impl Module {
    /// Parses each segment of `body` as one declaration, in order. The first
    /// declaration that fails aborts the whole module.
    pub fn parse(body: &Vec<Vec<TokenNode>>, diags: &mut Vec<Diagnostic>) -> (r: Result<Module, ParseError>)
        ensures
            lift_one(r, |m: Module| m@) == grammar::module(body@).0,
            final(diags)@ == old(diags)@ + grammar::module(body@).1,
    {
        proof {
            reveal_with_fuel(grammar::decls_in, 1);
        }
        match parse_decls_in(body, body.len(), diags) {
            Err(e) => Err(e),
            Ok(declarations) => Ok(Module { declarations }),
        }
    }
}

impl Declaration {
    /// One declaration, chosen by the keyword at `p`.
    pub fn parse(ts: &Vec<TokenNode>, p: usize, diags: &mut Vec<Diagnostic>) -> (r: Result<(Declaration, usize), ParseError>)
        ensures
            lift(r, |d: Declaration| decl_view(d)) == grammar::declaration(ts@, p as int).0,
            final(diags)@ == old(diags)@ + grammar::declaration(ts@, p as int).1,
            r matches Ok((_, q)) ==> p < q <= ts.len(),
    {
        parse_declaration(ts, p, diags)
    }
}

impl Expression {
    /// One expression.
    pub fn parse(ts: &Vec<TokenNode>, p: usize, diags: &mut Vec<Diagnostic>) -> (r: Result<(Expression, usize), ParseError>)
        ensures
            lift(r, |e: Expression| expr_view(e)) == grammar::expression(ts@, p as int).0,
            final(diags)@ == old(diags)@ + grammar::expression(ts@, p as int).1,
            r matches Ok((_, q)) ==> p < q <= ts.len(),
    {
        parse_expression(ts, p, diags)
    }
}

impl Statement {
    /// One statement.
    pub fn parse(ts: &Vec<TokenNode>, p: usize, diags: &mut Vec<Diagnostic>) -> (r: Result<(Statement, usize), ParseError>)
        ensures
            lift(r, |s: Statement| stmt_view(s)) == grammar::statement(ts@, p as int).0,
            final(diags)@ == old(diags)@ + grammar::statement(ts@, p as int).1,
            r matches Ok((_, q)) ==> p < q <= ts.len(),
    {
        parse_statement(ts, p, diags)
    }
}

impl Assignment {
    /// `name = value`.
    pub fn parse(ts: &Vec<TokenNode>, p: usize, diags: &mut Vec<Diagnostic>) -> (r: Result<(Assignment, usize), ParseError>)
        ensures
            lift(r, |a: Assignment| assign_view(a)) == grammar::assignment(ts@, p as int).0,
            final(diags)@ == old(diags)@ + grammar::assignment(ts@, p as int).1,
            r matches Ok((_, q)) ==> p < q <= ts.len(),
    {
        parse_assignment(ts, p, diags)
    }
}

impl RecordElement {
    /// `key: value`, a bare name, or `...value`.
    pub fn parse(ts: &Vec<TokenNode>, p: usize, diags: &mut Vec<Diagnostic>) -> (r: Result<(RecordElement, usize), ParseError>)
        ensures
            lift(r, |x: RecordElement| rec_view(x)) == grammar::record_element(ts@, p as int).0,
            final(diags)@ == old(diags)@ + grammar::record_element(ts@, p as int).1,
            r matches Ok((_, q)) ==> p < q <= ts.len(),
    {
        parse_record_element(ts, p, diags)
    }
}

impl ParameterDeclaration {
    /// A parameter name with an optional type constraint.
    pub fn parse(ts: &Vec<TokenNode>, p: usize) -> (r: Result<(ParameterDeclaration, usize), ParseError>)
        ensures
            lift(r, |x: ParameterDeclaration| param_view(x)) == grammar::parameter(ts@, p as int),
            r matches Ok((_, q)) ==> p < q <= ts.len(),
    {
        parse_parameter(ts, p)
    }
}

impl Type {
    /// A type expression.
    pub fn parse(ts: &Vec<TokenNode>, p: usize) -> (r: Result<(Type, usize), ParseError>)
        ensures
            lift(r, |t: Type| ty_view(t)) == grammar::type_expr(ts@, p as int),
            r matches Ok((_, q)) ==> p < q <= ts.len(),
    {
        parse_type_expr(ts, p)
    }
}

impl BindingPattern {
    /// A destructuring pattern.
    pub fn parse(ts: &Vec<TokenNode>, p: usize) -> (r: Result<(BindingPattern, usize), ParseError>)
        ensures
            lift(r, |b: BindingPattern| pat_view(b)) == grammar::pattern(ts@, p as int),
            r matches Ok((_, q)) ==> p < q <= ts.len(),
    {
        parse_pattern(ts, p)
    }
}

fn operator_error(ts: &Vec<TokenNode>, p: usize) -> (r: ParseError)
    ensures
        r == (if p >= ts.len() { ParseError::EndOfSegment } else { ParseError::WrongToken { expected: Expected::Operator } }),
{
    if p >= ts.len() {
        ParseError::EndOfSegment
    } else {
        ParseError::WrongToken { expected: Expected::Operator }
    }
}

impl CompareOp {
    /// One of `==`, `!=`, `<=`, `>=`, `<`, `>`.
    pub fn parse(ts: &Vec<TokenNode>, p: usize) -> (r: Result<(CompareOp, usize), ParseError>)
        ensures
            lift(r, |o: CompareOp| o) == grammar::operator(ts@, p as int, grammar::compare_at(ts@, p as int)),
    {
        match compare_op_at(ts, p) {
            Some(op) => Ok((op, p + 1)),
            None => Err(operator_error(ts, p)),
        }
    }
}

impl ArithmeticOp {
    /// One of `+`, `-`, `*`, `/`, `%`.
    pub fn parse(ts: &Vec<TokenNode>, p: usize) -> (r: Result<(ArithmeticOp, usize), ParseError>)
        ensures
            lift(r, |o: ArithmeticOp| o) == grammar::operator(
                ts@,
                p as int,
                if grammar::sum_at(ts@, p as int) is Some { grammar::sum_at(ts@, p as int) } else { grammar::product_at(ts@, p as int) },
            ),
    {
        match sum_op_at(ts, p) {
            Some(op) => Ok((op, p + 1)),
            None => match product_op_at(ts, p) {
                Some(op) => Ok((op, p + 1)),
                None => Err(operator_error(ts, p)),
            },
        }
    }
}

impl UnaryOp {
    /// `!` or `-`.
    pub fn parse(ts: &Vec<TokenNode>, p: usize) -> (r: Result<(UnaryOp, usize), ParseError>)
        ensures
            lift(r, |o: UnaryOp| o) == grammar::operator(ts@, p as int, grammar::unary_at(ts@, p as int)),
    {
        match unary_op_at(ts, p) {
            Some(op) => Ok((op, p + 1)),
            None => Err(operator_error(ts, p)),
        }
    }
}

} // verus!
