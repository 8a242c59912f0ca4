//! Executable parsing of declarations and modules.
use vstd::prelude::*;
use crate::ast::{
    ArithmeticOp, Assignment, BindingPattern, CompareOp, Declaration, Expression, GenericParameter,
    InterfaceField, Module, Node, ParameterDeclaration, ParsedVec, RecordBindingElement,
    RecordElement, Statement, Type, TypeConstraint, UnaryOp, Verbatim,
};
use crate::error::{
    Diagnostic, DiagnosticKind, DiagnosticPhase, DiagnosticSeverity, Expected, ParseError, Word,
};
use crate::grammar;
use crate::grammar::DeclarationKeyword;
use crate::parse_expr::{parse_expression, parse_recs_at};
use crate::parser::{lift, lift_one, parse_keyword, parse_opt_generics, parse_opt_type_constraint, parse_params_at, parse_pattern, parse_fields_at, parse_sigil, parse_symbol, parse_type_expr, span_of};
use crate::token::{SourceRange, Token, TokenNode, list_is, sigil_is, symbol_is, text_is};
use crate::view::{
    assign_list_view, assign_node_view, assign_nodes_view, assign_view, bind_list_view,
    bind_node_view, bind_nodes_view, bind_view, decl_node_view, decl_nodes_view, decl_view,
    expr_list_view, expr_node_view, expr_nodes_view, expr_view, field_list_view, field_node_view,
    field_nodes_view, field_view, gp_list_view, gp_node_view, gp_nodes_view, gp_view,
    opt_gp_view, opt_tc_view, param_list_view, param_node_view, param_nodes_view, param_view,
    pat_list_view, pat_node_view, pat_nodes_view, pat_view, rec_list_view, rec_node_view,
    rec_nodes_view, rec_view, stmt_list_view, stmt_node_view, stmt_nodes_view, stmt_view, tc_view,
    ty_list_view, ty_node_view, ty_nodes_view, ty_view, lemma_expr_nodes_view, lemma_pat_nodes_view,
};

verus! {

broadcast use crate::grammar::lemma_concat_assoc, crate::grammar::lemma_concat_empty, crate::grammar::lemma_concat_push;

// ---------------------------------------------------------------- declarations

/// A parenthesised list that holds one string literal and nothing else.
#[verifier::spinoff_prover]
fn parse_module_specifier(ts: &Vec<TokenNode>, p: usize) -> (r: Result<(Node<String>, usize), ParseError>)
    ensures
        lift(r, |v: Node<String>| v) == grammar::module_specifier(ts@, p as int),
        r matches Ok((_, q)) ==> q == p + 1 && p < ts.len(),
{
    if p >= ts.len() {
        return Err(ParseError::EndOfSegment);
    }
    if !list_is(&ts[p], '(') {
        return Err(ParseError::WrongToken { expected: Expected::List(Some('(')) });
    }
    let segments = match &ts[p].token {
        Token::List { segments, .. } => segments,
        _ => return Err(ParseError::WrongToken { expected: Expected::List(Some('(')) }),
    };
    if segments.len() != 1 {
        return Err(ParseError::WrongToken { expected: Expected::SingleElement });
    }
    let seg = &segments[0];
    if seg.len() == 0 {
        return Err(ParseError::EndOfSegment);
    }
    match &seg[0].token {
        Token::Str(s) => if seg.len() == 1 {
            Ok((Node { value: s.clone(), range: seg[0].range }, p + 1))
        } else {
            Err(ParseError::WrongToken { expected: Expected::EndOfSegment })
        },
        _ => Err(ParseError::WrongToken { expected: Expected::StringLiteral }),
    }
}

/// The rest of a `main` declaration, whose keyword `kw` stands at `p`.
#[verifier::spinoff_prover]
fn parse_main_declaration(ts: &Vec<TokenNode>, p: usize, kw: Verbatim, diags: &mut Vec<Diagnostic>) -> (r: Result<(Declaration, usize), ParseError>)
    requires
        p < ts.len(),
    ensures
        lift(r, |d: Declaration| decl_view(d)) == grammar::main_declaration(ts@, p as int, kw).0,
        final(diags)@ == old(diags)@ + grammar::main_declaration(ts@, p as int, kw).1,
        r matches Ok((_, q)) ==> p < q <= ts.len(),
    decreases ts@, ts@.len() + 3 - p, 29int,
{
    proof {
        reveal_with_fuel(grammar::main_declaration, 1);
    }
    match parse_expression(ts, p + 1, diags) {
        Err(e) => Err(e),
        Ok((b, q)) => Ok((
            Declaration::Main { main_keyword: kw, body: Box::new(Node { value: b, range: span_of(ts, p + 1, q) }) },
            q,
        )),
    }

}

/// The rest of a `const` declaration, whose keyword `kw` stands at `p`.
#[verifier::spinoff_prover]
fn parse_const_declaration(ts: &Vec<TokenNode>, p: usize, kw: Verbatim, diags: &mut Vec<Diagnostic>) -> (r: Result<(Declaration, usize), ParseError>)
    requires
        p < ts.len(),
    ensures
        lift(r, |d: Declaration| decl_view(d)) == grammar::const_declaration(ts@, p as int, kw).0,
        final(diags)@ == old(diags)@ + grammar::const_declaration(ts@, p as int, kw).1,
        r matches Ok((_, q)) ==> p < q <= ts.len(),
    decreases ts@, ts@.len() + 3 - p, 29int,
{
    proof {
        reveal_with_fuel(grammar::const_declaration, 1);
    }
    let ident = match parse_symbol(ts, p + 1) {
        Err(e) => return Err(e),
        Ok((i, _)) => i,
    };
    let (ty, q1) = parse_opt_type_constraint(ts, p + 2);
    let eq = match parse_sigil(ts, q1, Word::Equals) {
        Err(e) => return Err(e),
        Ok((t, _)) => t,
    };
    match parse_expression(ts, q1 + 1, diags) {
        Err(e) => Err(e),
        Ok((v, q)) => Ok((
            Declaration::Const {
                const_keyword: kw,
                identifier: ident,
                type_: ty,
                equals_token: eq,
                value: Box::new(Node { value: v, range: span_of(ts, q1 + 1, q) }),
            },
            q,
        )),
    }

}

/// The rest of a `fn` declaration, whose keyword `kw` stands at `p`.
#[verifier::spinoff_prover]
fn parse_function_declaration(ts: &Vec<TokenNode>, p: usize, kw: Verbatim, diags: &mut Vec<Diagnostic>) -> (r: Result<(Declaration, usize), ParseError>)
    requires
        p < ts.len(),
    ensures
        lift(r, |d: Declaration| decl_view(d)) == grammar::function_declaration(ts@, p as int, kw).0,
        final(diags)@ == old(diags)@ + grammar::function_declaration(ts@, p as int, kw).1,
        r matches Ok((_, q)) ==> p < q <= ts.len(),
    decreases ts@, ts@.len() + 3 - p, 29int,
{
    proof {
        reveal_with_fuel(grammar::function_declaration, 1);
    }
    let ident = match parse_symbol(ts, p + 1) {
        Err(e) => return Err(e),
        Ok((i, _)) => i,
    };
    let (generics, q1) = parse_opt_generics(ts, p + 2);
    let (params, q2) = match parse_params_at(ts, q1, Some('(')) {
        Err(e) => return Err(e),
        Ok(x) => x,
    };
    let (constraint, q3) = parse_opt_type_constraint(ts, q2);
    let arrow = match parse_sigil(ts, q3, Word::Arrow) {
        Err(e) => return Err(e),
        Ok((a, _)) => a,
    };
    match parse_expression(ts, q3 + 1, diags) {
        Err(e) => Err(e),
        Ok((b, q)) => Ok((
            Declaration::Function {
                function_keyword: kw,
                identifier: ident,
                generic_parameters: generics,
                parameters: params,
                constraint,
                arrow_token: arrow,
                body: Box::new(Node { value: b, range: span_of(ts, q3 + 1, q) }),
            },
            q,
        )),
    }

}

/// The rest of an `import` declaration, whose keyword `kw` stands at `p`.
#[verifier::spinoff_prover]
fn parse_import_declaration(ts: &Vec<TokenNode>, p: usize, kw: Verbatim, diags: &mut Vec<Diagnostic>) -> (r: Result<(Declaration, usize), ParseError>)
    requires
        p < ts.len(),
    ensures
        lift(r, |d: Declaration| decl_view(d)) == grammar::import_declaration(ts@, p as int, kw).0,
        final(diags)@ == old(diags)@ + grammar::import_declaration(ts@, p as int, kw).1,
        r matches Ok((_, q)) ==> p < q <= ts.len(),
    decreases ts@, ts@.len() + 3 - p, 29int,
{
    proof {
        reveal_with_fuel(grammar::import_declaration, 1);
    }
    let (pt, q1) = match parse_pattern(ts, p + 1) {
        Err(e) => return Err(e),
        Ok(x) => x,
    };
    let eq = match parse_sigil(ts, q1, Word::Equals) {
        Err(e) => return Err(e),
        Ok((t, _)) => t,
    };
    let use_kw = match parse_keyword(ts, q1 + 1, Word::Use) {
        Err(e) => return Err(e),
        Ok((k, _)) => k,
    };
    match parse_module_specifier(ts, q1 + 2) {
        Err(e) => Err(e),
        Ok((spec, q)) => Ok((
            Declaration::Import {
                import_keyword: kw,
                pattern: Node { value: pt, range: span_of(ts, p + 1, q1) },
                equal_token: eq,
                use_keyword: use_kw,
                module_specifier: spec,
            },
            q,
        )),
    }

}

/// The rest of an `export` declaration, whose keyword `kw` stands at `p`.
#[verifier::spinoff_prover]
fn parse_export_declaration(ts: &Vec<TokenNode>, p: usize, kw: Verbatim, diags: &mut Vec<Diagnostic>) -> (r: Result<(Declaration, usize), ParseError>)
    requires
        p < ts.len(),
    ensures
        lift(r, |d: Declaration| decl_view(d)) == grammar::export_declaration(ts@, p as int, kw).0,
        final(diags)@ == old(diags)@ + grammar::export_declaration(ts@, p as int, kw).1,
        r matches Ok((_, q)) ==> p < q <= ts.len(),
    decreases ts@, ts@.len() + 3 - p, 29int,
{
    proof {
        reveal_with_fuel(grammar::export_declaration, 1);
    }
    match parse_recs_at(ts, p + 1, Some('{'), diags) {
        Err(e) => Err(e),
        Ok((elements, q)) => Ok((Declaration::Export { export_keyword: kw, elements }, q)),
    }

}

/// The rest of a `type` declaration, whose keyword `kw` stands at `p`.
#[verifier::spinoff_prover]
fn parse_type_alias_declaration(ts: &Vec<TokenNode>, p: usize, kw: Verbatim, diags: &mut Vec<Diagnostic>) -> (r: Result<(Declaration, usize), ParseError>)
    requires
        p < ts.len(),
    ensures
        lift(r, |d: Declaration| decl_view(d)) == grammar::type_alias_declaration(ts@, p as int, kw).0,
        final(diags)@ == old(diags)@ + grammar::type_alias_declaration(ts@, p as int, kw).1,
        r matches Ok((_, q)) ==> p < q <= ts.len(),
    decreases ts@, ts@.len() + 3 - p, 29int,
{
    proof {
        reveal_with_fuel(grammar::type_alias_declaration, 1);
    }
    let name = match parse_symbol(ts, p + 1) {
        Err(e) => return Err(e),
        Ok((n, _)) => n,
    };
    let (generics, q1) = parse_opt_generics(ts, p + 2);
    let eq = match parse_sigil(ts, q1, Word::Equals) {
        Err(e) => return Err(e),
        Ok((t, _)) => t,
    };
    match parse_type_expr(ts, q1 + 1) {
        Err(e) => Err(e),
        Ok((t, q)) => Ok((
            Declaration::TypeAlias {
                type_keyword: kw,
                name,
                generic_parameters: generics,
                equals_token: eq,
                value: Node { value: t, range: span_of(ts, q1 + 1, q) },
            },
            q,
        )),
    }

}

/// The rest of an `interface` declaration, whose keyword `kw` stands at `p`.
#[verifier::spinoff_prover]
fn parse_interface_declaration(ts: &Vec<TokenNode>, p: usize, kw: Verbatim, diags: &mut Vec<Diagnostic>) -> (r: Result<(Declaration, usize), ParseError>)
    requires
        p < ts.len(),
    ensures
        lift(r, |d: Declaration| decl_view(d)) == grammar::interface_declaration(ts@, p as int, kw).0,
        final(diags)@ == old(diags)@ + grammar::interface_declaration(ts@, p as int, kw).1,
        r matches Ok((_, q)) ==> p < q <= ts.len(),
    decreases ts@, ts@.len() + 3 - p, 29int,
{
    proof {
        reveal_with_fuel(grammar::interface_declaration, 1);
    }
    let name = match parse_symbol(ts, p + 1) {
        Err(e) => return Err(e),
        Ok((n, _)) => n,
    };
    let (generics, q1) = parse_opt_generics(ts, p + 2);
    let (constraint, q2) = parse_opt_type_constraint(ts, q1);
    match parse_fields_at(ts, q2, Some('{')) {
        Err(e) => Err(e),
        Ok((body, q)) => Ok((
            Declaration::Interface { interface_keyword: kw, name, generic_parameters: generics, constraint, body },
            q,
        )),
    }

}

/// The declaration keyword that `s` holds, if any.
pub fn declaration_keyword(s: &String) -> (r: Option<DeclarationKeyword>)
    ensures
        r == grammar::declaration_keyword(s@),
{
    if text_is(s, "main") {
        Some(DeclarationKeyword::Main)
    } else if text_is(s, "const") {
        Some(DeclarationKeyword::Const)
    } else if text_is(s, "fn") {
        Some(DeclarationKeyword::Function)
    } else if text_is(s, "import") {
        Some(DeclarationKeyword::Import)
    } else if text_is(s, "export") {
        Some(DeclarationKeyword::Export)
    } else if text_is(s, "type") {
        Some(DeclarationKeyword::TypeAlias)
    } else if text_is(s, "interface") {
        Some(DeclarationKeyword::Interface)
    } else {
        None
    }
}

/// One declaration, chosen by its leading keyword.
#[verifier::spinoff_prover]
pub fn parse_declaration(ts: &Vec<TokenNode>, p: usize, diags: &mut Vec<Diagnostic>) -> (r: Result<(Declaration, usize), ParseError>)
    ensures
        lift(r, |d: Declaration| decl_view(d)) == grammar::declaration(ts@, p as int).0,
        final(diags)@ == old(diags)@ + grammar::declaration(ts@, p as int).1,
        r matches Ok((_, q)) ==> p < q <= ts.len(),
    decreases ts@, ts@.len() + 3 - p, 30int,
{
    proof {
        reveal_with_fuel(grammar::declaration, 1);
    }
    let kw = match parse_symbol(ts, p) {
        Err(e) => return Err(e),
        Ok((kw, _)) => kw,
    };
    let k = declaration_keyword(&kw.value);
    if k == Some(DeclarationKeyword::Main) {
        parse_main_declaration(ts, p, kw, diags)
    } else if k == Some(DeclarationKeyword::Const) {
        parse_const_declaration(ts, p, kw, diags)
    } else if k == Some(DeclarationKeyword::Function) {
        parse_function_declaration(ts, p, kw, diags)
    } else if k == Some(DeclarationKeyword::Import) {
        parse_import_declaration(ts, p, kw, diags)
    } else if k == Some(DeclarationKeyword::Export) {
        parse_export_declaration(ts, p, kw, diags)
    } else if k == Some(DeclarationKeyword::TypeAlias) {
        parse_type_alias_declaration(ts, p, kw, diags)
    } else if k == Some(DeclarationKeyword::Interface) {
        parse_interface_declaration(ts, p, kw, diags)
    } else {
        diags.push(
            Diagnostic {
                severity: DiagnosticSeverity::Error,
                phase: DiagnosticPhase::Parse,
                range: kw.range,
                kind: DiagnosticKind::UnknownGlobal { keyword: kw.value.clone() },
                note: None,
                subject: None,
                inner_diagnostics: None,
            },
        );
        Err(ParseError::WrongTokenContents { expected: Expected::Declaration, found: kw.value })
    }
}

/// A whole segment parsed as one Declaration.
#[verifier::spinoff_prover]
pub fn parse_declaration_seg(ts: &Vec<TokenNode>, diags: &mut Vec<Diagnostic>) -> (r: Result<Node<Declaration>, ParseError>)
    ensures
        lift_one(r, |n: Node<Declaration>| decl_node_view(n)) == grammar::declaration_seg(ts@).0,
        final(diags)@ == old(diags)@ + grammar::declaration_seg(ts@).1,
    decreases ts@, ts@.len() + 4, 0int,
{
    proof {
        reveal_with_fuel(grammar::declaration_seg, 1);
    }
    match parse_declaration(ts, 0, diags) {
        Err(e) => Err(e),
        Ok((x, q)) => if q == ts.len() {
            Ok(Node { value: x, range: span_of(ts, 0, q) })
        } else {
            Err(ParseError::WrongToken { expected: Expected::EndOfSegment })
        },
    }
}

/// The first `n` segments, each parsed as one Declaration.
#[verifier::spinoff_prover]
pub fn parse_decls_in(segs: &Vec<Vec<TokenNode>>, n: usize, diags: &mut Vec<Diagnostic>) -> (r: Result<Vec<Node<Declaration>>, ParseError>)
    requires
        n <= segs.len(),
    ensures
        lift_one(r, |v: Vec<Node<Declaration>>| decl_nodes_view(v@)) == grammar::decls_in(segs@, n as int).0,
        final(diags)@ == old(diags)@ + grammar::decls_in(segs@, n as int).1,
    decreases segs@, n, 0int,
{
    proof {
        reveal_with_fuel(grammar::decls_in, 1);
    }
    if n == 0 {
        return Ok(Vec::new());
    }
    match parse_decls_in(segs, n - 1, diags) {
        Err(e) => Err(e),
        Ok(v) => match parse_declaration_seg(&segs[n - 1], diags) {
            Err(e) => Err(e),
            Ok(x) => {
                let mut v = v;
                let ghost before = v@;
                v.push(x);
                assert(v@.drop_last() =~= before);
                Ok(v)
            },
        },
    }
}

} // verus!
