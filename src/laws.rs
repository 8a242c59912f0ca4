//! Properties of the grammar that hold for every input.
use vstd::prelude::*;
use crate::ast::Node;
use crate::grammar;
use crate::error::{ParseError, Word};
use crate::model::{Declaration, GenericParameter, ParsedSeq, TypeConstraint, Verbatim};
use crate::token::{is_list, is_symbol};
use crate::token::TokenNode;

verus! {

/// A type constraint that cannot be read leaves the position where it was:
/// the optional constraint is then absent and nothing is consumed.
pub proof fn lemma_failed_constraint_consumes_nothing(ts: Seq<TokenNode>, p: int)
    requires
        grammar::type_constraint(ts, p) is Err,
    ensures
        grammar::opt_type_constraint(ts, p) == (None::<Node<TypeConstraint>>, p),
{
    reveal_with_fuel(grammar::opt_type_constraint, 1);
}

/// A generic-parameter list that cannot be read leaves the position where
/// it was: the optional list is then absent and nothing is consumed.
pub proof fn lemma_failed_generics_consume_nothing(ts: Seq<TokenNode>, p: int)
    requires
        grammar::gps_at(ts, p, Some('[')) is Err,
    ensures
        grammar::opt_generics(ts, p) == (None::<ParsedSeq<GenericParameter>>, p),
{
    reveal_with_fuel(grammar::opt_generics, 1);
}

/// Parentheses around a single expression are transparent: a `(...)` group
/// with one segment parses to exactly the expression that the segment holds,
/// with no tuple around it, and raises the same diagnostics.
#[verifier::spinoff_prover]
pub proof fn lemma_single_parenthesised_expression(ts: Seq<TokenNode>, p: int)
    requires
        0 <= p < ts.len(),
        is_list(ts[p], '('),
        grammar::segments_of(ts[p]).len() == 1,
        grammar::expression_seg(grammar::segments_of(ts[p])[0]@).0 is Ok,
    ensures
        ({
            let inner = grammar::expression_seg(grammar::segments_of(ts[p])[0]@);
            grammar::group(ts, p) == (Ok::<_, crate::error::ParseError>((inner.0->Ok_0.value, p + 1)), inner.1)
        }),
{
    reveal_with_fuel(grammar::group, 1);
    reveal_with_fuel(grammar::exprs_in, 2);
    let segs = grammar::segments_of(ts[p]);
    let inner = grammar::expression_seg(segs[0]@);
    assert(grammar::exprs_in(segs, 0) == (
        Ok::<Seq<crate::ast::Node<crate::model::Expression>>, crate::error::ParseError>(Seq::empty()),
        Seq::<crate::error::Diagnostic>::empty(),
    ));
    assert(grammar::exprs_in(segs, 1) == (
        Ok::<_, crate::error::ParseError>(Seq::<crate::ast::Node<crate::model::Expression>>::empty().push(inner.0->Ok_0)),
        Seq::<crate::error::Diagnostic>::empty() + inner.1,
    ));
    assert(Seq::<crate::error::Diagnostic>::empty() + grammar::expression_seg(segs[0]@).1 =~= grammar::expression_seg(segs[0]@).1);
    assert(Seq::<crate::ast::Node<crate::model::Expression>>::empty().push(grammar::expression_seg(segs[0]@).0->Ok_0)[0]
        == grammar::expression_seg(segs[0]@).0->Ok_0);
}

/// Parentheses around one expression are transparent for the whole
/// expression grammar: a segment that holds only `(e)` parses to the same
/// tree as the segment `e` on its own, never to a one-member tuple, and
/// raises the same diagnostics. Only the root's range differs: it is the
/// range of the parenthesised group.
pub proof fn lemma_parenthesised_expression_is_transparent(paren: TokenNode)
    requires
        is_list(paren, '('),
        grammar::segments_of(paren).len() == 1,
        grammar::expression_seg(grammar::segments_of(paren)[0]@).0 is Ok,
    ensures
        ({
            let inner = grammar::expression_seg(grammar::segments_of(paren)[0]@);
            let outer = grammar::expression_seg(seq![paren]);
            &&& outer.0 == Ok::<_, crate::error::ParseError>(
                crate::ast::Node { value: inner.0->Ok_0.value, range: paren.range },
            )
            &&& outer.1 == inner.1
        }),
{
    let ts = seq![paren];
    lemma_single_parenthesised_expression(ts, 0);
    reveal_with_fuel(grammar::expression_seg, 1);
    reveal_with_fuel(grammar::expression, 1);
    reveal_with_fuel(grammar::compare, 1);
    reveal_with_fuel(grammar::arith, 1);
    reveal_with_fuel(grammar::term, 1);
    reveal_with_fuel(grammar::unary, 1);
    reveal_with_fuel(grammar::field_access, 1);
    reveal_with_fuel(grammar::postfix, 1);
    reveal_with_fuel(grammar::postfix_rest, 1);
    reveal_with_fuel(grammar::element, 1);
    let inner = grammar::expression_seg(grammar::segments_of(paren)[0]@);
    let g = grammar::group(ts, 0);
    assert(g.0 == Ok::<_, crate::error::ParseError>((inner.0->Ok_0.value, 1int)));
    assert(grammar::element(ts, 0) == g);
    assert(grammar::postfix_rest(ts, 0, crate::ast::Node { value: inner.0->Ok_0.value, range: grammar::span(ts, 0, 1) }, 1).1
        =~= Seq::<crate::error::Diagnostic>::empty());
    assert(grammar::postfix(ts, 0).1 =~= inner.1);
    assert(grammar::postfix(ts, 0).0 == Ok::<_, crate::error::ParseError>((inner.0->Ok_0.value, 1int)));
    assert(grammar::field_access(ts, 0) == grammar::postfix(ts, 0));
    assert(!is_symbol(paren, "fn"@) && !is_symbol(paren, "with"@) && !is_symbol(paren, "if"@));
    assert(grammar::unary(ts, 0) == grammar::field_access(ts, 0));
    assert(grammar::term(ts, 0) == grammar::unary(ts, 0));
    assert(grammar::arith(ts, 0) == grammar::term(ts, 0));
    assert(grammar::compare(ts, 0) == grammar::arith(ts, 0));
    assert(grammar::expression(ts, 0) == grammar::compare(ts, 0));
    assert(grammar::span(ts, 0, 1) == paren.range);
}

/// In a `const` declaration a type constraint that cannot be read is simply
/// absent: the `=` is then read where the constraint would have started, the
/// declaration fails only if that `=` or the value fails, and it succeeds
/// whenever both do.
pub proof fn lemma_const_without_constraint(ts: Seq<TokenNode>, p: int, kw: Verbatim)
    requires
        0 <= p,
        grammar::symbol(ts, p + 1) is Ok,
        grammar::type_constraint(ts, p + 2) is Err,
    ensures
        grammar::const_declaration(ts, p, kw).0 matches Ok((d, _)) ==> d matches Declaration::Const { type_: None, .. },
        grammar::sigil(ts, p + 2, Word::Equals) is Err ==> grammar::const_declaration(ts, p, kw).0
            == Err::<(Declaration, int), ParseError>(grammar::sigil(ts, p + 2, Word::Equals)->Err_0),
        grammar::sigil(ts, p + 2, Word::Equals) is Ok && grammar::expression(ts, p + 3).0 is Ok
            ==> grammar::const_declaration(ts, p, kw).0 is Ok,
{
    reveal_with_fuel(grammar::const_declaration, 1);
    lemma_failed_constraint_consumes_nothing(ts, p + 2);
}

/// In a `fn` declaration a generic-parameter list that cannot be read is
/// simply absent: the parameter list is then read where the generics would
/// have started, and the declaration fails if that list fails. With no
/// return constraint, the declaration succeeds whenever the parameters, the
/// arrow and the body do.
pub proof fn lemma_function_without_generics(ts: Seq<TokenNode>, p: int, kw: Verbatim)
    requires
        0 <= p,
        grammar::symbol(ts, p + 1) is Ok,
        grammar::gps_at(ts, p + 2, Some('[')) is Err,
    ensures
        grammar::function_declaration(ts, p, kw).0 matches Ok((d, _)) ==> d matches Declaration::Function {
            generic_parameters: None,
            ..
        },
        grammar::params_at(ts, p + 2, Some('(')) is Err ==> grammar::function_declaration(ts, p, kw).0
            == Err::<(Declaration, int), ParseError>(grammar::params_at(ts, p + 2, Some('('))->Err_0),
        grammar::params_at(ts, p + 2, Some('(')) is Ok && grammar::opt_type_constraint(ts, p + 3).0 is None
            && grammar::sigil(ts, p + 3, Word::Arrow) is Ok && grammar::expression(ts, p + 4).0 is Ok
            ==> grammar::function_declaration(ts, p, kw).0 is Ok,
{
    reveal_with_fuel(grammar::function_declaration, 1);
    reveal_with_fuel(grammar::params_at, 1);
    reveal_with_fuel(grammar::opt_type_constraint, 1);
    lemma_failed_generics_consume_nothing(ts, p + 2);
}

/// In a `type` declaration a generic-parameter list that cannot be read is
/// simply absent: the `=` is then read where the list would have started.
pub proof fn lemma_type_alias_without_generics(ts: Seq<TokenNode>, p: int, kw: Verbatim)
    requires
        0 <= p,
        grammar::symbol(ts, p + 1) is Ok,
        grammar::gps_at(ts, p + 2, Some('[')) is Err,
    ensures
        grammar::type_alias_declaration(ts, p, kw).0 matches Ok((d, _)) ==> d matches Declaration::TypeAlias {
            generic_parameters: None,
            ..
        },
        grammar::sigil(ts, p + 2, Word::Equals) is Err ==> grammar::type_alias_declaration(ts, p, kw).0
            == Err::<(Declaration, int), ParseError>(grammar::sigil(ts, p + 2, Word::Equals)->Err_0),
        grammar::sigil(ts, p + 2, Word::Equals) is Ok && grammar::type_expr(ts, p + 3) is Ok
            ==> grammar::type_alias_declaration(ts, p, kw).0 is Ok,
{
    reveal_with_fuel(grammar::type_alias_declaration, 1);
    lemma_failed_generics_consume_nothing(ts, p + 2);
}

/// In an `interface` declaration with neither generic parameters nor a
/// supertype constraint, both failed attempts consume nothing: the body is
/// read at the position after the name, and the declaration succeeds exactly
/// when the body does.
pub proof fn lemma_interface_without_optional_parts(ts: Seq<TokenNode>, p: int, kw: Verbatim)
    requires
        0 <= p,
        grammar::symbol(ts, p + 1) is Ok,
        grammar::gps_at(ts, p + 2, Some('[')) is Err,
        grammar::type_constraint(ts, p + 2) is Err,
    ensures
        grammar::interface_declaration(ts, p, kw).0 matches Ok((d, _)) ==> d matches Declaration::Interface {
            generic_parameters: None,
            constraint: None,
            ..
        },
        grammar::interface_declaration(ts, p, kw).0 is Ok <==> grammar::fields_at(ts, p + 2, Some('{')) is Ok,
        grammar::fields_at(ts, p + 2, Some('{')) is Err ==> grammar::interface_declaration(ts, p, kw).0
            == Err::<(Declaration, int), ParseError>(grammar::fields_at(ts, p + 2, Some('{'))->Err_0),
{
    reveal_with_fuel(grammar::interface_declaration, 1);
    lemma_failed_generics_consume_nothing(ts, p + 2);
    lemma_failed_constraint_consumes_nothing(ts, p + 2);
}

} // verus!
