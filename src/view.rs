//! The views that map the executable syntax tree onto its model.
use vstd::prelude::*;
use crate::ast::{
    Assignment, BindingPattern, Declaration, Expression, GenericParameter, InterfaceField, Module, Node,
    ParameterDeclaration, ParsedVec, RecordBindingElement, RecordElement, Statement, Type,
    TypeConstraint,
};
use crate::model as m;

verus! {

pub open spec fn opt_tc_view(o: Option<Node<TypeConstraint>>) -> Option<Node<m::TypeConstraint>>
    decreases o,
{
    match o {
        Some(n) => Some(Node { value: tc_view(n.value), range: n.range }),
        None => None,
    }
}

pub open spec fn opt_gp_view(o: Option<ParsedVec<GenericParameter>>) -> Option<m::ParsedSeq<m::GenericParameter>>
    decreases o,
{
    match o {
        Some(v) => Some(gp_list_view(v)),
        None => None,
    }
}

pub open spec fn tc_view(c: TypeConstraint) -> m::TypeConstraint
    decreases c,
{
    m::TypeConstraint { colon_token: c.colon_token, type_: Box::new(ty_node_view(*c.type_)) }
}

pub open spec fn gp_view(g: GenericParameter) -> m::GenericParameter
    decreases g,
{
    m::GenericParameter { name: g.name, constraint: opt_tc_view(g.constraint) }
}

pub open spec fn param_view(g: ParameterDeclaration) -> m::ParameterDeclaration
    decreases g,
{
    m::ParameterDeclaration { name: g.name, type_: opt_tc_view(g.type_) }
}

pub open spec fn field_view(g: InterfaceField) -> m::InterfaceField
    decreases g,
{
    m::InterfaceField { name: g.name, constraint: Node { value: tc_view(g.constraint.value), range: g.constraint.range } }
}

pub open spec fn assign_view(a: Assignment) -> m::Assignment
    decreases a,
{
    m::Assignment { symbol: a.symbol, equal_token: a.equal_token, value: expr_node_view(a.value) }
}

pub open spec fn rec_view(r: RecordElement) -> m::RecordElement
    decreases r,
{
    match r {
        RecordElement::KeyValuePair { key, value } => m::RecordElement::KeyValuePair { key, value: expr_node_view(value) },
        RecordElement::Identifier { name } => m::RecordElement::Identifier { name },
        RecordElement::Spread { value } => m::RecordElement::Spread { value: expr_node_view(value) },
    }
}

pub open spec fn ty_view(t: Type) -> m::Type
    decreases t,
{
    match t {
        Type::Kind => m::Type::Kind,
        Type::Never => m::Type::Never,
        Type::Unknown => m::Type::Unknown,
        Type::Reference { name, generic_parameters } => m::Type::Reference {
            name,
            generic_parameters: match generic_parameters {
                Some(v) => Some(ty_list_view(v)),
                None => None,
            },
        },
        Type::Union { left, right } => m::Type::Union {
            left: Box::new(ty_node_view(*left)),
            right: Box::new(ty_node_view(*right)),
        },
        Type::Tuple { members } => m::Type::Tuple { members: ty_list_view(members) },
        Type::Function { fn_keyword, parameters, arrow_token, return_type } => m::Type::Function {
            fn_keyword,
            parameters: ty_list_view(parameters),
            arrow_token,
            return_type: Box::new(ty_node_view(*return_type)),
        },
    }
}

#[verifier::opaque]
pub open spec fn expr_view(e: Expression) -> m::Expression
    decreases e,
{
    match e {
        Expression::Number(s) => m::Expression::Number(s),
        Expression::String(s) => m::Expression::String(s),
        Expression::Boolean(b) => m::Expression::Boolean(b),
        Expression::Name(s) => m::Expression::Name(s),
        Expression::Hole => m::Expression::Hole,
        Expression::NoneLiteral => m::Expression::NoneLiteral,
        Expression::As { expr, as_token, type_ } => m::Expression::As {
            expr: Box::new(expr_node_view(*expr)),
            as_token,
            type_: Box::new(ty_node_view(*type_)),
        },
        Expression::Unary { operator, expression } => m::Expression::Unary {
            operator,
            expression: Box::new(expr_node_view(*expression)),
        },
        Expression::Compare { operator, left, right } => m::Expression::Compare {
            operator,
            left: Box::new(expr_node_view(*left)),
            right: Box::new(expr_node_view(*right)),
        },
        Expression::Arithmetic { operator, left, right } => m::Expression::Arithmetic {
            operator,
            left: Box::new(expr_node_view(*left)),
            right: Box::new(expr_node_view(*right)),
        },
        Expression::Accessor { accessee, index } => m::Expression::Accessor {
            accessee: Box::new(expr_node_view(*accessee)),
            index: Box::new(expr_node_view(*index)),
        },
        Expression::Function {
            fn_keyword,
            name,
            generic_parameters,
            parameters,
            constraint,
            arrow_token,
            body,
        } => m::Expression::Function {
            fn_keyword,
            name,
            generic_parameters: opt_gp_view(generic_parameters),
            parameters: param_list_view(parameters),
            constraint: opt_tc_view(constraint),
            arrow_token,
            body: Box::new(expr_node_view(*body)),
        },
        Expression::Call { callee, parameters } => m::Expression::Call {
            callee: Box::new(expr_node_view(*callee)),
            parameters: expr_list_view(parameters),
        },
        Expression::With { with_keyword, bindings, body } => m::Expression::With {
            with_keyword,
            bindings: assign_list_view(bindings),
            body: Box::new(expr_node_view(*body)),
        },
        Expression::Tuple { elements } => m::Expression::Tuple { elements: expr_list_view(elements) },
        Expression::List { elements } => m::Expression::List { elements: expr_list_view(elements) },
        Expression::Procedure { body } => m::Expression::Procedure { body: stmt_list_view(body) },
        Expression::If { if_keyword, condition, then_keyword, then, else_keyword, _else } => m::Expression::If {
            if_keyword,
            condition: Box::new(expr_node_view(*condition)),
            then_keyword,
            then: Box::new(expr_node_view(*then)),
            else_keyword,
            _else: Box::new(expr_node_view(*_else)),
        },
        Expression::Record { elements } => m::Expression::Record { elements: rec_list_view(elements) },
        Expression::FieldAccess { accessee, field } => m::Expression::FieldAccess {
            accessee: Box::new(expr_node_view(*accessee)),
            field,
        },
    }
}

#[verifier::opaque]
pub open spec fn stmt_view(s: Statement) -> m::Statement
    decreases s,
{
    match s {
        Statement::Let { let_keyword, assignment } => m::Statement::Let {
            let_keyword,
            assignment: assign_node_view(assignment),
        },
        Statement::Assign(a) => m::Statement::Assign(assign_node_view(a)),
        Statement::If { if_keyword, condition, then, _else } => m::Statement::If {
            if_keyword,
            condition: Box::new(expr_node_view(*condition)),
            then: Box::new(stmt_node_view(*then)),
            _else: match _else {
                Some(e) => Some(Box::new(stmt_node_view(*e))),
                None => None,
            },
        },
        Statement::ForIn { for_keyword, binding, in_keyword, iterator, body } => m::Statement::ForIn {
            for_keyword,
            binding,
            in_keyword,
            iterator: Box::new(expr_node_view(*iterator)),
            body: Box::new(stmt_node_view(*body)),
        },
        Statement::Forever(b) => m::Statement::Forever(Box::new(stmt_node_view(*b))),
        Statement::Do(e) => m::Statement::Do(Box::new(expr_node_view(*e))),
        Statement::Break => m::Statement::Break,
        Statement::Continue => m::Statement::Continue,
        Statement::Pass => m::Statement::Pass,
        Statement::Expression(e) => m::Statement::Expression(Box::new(expr_node_view(*e))),
    }
}

pub open spec fn pat_view(p: BindingPattern) -> m::BindingPattern
    decreases p,
{
    match p {
        BindingPattern::Identifier { name } => m::BindingPattern::Identifier { name },
        BindingPattern::Tuple { patterns } => m::BindingPattern::Tuple { patterns: pat_list_view(patterns) },
        BindingPattern::Record { elements } => m::BindingPattern::Record { elements: bind_list_view(elements) },
    }
}

pub open spec fn bind_view(b: RecordBindingElement) -> m::RecordBindingElement
    decreases b,
{
    match b {
        RecordBindingElement::Identifier { name } => m::RecordBindingElement::Identifier { name },
        RecordBindingElement::KeyValuePair { name, pattern } => m::RecordBindingElement::KeyValuePair {
            name,
            pattern: pat_node_view(pattern),
        },
        RecordBindingElement::Rest { name } => m::RecordBindingElement::Rest { name },
    }
}

pub open spec fn decl_view(d: Declaration) -> m::Declaration
    decreases d,
{
    match d {
        Declaration::Main { main_keyword, body } => m::Declaration::Main {
            main_keyword,
            body: Box::new(expr_node_view(*body)),
        },
        Declaration::Const { const_keyword, identifier, type_, equals_token, value } => m::Declaration::Const {
            const_keyword,
            identifier,
            type_: opt_tc_view(type_),
            equals_token,
            value: Box::new(expr_node_view(*value)),
        },
        Declaration::Function {
            function_keyword,
            identifier,
            generic_parameters,
            parameters,
            constraint,
            arrow_token,
            body,
        } => m::Declaration::Function {
            function_keyword,
            identifier,
            generic_parameters: opt_gp_view(generic_parameters),
            parameters: param_list_view(parameters),
            constraint: opt_tc_view(constraint),
            arrow_token,
            body: Box::new(expr_node_view(*body)),
        },
        Declaration::Import { import_keyword, pattern, equal_token, use_keyword, module_specifier } => m::Declaration::Import {
            import_keyword,
            pattern: pat_node_view(pattern),
            equal_token,
            use_keyword,
            module_specifier,
        },
        Declaration::Export { export_keyword, elements } => m::Declaration::Export {
            export_keyword,
            elements: rec_list_view(elements),
        },
        Declaration::TypeAlias { type_keyword, name, generic_parameters, equals_token, value } => m::Declaration::TypeAlias {
            type_keyword,
            name,
            generic_parameters: opt_gp_view(generic_parameters),
            equals_token,
            value: ty_node_view(value),
        },
        Declaration::Interface { interface_keyword, name, generic_parameters, constraint, body } => m::Declaration::Interface {
            interface_keyword,
            name,
            generic_parameters: opt_gp_view(generic_parameters),
            constraint: opt_tc_view(constraint),
            body: field_list_view(body),
        },
    }
}

impl View for Module {
    type V = m::Module;

    open spec fn view(&self) -> m::Module {
        m::Module { declarations: decl_nodes_view(self.declarations@) }
    }
}

pub open spec fn expr_node_view(n: Node<Expression>) -> Node<m::Expression>
    decreases n,
{
    Node { value: expr_view(n.value), range: n.range }
}

pub open spec fn expr_nodes_view(s: Seq<Node<Expression>>) -> Seq<Node<m::Expression>>
    decreases s,
{
    if s.len() == 0 {
        Seq::empty()
    } else {
        expr_nodes_view(s.drop_last()).push(expr_node_view(s.last()))
    }
}

pub open spec fn expr_list_view(v: ParsedVec<Expression>) -> m::ParsedSeq<m::Expression>
    decreases v,
{
    Node { value: expr_nodes_view(v.value@), range: v.range }
}

impl View for Expression {
    type V = m::Expression;

    open spec fn view(&self) -> m::Expression {
        expr_view(*self)
    }
}

pub open spec fn ty_node_view(n: Node<Type>) -> Node<m::Type>
    decreases n,
{
    Node { value: ty_view(n.value), range: n.range }
}

pub open spec fn ty_nodes_view(s: Seq<Node<Type>>) -> Seq<Node<m::Type>>
    decreases s,
{
    if s.len() == 0 {
        Seq::empty()
    } else {
        ty_nodes_view(s.drop_last()).push(ty_node_view(s.last()))
    }
}

pub open spec fn ty_list_view(v: ParsedVec<Type>) -> m::ParsedSeq<m::Type>
    decreases v,
{
    Node { value: ty_nodes_view(v.value@), range: v.range }
}

impl View for Type {
    type V = m::Type;

    open spec fn view(&self) -> m::Type {
        ty_view(*self)
    }
}

pub open spec fn stmt_node_view(n: Node<Statement>) -> Node<m::Statement>
    decreases n,
{
    Node { value: stmt_view(n.value), range: n.range }
}

pub open spec fn stmt_nodes_view(s: Seq<Node<Statement>>) -> Seq<Node<m::Statement>>
    decreases s,
{
    if s.len() == 0 {
        Seq::empty()
    } else {
        stmt_nodes_view(s.drop_last()).push(stmt_node_view(s.last()))
    }
}

pub open spec fn stmt_list_view(v: ParsedVec<Statement>) -> m::ParsedSeq<m::Statement>
    decreases v,
{
    Node { value: stmt_nodes_view(v.value@), range: v.range }
}

impl View for Statement {
    type V = m::Statement;

    open spec fn view(&self) -> m::Statement {
        stmt_view(*self)
    }
}

pub open spec fn assign_node_view(n: Node<Assignment>) -> Node<m::Assignment>
    decreases n,
{
    Node { value: assign_view(n.value), range: n.range }
}

pub open spec fn assign_nodes_view(s: Seq<Node<Assignment>>) -> Seq<Node<m::Assignment>>
    decreases s,
{
    if s.len() == 0 {
        Seq::empty()
    } else {
        assign_nodes_view(s.drop_last()).push(assign_node_view(s.last()))
    }
}

pub open spec fn assign_list_view(v: ParsedVec<Assignment>) -> m::ParsedSeq<m::Assignment>
    decreases v,
{
    Node { value: assign_nodes_view(v.value@), range: v.range }
}

impl View for Assignment {
    type V = m::Assignment;

    open spec fn view(&self) -> m::Assignment {
        assign_view(*self)
    }
}

pub open spec fn rec_node_view(n: Node<RecordElement>) -> Node<m::RecordElement>
    decreases n,
{
    Node { value: rec_view(n.value), range: n.range }
}

pub open spec fn rec_nodes_view(s: Seq<Node<RecordElement>>) -> Seq<Node<m::RecordElement>>
    decreases s,
{
    if s.len() == 0 {
        Seq::empty()
    } else {
        rec_nodes_view(s.drop_last()).push(rec_node_view(s.last()))
    }
}

pub open spec fn rec_list_view(v: ParsedVec<RecordElement>) -> m::ParsedSeq<m::RecordElement>
    decreases v,
{
    Node { value: rec_nodes_view(v.value@), range: v.range }
}

impl View for RecordElement {
    type V = m::RecordElement;

    open spec fn view(&self) -> m::RecordElement {
        rec_view(*self)
    }
}

pub open spec fn gp_node_view(n: Node<GenericParameter>) -> Node<m::GenericParameter>
    decreases n,
{
    Node { value: gp_view(n.value), range: n.range }
}

pub open spec fn gp_nodes_view(s: Seq<Node<GenericParameter>>) -> Seq<Node<m::GenericParameter>>
    decreases s,
{
    if s.len() == 0 {
        Seq::empty()
    } else {
        gp_nodes_view(s.drop_last()).push(gp_node_view(s.last()))
    }
}

pub open spec fn gp_list_view(v: ParsedVec<GenericParameter>) -> m::ParsedSeq<m::GenericParameter>
    decreases v,
{
    Node { value: gp_nodes_view(v.value@), range: v.range }
}

impl View for GenericParameter {
    type V = m::GenericParameter;

    open spec fn view(&self) -> m::GenericParameter {
        gp_view(*self)
    }
}

pub open spec fn param_node_view(n: Node<ParameterDeclaration>) -> Node<m::ParameterDeclaration>
    decreases n,
{
    Node { value: param_view(n.value), range: n.range }
}

pub open spec fn param_nodes_view(s: Seq<Node<ParameterDeclaration>>) -> Seq<Node<m::ParameterDeclaration>>
    decreases s,
{
    if s.len() == 0 {
        Seq::empty()
    } else {
        param_nodes_view(s.drop_last()).push(param_node_view(s.last()))
    }
}

pub open spec fn param_list_view(v: ParsedVec<ParameterDeclaration>) -> m::ParsedSeq<m::ParameterDeclaration>
    decreases v,
{
    Node { value: param_nodes_view(v.value@), range: v.range }
}

impl View for ParameterDeclaration {
    type V = m::ParameterDeclaration;

    open spec fn view(&self) -> m::ParameterDeclaration {
        param_view(*self)
    }
}

pub open spec fn pat_node_view(n: Node<BindingPattern>) -> Node<m::BindingPattern>
    decreases n,
{
    Node { value: pat_view(n.value), range: n.range }
}

pub open spec fn pat_nodes_view(s: Seq<Node<BindingPattern>>) -> Seq<Node<m::BindingPattern>>
    decreases s,
{
    if s.len() == 0 {
        Seq::empty()
    } else {
        pat_nodes_view(s.drop_last()).push(pat_node_view(s.last()))
    }
}

pub open spec fn pat_list_view(v: ParsedVec<BindingPattern>) -> m::ParsedSeq<m::BindingPattern>
    decreases v,
{
    Node { value: pat_nodes_view(v.value@), range: v.range }
}

impl View for BindingPattern {
    type V = m::BindingPattern;

    open spec fn view(&self) -> m::BindingPattern {
        pat_view(*self)
    }
}

pub open spec fn bind_node_view(n: Node<RecordBindingElement>) -> Node<m::RecordBindingElement>
    decreases n,
{
    Node { value: bind_view(n.value), range: n.range }
}

pub open spec fn bind_nodes_view(s: Seq<Node<RecordBindingElement>>) -> Seq<Node<m::RecordBindingElement>>
    decreases s,
{
    if s.len() == 0 {
        Seq::empty()
    } else {
        bind_nodes_view(s.drop_last()).push(bind_node_view(s.last()))
    }
}

pub open spec fn bind_list_view(v: ParsedVec<RecordBindingElement>) -> m::ParsedSeq<m::RecordBindingElement>
    decreases v,
{
    Node { value: bind_nodes_view(v.value@), range: v.range }
}

impl View for RecordBindingElement {
    type V = m::RecordBindingElement;

    open spec fn view(&self) -> m::RecordBindingElement {
        bind_view(*self)
    }
}

pub open spec fn field_node_view(n: Node<InterfaceField>) -> Node<m::InterfaceField>
    decreases n,
{
    Node { value: field_view(n.value), range: n.range }
}

pub open spec fn field_nodes_view(s: Seq<Node<InterfaceField>>) -> Seq<Node<m::InterfaceField>>
    decreases s,
{
    if s.len() == 0 {
        Seq::empty()
    } else {
        field_nodes_view(s.drop_last()).push(field_node_view(s.last()))
    }
}

pub open spec fn field_list_view(v: ParsedVec<InterfaceField>) -> m::ParsedSeq<m::InterfaceField>
    decreases v,
{
    Node { value: field_nodes_view(v.value@), range: v.range }
}

impl View for InterfaceField {
    type V = m::InterfaceField;

    open spec fn view(&self) -> m::InterfaceField {
        field_view(*self)
    }
}

pub open spec fn decl_node_view(n: Node<Declaration>) -> Node<m::Declaration>
    decreases n,
{
    Node { value: decl_view(n.value), range: n.range }
}

pub open spec fn decl_nodes_view(s: Seq<Node<Declaration>>) -> Seq<Node<m::Declaration>>
    decreases s,
{
    if s.len() == 0 {
        Seq::empty()
    } else {
        decl_nodes_view(s.drop_last()).push(decl_node_view(s.last()))
    }
}

pub open spec fn decl_list_view(v: ParsedVec<Declaration>) -> m::ParsedSeq<m::Declaration>
    decreases v,
{
    Node { value: decl_nodes_view(v.value@), range: v.range }
}

impl View for Declaration {
    type V = m::Declaration;

    open spec fn view(&self) -> m::Declaration {
        decl_view(*self)
    }
}
pub proof fn lemma_expr_nodes_view(s: Seq<Node<Expression>>)
    ensures
        expr_nodes_view(s).len() == s.len(),
        forall|i: int| 0 <= i < s.len() ==> #[trigger] expr_nodes_view(s)[i] == expr_node_view(s[i]),
    decreases s.len(),
{
    if s.len() > 0 {
        lemma_expr_nodes_view(s.drop_last());
    }
}

pub proof fn lemma_pat_nodes_view(s: Seq<Node<BindingPattern>>)
    ensures
        pat_nodes_view(s).len() == s.len(),
        forall|i: int| 0 <= i < s.len() ==> #[trigger] pat_nodes_view(s)[i] == pat_node_view(s[i]),
    decreases s.len(),
{
    if s.len() > 0 {
        lemma_pat_nodes_view(s.drop_last());
    }
}

} // verus!
