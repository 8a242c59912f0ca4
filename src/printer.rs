//! A canonical textual rendering of the syntax tree. Operands are
//! parenthesised so that the text shows the tree's shape, and every part
//! that the grammar reads is written back in the form the grammar reads it.
use vstd::prelude::*;
use crate::ast::{
    ArithmeticOp, Assignment, BindingPattern, CompareOp, Declaration, Expression, GenericParameter,
    InterfaceField, Module, Node, ParameterDeclaration, ParsedVec, RecordBindingElement,
    RecordElement, Statement, Type, TypeConstraint, UnaryOp,
};

verus! {

broadcast use crate::grammar::lemma_concat_assoc, crate::grammar::lemma_concat_empty;

pub open spec fn unary_text(op: UnaryOp) -> Seq<char> {
    match op {
        UnaryOp::Negate => "!"@,
        UnaryOp::Minus => "-"@,
    }
}

pub open spec fn arithmetic_text(op: ArithmeticOp) -> Seq<char> {
    match op {
        ArithmeticOp::Add => "+"@,
        ArithmeticOp::Subtract => "-"@,
        ArithmeticOp::Multiply => "*"@,
        ArithmeticOp::Divide => "/"@,
        ArithmeticOp::Modulus => "%"@,
    }
}

pub open spec fn compare_text(op: CompareOp) -> Seq<char> {
    match op {
        CompareOp::Equal => "=="@,
        CompareOp::NotEqual => "!="@,
        CompareOp::LessThanOrEqual => "<="@,
        CompareOp::GreaterThanOrEqual => ">="@,
        CompareOp::LessThan => "<"@,
        CompareOp::GreaterThan => ">"@,
    }
}

impl UnaryOp {
    pub fn text(&self) -> (r: &'static str)
        ensures
            r@ == unary_text(*self),
    {
        match self {
            UnaryOp::Negate => "!",
            UnaryOp::Minus => "-",
        }
    }
}

impl ArithmeticOp {
    pub fn text(&self) -> (r: &'static str)
        ensures
            r@ == arithmetic_text(*self),
    {
        match self {
            ArithmeticOp::Add => "+",
            ArithmeticOp::Subtract => "-",
            ArithmeticOp::Multiply => "*",
            ArithmeticOp::Divide => "/",
            ArithmeticOp::Modulus => "%",
        }
    }
}

impl CompareOp {
    pub fn text(&self) -> (r: &'static str)
        ensures
            r@ == compare_text(*self),
    {
        match self {
            CompareOp::Equal => "==",
            CompareOp::NotEqual => "!=",
            CompareOp::LessThanOrEqual => "<=",
            CompareOp::GreaterThanOrEqual => ">=",
            CompareOp::LessThan => "<",
            CompareOp::GreaterThan => ">",
        }
    }
}

#[verifier::opaque]
pub open spec fn type_text(t: Type) -> Seq<char>
    decreases t,
{
    match t {
        Type::Kind => "*"@,
        Type::Never => "!"@,
        Type::Unknown => "_"@,
        Type::Reference { name, generic_parameters } => name.value@ + match generic_parameters {
            Some(v) => "["@ + types_joined(v.value@) + "]"@,
            None => Seq::empty(),
        },
        Type::Union { left, right } => "("@ + type_text(left.value) + ") | ("@ + type_text(right.value) + ")"@,
        Type::Tuple { members } => "("@ + types_joined(members.value@) + ")"@,
        Type::Function { parameters, return_type, .. } => "fn ("@ + types_joined(parameters.value@) + ") -> "@
            + type_text(return_type.value),
    }
}

pub open spec fn constraint_text(c: TypeConstraint) -> Seq<char> {
    ": "@ + type_text(c.type_.value)
}

pub open spec fn opt_constraint_text(o: Option<Node<TypeConstraint>>) -> Seq<char> {
    match o {
        Some(c) => constraint_text(c.value),
        None => Seq::empty(),
    }
}

pub open spec fn generic_parameter_text(g: GenericParameter) -> Seq<char> {
    g.name.value@ + opt_constraint_text(g.constraint)
}

pub open spec fn generics_text(o: Option<ParsedVec<GenericParameter>>) -> Seq<char> {
    match o {
        Some(v) => "["@ + gps_joined(v.value@) + "]"@,
        None => Seq::empty(),
    }
}

pub open spec fn parameter_text(p: ParameterDeclaration) -> Seq<char> {
    p.name.value@ + opt_constraint_text(p.type_)
}

pub open spec fn interface_field_text(f: InterfaceField) -> Seq<char> {
    f.name.value@ + constraint_text(f.constraint.value)
}

#[verifier::opaque]
pub open spec fn pattern_text(p: BindingPattern) -> Seq<char>
    decreases p,
{
    match p {
        BindingPattern::Identifier { name } => name.value@,
        BindingPattern::Tuple { patterns } => "("@ + pats_joined(patterns.value@) + ")"@,
        BindingPattern::Record { elements } => "{"@ + binds_joined(elements.value@) + "}"@,
    }
}

pub open spec fn binding_element_text(b: RecordBindingElement) -> Seq<char>
    decreases b,
{
    match b {
        RecordBindingElement::Identifier { name } => name.value@,
        RecordBindingElement::KeyValuePair { name, pattern } => name.value@ + ": "@ + pattern_text(pattern.value),
        RecordBindingElement::Rest { name } => "..."@ + name.value@,
    }
}

pub open spec fn fn_name_text(o: Option<Node<String>>) -> Seq<char> {
    match o {
        Some(n) => n.value@,
        None => Seq::empty(),
    }
}

/// A function literal's name, generic parameters, parameters and return
/// constraint.
pub open spec fn signature_text(
    name: Option<Node<String>>,
    generics: Option<ParsedVec<GenericParameter>>,
    parameters: ParsedVec<ParameterDeclaration>,
    constraint: Option<Node<TypeConstraint>>,
) -> Seq<char> {
    fn_name_text(name) + generics_text(generics) + "("@ + params_joined(parameters.value@) + ")"@ + opt_constraint_text(constraint)
}

#[verifier::rlimit(100)]
pub open spec fn expression_text(e: Expression) -> Seq<char>
    decreases e,
{
    match e {
        Expression::Number(n) => n@,
        Expression::String(s) => "\""@ + s@ + "\""@,
        Expression::Boolean(b) => if b { "true"@ } else { "false"@ },
        Expression::Name(n) => n@,
        Expression::Hole => "@"@,
        Expression::NoneLiteral => "none"@,
        Expression::As { expr, type_, .. } => "("@ + expression_text(expr.value) + ") as "@ + type_text(type_.value),
        Expression::Unary { operator, expression } => unary_text(operator.value) + "("@ + expression_text(expression.value) + ")"@,
        Expression::Compare { operator, left, right } => "("@ + expression_text(left.value) + ") "@ + compare_text(operator.value) + " ("@
            + expression_text(right.value) + ")"@,
        Expression::Arithmetic { operator, left, right } => "("@ + expression_text(left.value) + ") "@ + arithmetic_text(operator.value)
            + " ("@ + expression_text(right.value) + ")"@,
        Expression::Accessor { accessee, index } => "("@ + expression_text(accessee.value) + ")["@ + expression_text(index.value) + "]"@,
        Expression::Function { name, generic_parameters, parameters, constraint, body, .. } => "fn "@
            + signature_text(name, generic_parameters, parameters, constraint) + " -> ("@ + expression_text(body.value) + ")"@,
        Expression::Call { callee, parameters } => "("@ + expression_text(callee.value) + ")("@ + exprs_joined(parameters.value@) + ")"@,
        Expression::With { bindings, body, .. } => "with ("@ + assigns_joined(bindings.value@) + ") ("@ + expression_text(body.value)
            + ")"@,
        Expression::Tuple { elements } => "("@ + exprs_joined(elements.value@) + ")"@,
        Expression::List { elements } => "["@ + exprs_joined(elements.value@) + "]"@,
        Expression::Procedure { body } => "#["@ + stmts_terminated(body.value@) + "]"@,
        Expression::If { condition, then, _else, .. } => "if ("@ + expression_text(condition.value) + ") then ("@
            + expression_text(then.value) + ") else ("@ + expression_text(_else.value) + ")"@,
        Expression::Record { elements } => "{"@ + recs_joined(elements.value@) + "}"@,
        Expression::FieldAccess { accessee, field } => "("@ + expression_text(accessee.value) + ")."@ + field.value@,
    }
}

pub open spec fn assignment_text(a: Assignment) -> Seq<char>
    decreases a,
{
    a.symbol.value@ + " = "@ + expression_text(a.value.value)
}

pub open spec fn record_element_text(r: RecordElement) -> Seq<char>
    decreases r,
{
    match r {
        RecordElement::KeyValuePair { key, value } => key.value@ + ": ("@ + expression_text(value.value) + ")"@,
        RecordElement::Identifier { name } => name.value@,
        RecordElement::Spread { value } => "...("@ + expression_text(value.value) + ")"@,
    }
}

pub open spec fn statement_text(s: Statement) -> Seq<char>
    decreases s,
{
    match s {
        Statement::Let { assignment, .. } => "let "@ + assignment.value.symbol.value@ + " = ("@ + expression_text(assignment.value.value.value)
            + ")"@,
        Statement::Assign(a) => a.value.symbol.value@ + " = "@ + expression_text(a.value.value.value),
        Statement::If { condition, then, _else, .. } => "if ("@ + expression_text(condition.value) + ") "@ + statement_text(then.value)
            + match _else {
            Some(e) => " else "@ + statement_text(e.value),
            None => Seq::empty(),
        },
        Statement::ForIn { binding, iterator, body, .. } => "for "@ + binding.value@ + " in ("@ + expression_text(iterator.value) + ") "@
            + statement_text(body.value),
        Statement::Forever(b) => "loop "@ + statement_text(b.value),
        Statement::Do(e) => "do "@ + expression_text(e.value),
        Statement::Break => "break"@,
        Statement::Continue => "continue"@,
        Statement::Pass => "pass"@,
        Statement::Expression(e) => expression_text(e.value),
    }
}

/// Each statement's text followed by `;`.
pub open spec fn stmts_terminated(s: Seq<Node<Statement>>) -> Seq<char>
    decreases s,
{
    if s.len() == 0 {
        Seq::empty()
    } else {
        stmts_terminated(s.drop_last()) + statement_text(s.last().value) + ";"@
    }
}

pub open spec fn declaration_text(d: Declaration) -> Seq<char> {
    match d {
        Declaration::Main { body, .. } => "main "@ + expression_text(body.value),
        Declaration::Const { identifier, type_, value, .. } => "const "@ + identifier.value@ + opt_constraint_text(type_) + " = "@
            + expression_text(value.value),
        Declaration::Function { identifier, generic_parameters, parameters, constraint, body, .. } => "fn "@ + identifier.value@
            + generics_text(generic_parameters) + "("@ + params_joined(parameters.value@) + ")"@ + opt_constraint_text(constraint)
            + " -> "@ + expression_text(body.value),
        Declaration::Import { pattern, module_specifier, .. } => "import "@ + pattern_text(pattern.value) + " = use (\""@
            + module_specifier.value@ + "\")"@,
        Declaration::Export { elements, .. } => "export {"@ + recs_joined(elements.value@) + "}"@,
        Declaration::TypeAlias { name, generic_parameters, value, .. } => "type "@ + name.value@ + generics_text(generic_parameters)
            + " = "@ + type_text(value.value),
        Declaration::Interface { name, generic_parameters, constraint, body, .. } => "interface "@ + name.value@
            + generics_text(generic_parameters) + opt_constraint_text(constraint) + " {"@ + fields_joined(body.value@) + "}"@,
    }
}

/// Each declaration's text followed by `;` and a blank line.
pub open spec fn module_text(s: Seq<Node<Declaration>>) -> Seq<char>
    decreases s.len(),
{
    if s.len() == 0 {
        Seq::empty()
    } else {
        module_text(s.drop_last()) + declaration_text(s.last().value) + ";\n\n"@
    }
}

/// The texts of the nodes, separated by `, `.
pub open spec fn exprs_joined(s: Seq<Node<Expression>>) -> Seq<char>
    decreases s,
{
    if s.len() == 0 {
        Seq::empty()
    } else if s.len() == 1 {
        expression_text(s[0].value)
    } else {
        exprs_joined(s.drop_last()) + ", "@ + expression_text(s.last().value)
    }
}

/// The texts of the nodes, separated by `, `.
pub open spec fn assigns_joined(s: Seq<Node<Assignment>>) -> Seq<char>
    decreases s,
{
    if s.len() == 0 {
        Seq::empty()
    } else if s.len() == 1 {
        assignment_text(s[0].value)
    } else {
        assigns_joined(s.drop_last()) + ", "@ + assignment_text(s.last().value)
    }
}

/// The texts of the nodes, separated by `, `.
pub open spec fn recs_joined(s: Seq<Node<RecordElement>>) -> Seq<char>
    decreases s,
{
    if s.len() == 0 {
        Seq::empty()
    } else if s.len() == 1 {
        record_element_text(s[0].value)
    } else {
        recs_joined(s.drop_last()) + ", "@ + record_element_text(s.last().value)
    }
}

/// The texts of the nodes, separated by `, `.
pub open spec fn params_joined(s: Seq<Node<ParameterDeclaration>>) -> Seq<char>
    decreases s,
{
    if s.len() == 0 {
        Seq::empty()
    } else if s.len() == 1 {
        parameter_text(s[0].value)
    } else {
        params_joined(s.drop_last()) + ", "@ + parameter_text(s.last().value)
    }
}

/// The texts of the nodes, separated by `, `.
pub open spec fn types_joined(s: Seq<Node<Type>>) -> Seq<char>
    decreases s,
{
    if s.len() == 0 {
        Seq::empty()
    } else if s.len() == 1 {
        type_text(s[0].value)
    } else {
        types_joined(s.drop_last()) + ", "@ + type_text(s.last().value)
    }
}

/// The texts of the nodes, separated by `, `.
pub open spec fn gps_joined(s: Seq<Node<GenericParameter>>) -> Seq<char>
    decreases s,
{
    if s.len() == 0 {
        Seq::empty()
    } else if s.len() == 1 {
        generic_parameter_text(s[0].value)
    } else {
        gps_joined(s.drop_last()) + ", "@ + generic_parameter_text(s.last().value)
    }
}

/// The texts of the nodes, separated by `, `.
pub open spec fn pats_joined(s: Seq<Node<BindingPattern>>) -> Seq<char>
    decreases s,
{
    if s.len() == 0 {
        Seq::empty()
    } else if s.len() == 1 {
        pattern_text(s[0].value)
    } else {
        pats_joined(s.drop_last()) + ", "@ + pattern_text(s.last().value)
    }
}

/// The texts of the nodes, separated by `, `.
pub open spec fn binds_joined(s: Seq<Node<RecordBindingElement>>) -> Seq<char>
    decreases s,
{
    if s.len() == 0 {
        Seq::empty()
    } else if s.len() == 1 {
        binding_element_text(s[0].value)
    } else {
        binds_joined(s.drop_last()) + ", "@ + binding_element_text(s.last().value)
    }
}

/// The texts of the nodes, separated by `, `.
pub open spec fn fields_joined(s: Seq<Node<InterfaceField>>) -> Seq<char>
    decreases s,
{
    if s.len() == 0 {
        Seq::empty()
    } else if s.len() == 1 {
        interface_field_text(s[0].value)
    } else {
        fields_joined(s.drop_last()) + ", "@ + interface_field_text(s.last().value)
    }
}

#[verifier::spinoff_prover]
pub fn type_to_text(t: &Type) -> (r: String)
    ensures
        r@ == type_text(*t),
    decreases t,
{
    proof {
        reveal_with_fuel(type_text, 1);
    }
    match t {
        Type::Kind => String::from_str("*"),
        Type::Never => String::from_str("!"),
        Type::Unknown => String::from_str("_"),
        Type::Reference { name, generic_parameters } => {
            let mut out = name.value.clone();
            match generic_parameters {
                Some(v) => {
                    let mut g = String::from_str("[");
                    g.append(types_to_text(&v.value).as_str());
                    g.append("]");
                    out.append(g.as_str());
                },
                None => {},
            }
            out
        },
        Type::Union { left, right } => {
            let mut out = String::from_str("(");
            out.append(type_to_text(&left.value).as_str());
            out.append(") | (");
            out.append(type_to_text(&right.value).as_str());
            out.append(")");
            out
        },
        Type::Tuple { members } => {
            let mut out = String::from_str("(");
            out.append(types_to_text(&members.value).as_str());
            out.append(")");
            out
        },
        Type::Function { parameters, return_type, .. } => {
            let mut out = String::from_str("fn (");
            out.append(types_to_text(&parameters.value).as_str());
            out.append(") -> ");
            out.append(type_to_text(&return_type.value).as_str());
            out
        },
    }
}

pub fn constraint_to_text(c: &TypeConstraint) -> (r: String)
    ensures
        r@ == constraint_text(*c),
{
    let mut out = String::from_str(": ");
    out.append(type_to_text(&c.type_.value).as_str());
    out
}

pub fn opt_constraint_to_text(o: &Option<Node<TypeConstraint>>) -> (r: String)
    ensures
        r@ == opt_constraint_text(*o),
{
    match o {
        Some(c) => constraint_to_text(&c.value),
        None => String::new(),
    }
}

pub fn generic_parameter_to_text(g: &GenericParameter) -> (r: String)
    ensures
        r@ == generic_parameter_text(*g),
{
    let mut out = g.name.value.clone();
    out.append(opt_constraint_to_text(&g.constraint).as_str());
    out
}

pub fn generics_to_text(o: &Option<ParsedVec<GenericParameter>>) -> (r: String)
    ensures
        r@ == generics_text(*o),
{
    match o {
        Some(v) => {
            let mut out = String::from_str("[");
            out.append(gps_to_text(&v.value).as_str());
            out.append("]");
            out
        },
        None => String::new(),
    }
}

pub fn parameter_to_text(p: &ParameterDeclaration) -> (r: String)
    ensures
        r@ == parameter_text(*p),
{
    let mut out = p.name.value.clone();
    out.append(opt_constraint_to_text(&p.type_).as_str());
    out
}

pub fn interface_field_to_text(f: &InterfaceField) -> (r: String)
    ensures
        r@ == interface_field_text(*f),
{
    let mut out = f.name.value.clone();
    out.append(constraint_to_text(&f.constraint.value).as_str());
    out
}

#[verifier::spinoff_prover]
pub fn pattern_to_text(p: &BindingPattern) -> (r: String)
    ensures
        r@ == pattern_text(*p),
    decreases p,
{
    proof {
        reveal_with_fuel(pattern_text, 1);
    }
    match p {
        BindingPattern::Identifier { name } => name.value.clone(),
        BindingPattern::Tuple { patterns } => {
            let mut out = String::from_str("(");
            out.append(pats_to_text(&patterns.value).as_str());
            out.append(")");
            out
        },
        BindingPattern::Record { elements } => {
            let mut out = String::from_str("{");
            out.append(binds_to_text(&elements.value).as_str());
            out.append("}");
            out
        },
    }
}

#[verifier::spinoff_prover]
pub fn binding_element_to_text(b: &RecordBindingElement) -> (r: String)
    ensures
        r@ == binding_element_text(*b),
    decreases b,
{
    match b {
        RecordBindingElement::Identifier { name } => name.value.clone(),
        RecordBindingElement::KeyValuePair { name, pattern } => {
            let mut out = name.value.clone();
            out.append(": ");
            out.append(pattern_to_text(&pattern.value).as_str());
            out
        },
        RecordBindingElement::Rest { name } => {
            let mut out = String::from_str("...");
            out.append(name.value.as_str());
            out
        },
    }
}

fn signature_to_text(
    name: &Option<Node<String>>,
    generics: &Option<ParsedVec<GenericParameter>>,
    parameters: &ParsedVec<ParameterDeclaration>,
    constraint: &Option<Node<TypeConstraint>>,
) -> (r: String)
    ensures
        r@ == signature_text(*name, *generics, *parameters, *constraint),
{
    let mut out = fn_name_to_text(name);
    out.append(generics_to_text(generics).as_str());
    out.append("(");
    out.append(params_to_text(&parameters.value).as_str());
    out.append(")");
    out.append(opt_constraint_to_text(constraint).as_str());
    out
}

fn fn_name_to_text(o: &Option<Node<String>>) -> (r: String)
    ensures
        r@ == fn_name_text(*o),
{
    match o {
        Some(n) => n.value.clone(),
        None => String::new(),
    }
}

#[verifier::spinoff_prover]
#[verifier::rlimit(100)]
pub fn expression_to_text(e: &Expression) -> (r: String)
    ensures
        r@ == expression_text(*e),
    decreases e,
{
    match e {
        Expression::Number(n) => n.clone(),
        Expression::String(s) => {
            let mut out = String::from_str("\"");
            out.append(s.as_str());
            out.append("\"");
            out
        },
        Expression::Boolean(b) => if *b {
            String::from_str("true")
        } else {
            String::from_str("false")
        },
        Expression::Name(n) => n.clone(),
        Expression::Hole => String::from_str("@"),
        Expression::NoneLiteral => String::from_str("none"),
        Expression::As { expr, type_, .. } => {
            let mut out = String::from_str("(");
            out.append(expression_to_text(&expr.value).as_str());
            out.append(") as ");
            out.append(type_to_text(&type_.value).as_str());
            out
        },
        Expression::Unary { operator, expression } => {
            let mut out = String::from_str(operator.value.text());
            out.append("(");
            out.append(expression_to_text(&expression.value).as_str());
            out.append(")");
            out
        },
        Expression::Compare { operator, left, right } => {
            let mut out = String::from_str("(");
            out.append(expression_to_text(&left.value).as_str());
            out.append(") ");
            out.append(operator.value.text());
            out.append(" (");
            out.append(expression_to_text(&right.value).as_str());
            out.append(")");
            out
        },
        Expression::Arithmetic { operator, left, right } => {
            let mut out = String::from_str("(");
            out.append(expression_to_text(&left.value).as_str());
            out.append(") ");
            out.append(operator.value.text());
            out.append(" (");
            out.append(expression_to_text(&right.value).as_str());
            out.append(")");
            out
        },
        Expression::Accessor { accessee, index } => {
            let mut out = String::from_str("(");
            out.append(expression_to_text(&accessee.value).as_str());
            out.append(")[");
            out.append(expression_to_text(&index.value).as_str());
            out.append("]");
            out
        },
        Expression::Function { name, generic_parameters, parameters, constraint, body, .. } => {
            let mut out = String::from_str("fn ");
            out.append(signature_to_text(name, generic_parameters, parameters, constraint).as_str());
            out.append(" -> (");
            out.append(expression_to_text(&body.value).as_str());
            out.append(")");
            out
        },
        Expression::Call { callee, parameters } => {
            let mut out = String::from_str("(");
            out.append(expression_to_text(&callee.value).as_str());
            out.append(")(");
            out.append(exprs_to_text(&parameters.value).as_str());
            out.append(")");
            out
        },
        Expression::With { bindings, body, .. } => {
            let mut out = String::from_str("with (");
            out.append(assigns_to_text(&bindings.value).as_str());
            out.append(") (");
            out.append(expression_to_text(&body.value).as_str());
            out.append(")");
            out
        },
        Expression::Tuple { elements } => {
            let mut out = String::from_str("(");
            out.append(exprs_to_text(&elements.value).as_str());
            out.append(")");
            out
        },
        Expression::List { elements } => {
            let mut out = String::from_str("[");
            out.append(exprs_to_text(&elements.value).as_str());
            out.append("]");
            out
        },
        Expression::Procedure { body } => {
            let mut out = String::from_str("#[");
            out.append(stmts_to_text(&body.value).as_str());
            out.append("]");
            out
        },
        Expression::If { condition, then, _else, .. } => {
            let mut out = String::from_str("if (");
            out.append(expression_to_text(&condition.value).as_str());
            out.append(") then (");
            out.append(expression_to_text(&then.value).as_str());
            out.append(") else (");
            out.append(expression_to_text(&_else.value).as_str());
            out.append(")");
            out
        },
        Expression::Record { elements } => {
            let mut out = String::from_str("{");
            out.append(recs_to_text(&elements.value).as_str());
            out.append("}");
            out
        },
        Expression::FieldAccess { accessee, field } => {
            let mut out = String::from_str("(");
            out.append(expression_to_text(&accessee.value).as_str());
            out.append(").");
            out.append(field.value.as_str());
            out
        },
    }
}

#[verifier::spinoff_prover]
pub fn assignment_to_text(a: &Assignment) -> (r: String)
    ensures
        r@ == assignment_text(*a),
    decreases a,
{
    let mut out = a.symbol.value.clone();
    out.append(" = ");
    out.append(expression_to_text(&a.value.value).as_str());
    out
}

#[verifier::spinoff_prover]
pub fn record_element_to_text(r: &RecordElement) -> (t: String)
    ensures
        t@ == record_element_text(*r),
    decreases r,
{
    match r {
        RecordElement::KeyValuePair { key, value } => {
            let mut out = key.value.clone();
            out.append(": (");
            out.append(expression_to_text(&value.value).as_str());
            out.append(")");
            out
        },
        RecordElement::Identifier { name } => name.value.clone(),
        RecordElement::Spread { value } => {
            let mut out = String::from_str("...(");
            out.append(expression_to_text(&value.value).as_str());
            out.append(")");
            out
        },
    }
}

#[verifier::spinoff_prover]
pub fn statement_to_text(s: &Statement) -> (r: String)
    ensures
        r@ == statement_text(*s),
    decreases s,
{
    match s {
        Statement::Let { assignment, .. } => {
            let mut out = String::from_str("let ");
            out.append(assignment.value.symbol.value.as_str());
            out.append(" = (");
            out.append(expression_to_text(&assignment.value.value.value).as_str());
            out.append(")");
            out
        },
        Statement::Assign(a) => {
            let mut out = a.value.symbol.value.clone();
            out.append(" = ");
            out.append(expression_to_text(&a.value.value.value).as_str());
            out
        },
        Statement::If { condition, then, _else, .. } => {
            let mut out = String::from_str("if (");
            out.append(expression_to_text(&condition.value).as_str());
            out.append(") ");
            out.append(statement_to_text(&then.value).as_str());
            match _else {
                Some(e) => {
                    let mut tail = String::from_str(" else ");
                    tail.append(statement_to_text(&e.value).as_str());
                    out.append(tail.as_str());
                },
                None => {},
            }
            out
        },
        Statement::ForIn { binding, iterator, body, .. } => {
            let mut out = String::from_str("for ");
            out.append(binding.value.as_str());
            out.append(" in (");
            out.append(expression_to_text(&iterator.value).as_str());
            out.append(") ");
            out.append(statement_to_text(&body.value).as_str());
            out
        },
        Statement::Forever(b) => {
            let mut out = String::from_str("loop ");
            out.append(statement_to_text(&b.value).as_str());
            out
        },
        Statement::Do(e) => {
            let mut out = String::from_str("do ");
            out.append(expression_to_text(&e.value).as_str());
            out
        },
        Statement::Break => String::from_str("break"),
        Statement::Continue => String::from_str("continue"),
        Statement::Pass => String::from_str("pass"),
        Statement::Expression(e) => expression_to_text(&e.value),
    }
}

/// Each statement's text followed by `;`.
#[verifier::spinoff_prover]
pub fn stmts_to_text(v: &Vec<Node<Statement>>) -> (r: String)
    ensures
        r@ == stmts_terminated(v@),
    decreases v@,
{
    let mut out = String::new();
    let mut i: usize = 0;
    while i < v.len()
        invariant
            i <= v.len(),
            out@ == stmts_terminated(v@.take(i as int)),
        decreases v.len() - i,
    {
        let t = statement_to_text(&v[i].value);
        proof {
            assert(v@.take(i as int + 1).drop_last() =~= v@.take(i as int));
            assert(v@.take(i as int + 1).last() == v@[i as int]);
        }
        out.append(t.as_str());
        out.append(";");
        i = i + 1;
    }
    assert(v@.take(v.len() as int) =~= v@);
    out
}

#[verifier::spinoff_prover]
pub fn declaration_to_text(d: &Declaration) -> (r: String)
    ensures
        r@ == declaration_text(*d),
{
    match d {
        Declaration::Main { body, .. } => {
            let mut out = String::from_str("main ");
            out.append(expression_to_text(&body.value).as_str());
            out
        },
        Declaration::Const { identifier, type_, value, .. } => {
            let mut out = String::from_str("const ");
            out.append(identifier.value.as_str());
            out.append(opt_constraint_to_text(type_).as_str());
            out.append(" = ");
            out.append(expression_to_text(&value.value).as_str());
            out
        },
        Declaration::Function { identifier, generic_parameters, parameters, constraint, body, .. } => {
            let mut out = String::from_str("fn ");
            out.append(identifier.value.as_str());
            out.append(generics_to_text(generic_parameters).as_str());
            out.append("(");
            out.append(params_to_text(&parameters.value).as_str());
            out.append(")");
            out.append(opt_constraint_to_text(constraint).as_str());
            out.append(" -> ");
            out.append(expression_to_text(&body.value).as_str());
            out
        },
        Declaration::Import { pattern, module_specifier, .. } => {
            let mut out = String::from_str("import ");
            out.append(pattern_to_text(&pattern.value).as_str());
            out.append(" = use (\"");
            out.append(module_specifier.value.as_str());
            out.append("\")");
            out
        },
        Declaration::Export { elements, .. } => {
            let mut out = String::from_str("export {");
            out.append(recs_to_text(&elements.value).as_str());
            out.append("}");
            out
        },
        Declaration::TypeAlias { name, generic_parameters, value, .. } => {
            let mut out = String::from_str("type ");
            out.append(name.value.as_str());
            out.append(generics_to_text(generic_parameters).as_str());
            out.append(" = ");
            out.append(type_to_text(&value.value).as_str());
            out
        },
        Declaration::Interface { name, generic_parameters, constraint, body, .. } => {
            let mut out = String::from_str("interface ");
            out.append(name.value.as_str());
            out.append(generics_to_text(generic_parameters).as_str());
            out.append(opt_constraint_to_text(constraint).as_str());
            out.append(" {");
            out.append(fields_to_text(&body.value).as_str());
            out.append("}");
            out
        },
    }
}

impl Expression {
    /// The canonical text of the node.
    pub fn to_text(&self) -> (r: String)
        ensures
            r@ == expression_text(*self),
    {
        expression_to_text(self)
    }
}

impl Statement {
    /// The canonical text of the node.
    pub fn to_text(&self) -> (r: String)
        ensures
            r@ == statement_text(*self),
    {
        statement_to_text(self)
    }
}

impl Declaration {
    /// The canonical text of the node.
    pub fn to_text(&self) -> (r: String)
        ensures
            r@ == declaration_text(*self),
    {
        declaration_to_text(self)
    }
}

impl Assignment {
    /// The canonical text of the node.
    pub fn to_text(&self) -> (r: String)
        ensures
            r@ == assignment_text(*self),
    {
        assignment_to_text(self)
    }
}

impl RecordElement {
    /// The canonical text of the node.
    pub fn to_text(&self) -> (r: String)
        ensures
            r@ == record_element_text(*self),
    {
        record_element_to_text(self)
    }
}

impl Module {
    /// Each declaration's text followed by `;` and a blank line.
    #[verifier::spinoff_prover]
    #[verifier::rlimit(100)]
    pub fn to_text(&self) -> (r: String)
        ensures
            r@ == module_text(self.declarations@),
    {
        let v = &self.declarations;
        let mut out = String::new();
        let mut i: usize = 0;
        while i < v.len()
            invariant
                i <= v.len(),
                out@ == module_text(v@.take(i as int)),
            decreases v.len() - i,
        {
            let t = declaration_to_text(&v[i].value);
            proof {
                assert(v@.take(i as int + 1).drop_last() =~= v@.take(i as int));
                assert(v@.take(i as int + 1).last() == v@[i as int]);
            }
            out.append(t.as_str());
            out.append(";\n\n");
            i = i + 1;
        }
        assert(v@.take(v.len() as int) =~= v@);
        out
    }
}

/// The texts of the nodes, separated by `, `.
#[verifier::spinoff_prover]
pub fn exprs_to_text(v: &Vec<Node<Expression>>) -> (r: String)
    ensures
        r@ == exprs_joined(v@),
    decreases v@,
{
    let mut out = String::new();
    let mut i: usize = 0;
    while i < v.len()
        invariant
            i <= v.len(),
            out@ == exprs_joined(v@.take(i as int)),
        decreases v.len() - i,
    {
        let t = expression_to_text(&v[i].value);
        proof {
            assert(v@.take(i as int + 1).drop_last() =~= v@.take(i as int));
            assert(v@.take(i as int + 1).last() == v@[i as int]);
            if i == 0 {
                assert(v@.take(1)[0] == v@[0]);
            }
        }
        if i > 0 {
            out.append(", ");
        }
        out.append(t.as_str());
        i = i + 1;
    }
    assert(v@.take(v.len() as int) =~= v@);
    out
}

/// The texts of the nodes, separated by `, `.
#[verifier::spinoff_prover]
pub fn assigns_to_text(v: &Vec<Node<Assignment>>) -> (r: String)
    ensures
        r@ == assigns_joined(v@),
    decreases v@,
{
    let mut out = String::new();
    let mut i: usize = 0;
    while i < v.len()
        invariant
            i <= v.len(),
            out@ == assigns_joined(v@.take(i as int)),
        decreases v.len() - i,
    {
        let t = assignment_to_text(&v[i].value);
        proof {
            assert(v@.take(i as int + 1).drop_last() =~= v@.take(i as int));
            assert(v@.take(i as int + 1).last() == v@[i as int]);
            if i == 0 {
                assert(v@.take(1)[0] == v@[0]);
            }
        }
        if i > 0 {
            out.append(", ");
        }
        out.append(t.as_str());
        i = i + 1;
    }
    assert(v@.take(v.len() as int) =~= v@);
    out
}

/// The texts of the nodes, separated by `, `.
#[verifier::spinoff_prover]
pub fn recs_to_text(v: &Vec<Node<RecordElement>>) -> (r: String)
    ensures
        r@ == recs_joined(v@),
    decreases v@,
{
    let mut out = String::new();
    let mut i: usize = 0;
    while i < v.len()
        invariant
            i <= v.len(),
            out@ == recs_joined(v@.take(i as int)),
        decreases v.len() - i,
    {
        let t = record_element_to_text(&v[i].value);
        proof {
            assert(v@.take(i as int + 1).drop_last() =~= v@.take(i as int));
            assert(v@.take(i as int + 1).last() == v@[i as int]);
            if i == 0 {
                assert(v@.take(1)[0] == v@[0]);
            }
        }
        if i > 0 {
            out.append(", ");
        }
        out.append(t.as_str());
        i = i + 1;
    }
    assert(v@.take(v.len() as int) =~= v@);
    out
}

/// The texts of the nodes, separated by `, `.
#[verifier::spinoff_prover]
pub fn params_to_text(v: &Vec<Node<ParameterDeclaration>>) -> (r: String)
    ensures
        r@ == params_joined(v@),
    decreases v@,
{
    let mut out = String::new();
    let mut i: usize = 0;
    while i < v.len()
        invariant
            i <= v.len(),
            out@ == params_joined(v@.take(i as int)),
        decreases v.len() - i,
    {
        let t = parameter_to_text(&v[i].value);
        proof {
            assert(v@.take(i as int + 1).drop_last() =~= v@.take(i as int));
            assert(v@.take(i as int + 1).last() == v@[i as int]);
            if i == 0 {
                assert(v@.take(1)[0] == v@[0]);
            }
        }
        if i > 0 {
            out.append(", ");
        }
        out.append(t.as_str());
        i = i + 1;
    }
    assert(v@.take(v.len() as int) =~= v@);
    out
}

/// The texts of the nodes, separated by `, `.
#[verifier::spinoff_prover]
pub fn types_to_text(v: &Vec<Node<Type>>) -> (r: String)
    ensures
        r@ == types_joined(v@),
    decreases v@,
{
    let mut out = String::new();
    let mut i: usize = 0;
    while i < v.len()
        invariant
            i <= v.len(),
            out@ == types_joined(v@.take(i as int)),
        decreases v.len() - i,
    {
        let t = type_to_text(&v[i].value);
        proof {
            assert(v@.take(i as int + 1).drop_last() =~= v@.take(i as int));
            assert(v@.take(i as int + 1).last() == v@[i as int]);
            if i == 0 {
                assert(v@.take(1)[0] == v@[0]);
            }
        }
        if i > 0 {
            out.append(", ");
        }
        out.append(t.as_str());
        i = i + 1;
    }
    assert(v@.take(v.len() as int) =~= v@);
    out
}

/// The texts of the nodes, separated by `, `.
#[verifier::spinoff_prover]
pub fn gps_to_text(v: &Vec<Node<GenericParameter>>) -> (r: String)
    ensures
        r@ == gps_joined(v@),
    decreases v@,
{
    let mut out = String::new();
    let mut i: usize = 0;
    while i < v.len()
        invariant
            i <= v.len(),
            out@ == gps_joined(v@.take(i as int)),
        decreases v.len() - i,
    {
        let t = generic_parameter_to_text(&v[i].value);
        proof {
            assert(v@.take(i as int + 1).drop_last() =~= v@.take(i as int));
            assert(v@.take(i as int + 1).last() == v@[i as int]);
            if i == 0 {
                assert(v@.take(1)[0] == v@[0]);
            }
        }
        if i > 0 {
            out.append(", ");
        }
        out.append(t.as_str());
        i = i + 1;
    }
    assert(v@.take(v.len() as int) =~= v@);
    out
}

/// The texts of the nodes, separated by `, `.
#[verifier::spinoff_prover]
pub fn pats_to_text(v: &Vec<Node<BindingPattern>>) -> (r: String)
    ensures
        r@ == pats_joined(v@),
    decreases v@,
{
    let mut out = String::new();
    let mut i: usize = 0;
    while i < v.len()
        invariant
            i <= v.len(),
            out@ == pats_joined(v@.take(i as int)),
        decreases v.len() - i,
    {
        let t = pattern_to_text(&v[i].value);
        proof {
            assert(v@.take(i as int + 1).drop_last() =~= v@.take(i as int));
            assert(v@.take(i as int + 1).last() == v@[i as int]);
            if i == 0 {
                assert(v@.take(1)[0] == v@[0]);
            }
        }
        if i > 0 {
            out.append(", ");
        }
        out.append(t.as_str());
        i = i + 1;
    }
    assert(v@.take(v.len() as int) =~= v@);
    out
}

/// The texts of the nodes, separated by `, `.
#[verifier::spinoff_prover]
pub fn binds_to_text(v: &Vec<Node<RecordBindingElement>>) -> (r: String)
    ensures
        r@ == binds_joined(v@),
    decreases v@,
{
    let mut out = String::new();
    let mut i: usize = 0;
    while i < v.len()
        invariant
            i <= v.len(),
            out@ == binds_joined(v@.take(i as int)),
        decreases v.len() - i,
    {
        let t = binding_element_to_text(&v[i].value);
        proof {
            assert(v@.take(i as int + 1).drop_last() =~= v@.take(i as int));
            assert(v@.take(i as int + 1).last() == v@[i as int]);
            if i == 0 {
                assert(v@.take(1)[0] == v@[0]);
            }
        }
        if i > 0 {
            out.append(", ");
        }
        out.append(t.as_str());
        i = i + 1;
    }
    assert(v@.take(v.len() as int) =~= v@);
    out
}

/// The texts of the nodes, separated by `, `.
#[verifier::spinoff_prover]
pub fn fields_to_text(v: &Vec<Node<InterfaceField>>) -> (r: String)
    ensures
        r@ == fields_joined(v@),
    decreases v@,
{
    let mut out = String::new();
    let mut i: usize = 0;
    while i < v.len()
        invariant
            i <= v.len(),
            out@ == fields_joined(v@.take(i as int)),
        decreases v.len() - i,
    {
        let t = interface_field_to_text(&v[i].value);
        proof {
            assert(v@.take(i as int + 1).drop_last() =~= v@.take(i as int));
            assert(v@.take(i as int + 1).last() == v@[i as int]);
            if i == 0 {
                assert(v@.take(1)[0] == v@[0]);
            }
        }
        if i > 0 {
            out.append(", ");
        }
        out.append(t.as_str());
        i = i + 1;
    }
    assert(v@.take(v.len() as int) =~= v@);
    out
}

} // verus!
