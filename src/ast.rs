//! The syntax tree that the parser builds. Every node carries the source
//! range of the tokens it was parsed from.
use vstd::prelude::*;
use crate::model as m;
use crate::token::SourceRange;

verus! {

/// A parsed value with the source range it was parsed from.
#[derive(Debug)]
pub struct Node<T> {
    pub value: T,
    pub range: SourceRange,
}

pub type Verbatim = Node<String>;

pub type ParsedVec<T> = Node<Vec<Node<T>>>;

pub type InnerExpression = Box<Node<Expression>>;

pub type InnerStatement = Box<Node<Statement>>;

#[derive(Clone, Copy, Debug, PartialEq, Eq, Structural)]
pub enum CompareOp {
    Equal,
    NotEqual,
    LessThanOrEqual,
    GreaterThanOrEqual,
    LessThan,
    GreaterThan,
}

#[derive(Clone, Copy, Debug, PartialEq, Eq, Structural)]
pub enum ArithmeticOp {
    Add,
    Subtract,
    Multiply,
    Divide,
    Modulus,
}

#[derive(Clone, Copy, Debug, PartialEq, Eq, Structural)]
pub enum UnaryOp {
    Negate,
    Minus,
}

#[derive(Debug)]
pub struct Module {
    pub declarations: Vec<Node<Declaration>>,
}

#[derive(Debug)]
pub struct GenericParameter {
    pub name: Verbatim,
    pub constraint: Option<Node<TypeConstraint>>,
}

#[derive(Debug)]
pub enum Declaration {
    Main { main_keyword: Verbatim, body: InnerExpression },
    Const {
        const_keyword: Verbatim,
        identifier: Verbatim,
        type_: Option<Node<TypeConstraint>>,
        equals_token: Verbatim,
        value: InnerExpression,
    },
    Function {
        function_keyword: Verbatim,
        identifier: Verbatim,
        generic_parameters: Option<ParsedVec<GenericParameter>>,
        parameters: ParsedVec<ParameterDeclaration>,
        constraint: Option<Node<TypeConstraint>>,
        arrow_token: Verbatim,
        body: InnerExpression,
    },
    Import {
        import_keyword: Verbatim,
        pattern: Node<BindingPattern>,
        equal_token: Verbatim,
        use_keyword: Verbatim,
        module_specifier: Node<String>,
    },
    Export { export_keyword: Verbatim, elements: ParsedVec<RecordElement> },
    TypeAlias {
        type_keyword: Verbatim,
        name: Verbatim,
        generic_parameters: Option<ParsedVec<GenericParameter>>,
        equals_token: Verbatim,
        value: Node<Type>,
    },
    Interface {
        interface_keyword: Verbatim,
        name: Verbatim,
        generic_parameters: Option<ParsedVec<GenericParameter>>,
        constraint: Option<Node<TypeConstraint>>,
        body: ParsedVec<InterfaceField>,
    },
}

#[derive(Debug)]
pub struct InterfaceField {
    pub name: Verbatim,
    pub constraint: Node<TypeConstraint>,
}

#[derive(Debug)]
pub enum Expression {
    Number(String),
    String(String),
    Boolean(bool),
    Name(String),
    Hole,
    NoneLiteral,
    As { expr: InnerExpression, as_token: Verbatim, type_: Box<Node<Type>> },
    Unary { operator: Node<UnaryOp>, expression: InnerExpression },
    Compare {
        operator: Node<CompareOp>,
        left: InnerExpression,
        right: InnerExpression,
    },
    Arithmetic {
        operator: Node<ArithmeticOp>,
        left: InnerExpression,
        right: InnerExpression,
    },
    Accessor { accessee: InnerExpression, index: InnerExpression },
    Function {
        fn_keyword: Verbatim,
        name: Option<Verbatim>,
        generic_parameters: Option<ParsedVec<GenericParameter>>,
        parameters: ParsedVec<ParameterDeclaration>,
        constraint: Option<Node<TypeConstraint>>,
        arrow_token: Verbatim,
        body: InnerExpression,
    },
    Call { callee: InnerExpression, parameters: ParsedVec<Expression> },
    With { with_keyword: Verbatim, bindings: ParsedVec<Assignment>, body: InnerExpression },
    Tuple { elements: ParsedVec<Expression> },
    List { elements: ParsedVec<Expression> },
    Procedure { body: ParsedVec<Statement> },
    If {
        if_keyword: Verbatim,
        condition: InnerExpression,
        then_keyword: Verbatim,
        then: InnerExpression,
        else_keyword: Verbatim,
        _else: InnerExpression,
    },
    Record { elements: ParsedVec<RecordElement> },
    FieldAccess { accessee: InnerExpression, field: Verbatim },
}

#[derive(Debug)]
pub struct TypeConstraint {
    pub colon_token: Verbatim,
    pub type_: Box<Node<Type>>,
}

#[derive(Debug)]
pub enum Type {
    Kind,
    Never,
    Unknown,
    Reference { name: Verbatim, generic_parameters: Option<ParsedVec<Type>> },
    Union { left: Box<Node<Type>>, right: Box<Node<Type>> },
    Tuple { members: ParsedVec<Type> },
    Function {
        fn_keyword: Verbatim,
        parameters: ParsedVec<Type>,
        arrow_token: Verbatim,
        return_type: Box<Node<Type>>,
    },
}

#[derive(Debug)]
pub struct ParameterDeclaration {
    pub name: Verbatim,
    pub type_: Option<Node<TypeConstraint>>,
}

#[derive(Debug)]
pub struct Assignment {
    pub symbol: Verbatim,
    pub equal_token: Verbatim,
    pub value: Node<Expression>,
}

#[derive(Debug)]
pub enum RecordElement {
    KeyValuePair { key: Verbatim, value: Node<Expression> },
    Identifier { name: Verbatim },
    Spread { value: Node<Expression> },
}

#[derive(Debug)]
pub enum Statement {
    Let { let_keyword: Verbatim, assignment: Node<Assignment> },
    Assign(Node<Assignment>),
    If {
        if_keyword: Verbatim,
        condition: InnerExpression,
        then: InnerStatement,
        _else: Option<InnerStatement>,
    },
    ForIn {
        for_keyword: Verbatim,
        binding: Verbatim,
        in_keyword: Verbatim,
        iterator: InnerExpression,
        body: InnerStatement,
    },
    Forever(InnerStatement),
    Do(InnerExpression),
    Break,
    Continue,
    Pass,
    Expression(InnerExpression),
}

#[derive(Debug)]
pub enum BindingPattern {
    Identifier { name: Verbatim },
    Tuple { patterns: ParsedVec<BindingPattern> },
    Record { elements: ParsedVec<RecordBindingElement> },
}

#[derive(Debug)]
pub enum RecordBindingElement {
    Identifier { name: Verbatim },
    KeyValuePair { name: Verbatim, pattern: Node<BindingPattern> },
    Rest { name: Verbatim },
}

} // verus!
