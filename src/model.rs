//! Mathematical models of the syntax tree: the same shapes as the
//! executable tree in `ast`, with sequences in place of vectors.
use vstd::prelude::*;
use crate::ast::{ArithmeticOp, CompareOp, Node, UnaryOp};

verus! {

pub type Verbatim = Node<String>;

pub type ParsedSeq<T> = Node<Seq<Node<T>>>;

pub struct Module {
    pub declarations: Seq<Node<Declaration>>,
}

pub struct GenericParameter {
    pub name: Verbatim,
    pub constraint: Option<Node<TypeConstraint>>,
}

pub enum Declaration {
    Main { main_keyword: Verbatim, body: Box<Node<Expression>> },
    Const {
        const_keyword: Verbatim,
        identifier: Verbatim,
        type_: Option<Node<TypeConstraint>>,
        equals_token: Verbatim,
        value: Box<Node<Expression>>,
    },
    Function {
        function_keyword: Verbatim,
        identifier: Verbatim,
        generic_parameters: Option<ParsedSeq<GenericParameter>>,
        parameters: ParsedSeq<ParameterDeclaration>,
        constraint: Option<Node<TypeConstraint>>,
        arrow_token: Verbatim,
        body: Box<Node<Expression>>,
    },
    Import {
        import_keyword: Verbatim,
        pattern: Node<BindingPattern>,
        equal_token: Verbatim,
        use_keyword: Verbatim,
        module_specifier: Node<String>,
    },
    Export { export_keyword: Verbatim, elements: ParsedSeq<RecordElement> },
    TypeAlias {
        type_keyword: Verbatim,
        name: Verbatim,
        generic_parameters: Option<ParsedSeq<GenericParameter>>,
        equals_token: Verbatim,
        value: Node<Type>,
    },
    Interface {
        interface_keyword: Verbatim,
        name: Verbatim,
        generic_parameters: Option<ParsedSeq<GenericParameter>>,
        constraint: Option<Node<TypeConstraint>>,
        body: ParsedSeq<InterfaceField>,
    },
}

pub struct InterfaceField {
    pub name: Verbatim,
    pub constraint: Node<TypeConstraint>,
}

pub enum Expression {
    Number(String),
    String(String),
    Boolean(bool),
    Name(String),
    Hole,
    NoneLiteral,
    As { expr: Box<Node<Expression>>, as_token: Verbatim, type_: Box<Node<Type>> },
    Unary { operator: Node<UnaryOp>, expression: Box<Node<Expression>> },
    Compare {
        operator: Node<CompareOp>,
        left: Box<Node<Expression>>,
        right: Box<Node<Expression>>,
    },
    Arithmetic {
        operator: Node<ArithmeticOp>,
        left: Box<Node<Expression>>,
        right: Box<Node<Expression>>,
    },
    Accessor { accessee: Box<Node<Expression>>, index: Box<Node<Expression>> },
    Function {
        fn_keyword: Verbatim,
        name: Option<Verbatim>,
        generic_parameters: Option<ParsedSeq<GenericParameter>>,
        parameters: ParsedSeq<ParameterDeclaration>,
        constraint: Option<Node<TypeConstraint>>,
        arrow_token: Verbatim,
        body: Box<Node<Expression>>,
    },
    Call { callee: Box<Node<Expression>>, parameters: ParsedSeq<Expression> },
    With { with_keyword: Verbatim, bindings: ParsedSeq<Assignment>, body: Box<Node<Expression>> },
    Tuple { elements: ParsedSeq<Expression> },
    List { elements: ParsedSeq<Expression> },
    Procedure { body: ParsedSeq<Statement> },
    If {
        if_keyword: Verbatim,
        condition: Box<Node<Expression>>,
        then_keyword: Verbatim,
        then: Box<Node<Expression>>,
        else_keyword: Verbatim,
        _else: Box<Node<Expression>>,
    },
    Record { elements: ParsedSeq<RecordElement> },
    FieldAccess { accessee: Box<Node<Expression>>, field: Verbatim },
}

pub struct TypeConstraint {
    pub colon_token: Verbatim,
    pub type_: Box<Node<Type>>,
}

pub enum Type {
    Kind,
    Never,
    Unknown,
    Reference { name: Verbatim, generic_parameters: Option<ParsedSeq<Type>> },
    Union { left: Box<Node<Type>>, right: Box<Node<Type>> },
    Tuple { members: ParsedSeq<Type> },
    Function {
        fn_keyword: Verbatim,
        parameters: ParsedSeq<Type>,
        arrow_token: Verbatim,
        return_type: Box<Node<Type>>,
    },
}

pub struct ParameterDeclaration {
    pub name: Verbatim,
    pub type_: Option<Node<TypeConstraint>>,
}

pub struct Assignment {
    pub symbol: Verbatim,
    pub equal_token: Verbatim,
    pub value: Node<Expression>,
}

pub enum RecordElement {
    KeyValuePair { key: Verbatim, value: Node<Expression> },
    Identifier { name: Verbatim },
    Spread { value: Node<Expression> },
}

pub enum Statement {
    Let { let_keyword: Verbatim, assignment: Node<Assignment> },
    Assign(Node<Assignment>),
    If {
        if_keyword: Verbatim,
        condition: Box<Node<Expression>>,
        then: Box<Node<Statement>>,
        _else: Option<Box<Node<Statement>>>,
    },
    ForIn {
        for_keyword: Verbatim,
        binding: Verbatim,
        in_keyword: Verbatim,
        iterator: Box<Node<Expression>>,
        body: Box<Node<Statement>>,
    },
    Forever(Box<Node<Statement>>),
    Do(Box<Node<Expression>>),
    Break,
    Continue,
    Pass,
    Expression(Box<Node<Expression>>),
}

pub enum BindingPattern {
    Identifier { name: Verbatim },
    Tuple { patterns: ParsedSeq<BindingPattern> },
    Record { elements: ParsedSeq<RecordBindingElement> },
}

pub enum RecordBindingElement {
    Identifier { name: Verbatim },
    KeyValuePair { name: Verbatim, pattern: Node<BindingPattern> },
    Rest { name: Verbatim },
}

} // verus!
