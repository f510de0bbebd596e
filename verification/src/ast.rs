//! The abstract syntax tree that the folding pass operates on, together with
//! its mathematical model: each tree type has a view whose identifiers are
//! sequences of characters, so that contracts can speak of trees by structure
//! alone.

use vstd::prelude::*;

verus! {

/// The four arithmetic operators of the language. Precedence is not encoded
/// here: it is already baked into the tree shape by the parser.
#[derive(Debug, Clone, Copy, PartialEq, Eq, Structural)]
pub enum Operator {
    Add,
    Subtract,
    Multiply,
    Divide,
}

/// A value: an integer literal, an unresolved identifier, or a parenthesized
/// sub-expression.
#[derive(Debug, PartialEq)]
pub enum Value {
    Integer(u8),
    Identifier(String),
    Expression(Box<Expression>),
}

/// An expression. The shape is asymmetric on purpose: the left operand of a
/// binary node is always a bare [`Value`], while the right operand is a full
/// [`Expression`], so chained operators nest to the right.
#[derive(Debug, PartialEq)]
pub enum Expression {
    Value(Box<Value>),
    Binary { left: Value, operator: Operator, right: Box<Expression> },
}

/// A statement: an assignment binding a name to an expression. Folding
/// mutates only the expression, never the name.
#[derive(Debug, PartialEq)]
pub enum Statement {
    Assign { name: String, expression: Expression },
}

/// A typed input of a program. The folding pass never reads inputs.
#[derive(Debug, PartialEq)]
pub struct Parameter {
    pub name: String,
    pub ty: String,
}

/// A program: a name, its typed inputs, and an ordered sequence of
/// statements. Statement order is evaluation order and must be preserved.
#[derive(Debug, PartialEq)]
pub struct Program {
    pub name: String,
    pub inputs: Vec<Parameter>,
    pub statements: Vec<Statement>,
}

/// Model of a [`Value`].
#[verifier::ext_equal]
pub enum ValueView {
    Integer(u8),
    Identifier(Seq<char>),
    Expression(Box<ExpressionView>),
}

/// Model of an [`Expression`].
#[verifier::ext_equal]
pub enum ExpressionView {
    Value(Box<ValueView>),
    Binary { left: ValueView, operator: Operator, right: Box<ExpressionView> },
}

/// Model of a [`Statement`].
#[verifier::ext_equal]
pub struct StatementView {
    pub name: Seq<char>,
    pub expression: ExpressionView,
}

/// Model of a [`Parameter`].
#[verifier::ext_equal]
pub struct ParameterView {
    pub name: Seq<char>,
    pub ty: Seq<char>,
}

/// Model of a [`Program`].
#[verifier::ext_equal]
pub struct ProgramView {
    pub name: Seq<char>,
    pub inputs: Seq<ParameterView>,
    pub statements: Seq<StatementView>,
}

pub open spec fn view_value(v: Value) -> ValueView
    decreases v,
{
    match v {
        Value::Integer(n) => ValueView::Integer(n),
        Value::Identifier(name) => ValueView::Identifier(name@),
        Value::Expression(e) => ValueView::Expression(Box::new(view_expression(*e))),
    }
}

pub open spec fn view_expression(e: Expression) -> ExpressionView
    decreases e,
{
    match e {
        Expression::Value(v) => ExpressionView::Value(Box::new(view_value(*v))),
        Expression::Binary { left, operator, right } => ExpressionView::Binary {
            left: view_value(left),
            operator,
            right: Box::new(view_expression(*right)),
        },
    }
}

/// Whether a value contains an identifier anywhere in it.
pub open spec fn value_has_identifier(v: ValueView) -> bool
    decreases v,
{
    match v {
        ValueView::Integer(_) => false,
        ValueView::Identifier(_) => true,
        ValueView::Expression(e) => expression_has_identifier(*e),
    }
}

/// Whether an expression contains an identifier anywhere in it.
pub open spec fn expression_has_identifier(e: ExpressionView) -> bool
    decreases e,
{
    match e {
        ExpressionView::Value(v) => value_has_identifier(*v),
        ExpressionView::Binary { left, right, .. } => value_has_identifier(left)
            || expression_has_identifier(*right),
    }
}

/// Whether an expression is a single integer literal: the fully collapsed
/// form that a successful complete fold produces.
pub open spec fn expression_is_literal(e: ExpressionView) -> bool {
    match e {
        ExpressionView::Value(v) => *v is Integer,
        ExpressionView::Binary { .. } => false,
    }
}

impl View for Value {
    type V = ValueView;

    open spec fn view(&self) -> ValueView {
        view_value(*self)
    }
}

impl View for Expression {
    type V = ExpressionView;

    open spec fn view(&self) -> ExpressionView {
        view_expression(*self)
    }
}

impl View for Statement {
    type V = StatementView;

    open spec fn view(&self) -> StatementView {
        match *self {
            Statement::Assign { name, expression } => StatementView {
                name: name@,
                expression: view_expression(expression),
            },
        }
    }
}

impl View for Parameter {
    type V = ParameterView;

    open spec fn view(&self) -> ParameterView {
        ParameterView { name: self.name@, ty: self.ty@ }
    }
}

impl View for Program {
    type V = ProgramView;

    open spec fn view(&self) -> ProgramView {
        ProgramView {
            name: self.name@,
            inputs: self.inputs@.map_values(|p: Parameter| p@),
            statements: self.statements@.map_values(|s: Statement| s@),
        }
    }
}

} // verus!
