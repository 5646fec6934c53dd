//! The statements and expressions that the interpreter executes.

use vstd::prelude::*;

verus! {

/// The operator of a binary expression.
#[derive(Debug, Clone, Copy, PartialEq, Eq, Structural)]
pub enum BiOperator {
    Add,
    Subtract,
    Multiply,
}

/// One part of a template string: literal text, or an expression whose value
/// is put in its place.
#[derive(Debug, PartialEq, Eq)]
pub enum TemplateStringExpressionPart {
    String(String),
    Expression(Expression),
}

#[derive(Debug, PartialEq, Eq)]
pub enum PrimaryExpression {
    /// The value of a variable.
    Reference(String),
    IntegerLiteral(i64),
    StringLiteral(String),
    TemplateString { parts: Vec<TemplateStringExpressionPart> },
}

#[derive(Debug, PartialEq, Eq)]
pub struct BiExpression {
    pub operator: BiOperator,
    pub lhs: Box<Expression>,
    pub rhs: Box<Expression>,
}

#[derive(Debug, PartialEq, Eq)]
pub struct FunctionCallExpression {
    pub function_identifier: String,
    pub arguments: Vec<Expression>,
}

#[derive(Debug, PartialEq, Eq)]
pub enum Expression {
    Function(FunctionCallExpression),
    BiExpression(BiExpression),
    Primary(PrimaryExpression),
}

/// The integers from `start` up to, not including, `end`.
#[derive(Debug, PartialEq, Eq)]
pub struct RangeExpression {
    pub start: PrimaryExpression,
    pub end: PrimaryExpression,
}

#[derive(Debug, PartialEq, Eq)]
pub struct ForStatement {
    pub iterator_name: String,
    pub range: RangeExpression,
    pub body: Vec<Statement>,
}

#[derive(Debug, PartialEq, Eq)]
pub struct FunctionStatement {
    pub name: String,
    pub body: Vec<Statement>,
}

#[derive(Debug, PartialEq, Eq)]
pub enum Statement {
    Expression(Expression),
    For(ForStatement),
    Function(FunctionStatement),
}

} // verus!
