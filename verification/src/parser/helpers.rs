//! Small questions about single tokens.

use vstd::prelude::*;
use crate::ast::expressions::{BinaryOp, UnaryOp};
use crate::grammar::{Comparator, Keyword, Logical, Operator, Type};
use crate::parser::model::{binary_op_of, unary_op_of, Precedence};
use crate::token::{Token, TokenType};

verus! {

/// Whether the token is an identifier.
pub fn is_identifier(token: &Token) -> (r: bool)
    ensures
        r == (token.token_type == TokenType::Identifier),
{
    token.token_type == TokenType::Identifier
}

/// Whether a token of kind `kind` is a literal value: `true`, `false`, `null`,
/// a number, or `string`.
pub open spec fn is_literal_kind(kind: TokenType) -> bool {
    ||| kind == TokenType::Keyword(Keyword::True)
    ||| kind == TokenType::Keyword(Keyword::False)
    ||| kind == TokenType::Type(Type::Null)
    ||| kind == TokenType::Number
    ||| kind == TokenType::Type(Type::String)
}

/// Whether the token is a literal value: `true`, `false`, `null`, a number,
/// or `string`.
pub fn is_literal(token: &Token) -> (r: bool)
    ensures
        r == is_literal_kind(token.token_type),
{
    match token.token_type {
        TokenType::Keyword(Keyword::True) => true,
        TokenType::Keyword(Keyword::False) => true,
        TokenType::Type(Type::Null) => true,
        TokenType::Number => true,
        TokenType::Type(Type::String) => true,
        _ => false,
    }
}

/// The binary operator that the token stands for, if any.
pub fn token_to_binary_op(token: &Token) -> (r: Option<BinaryOp>)
    ensures
        r == binary_op_of(token.token_type),
{
    match token.token_type {
        TokenType::Operator(Operator::Add) => Some(BinaryOp::Add),
        TokenType::Operator(Operator::Subtract) => Some(BinaryOp::Sub),
        TokenType::Operator(Operator::Multiply) => Some(BinaryOp::Mul),
        TokenType::Operator(Operator::Divide) => Some(BinaryOp::Div),
        TokenType::Comparator(Comparator::Equal) => Some(BinaryOp::Eq),
        TokenType::Comparator(Comparator::NotEqual) => Some(BinaryOp::Neq),
        TokenType::Comparator(Comparator::Greater) => Some(BinaryOp::Gt),
        TokenType::Comparator(Comparator::GreaterEqual) => Some(BinaryOp::Gte),
        TokenType::Comparator(Comparator::Less) => Some(BinaryOp::Lt),
        TokenType::Comparator(Comparator::LessEqual) => Some(BinaryOp::Lte),
        TokenType::Logical(Logical::And) => Some(BinaryOp::And),
        TokenType::Logical(Logical::Or) => Some(BinaryOp::Or),
        _ => None,
    }
}

/// The unary operator that the token stands for, if any.
pub fn token_to_unary_op(token: &Token) -> (r: Option<UnaryOp>)
    ensures
        r == unary_op_of(token.token_type),
{
    match token.token_type {
        TokenType::Logical(Logical::Not) => Some(UnaryOp::Not),
        TokenType::Operator(Operator::Subtract) => Some(UnaryOp::Neg),
        _ => None,
    }
}

/// The level of a binary operator.
pub fn precedence_of(op: BinaryOp) -> (level: Precedence)
    ensures
        level == Precedence::of(op),
{
    match op {
        BinaryOp::Mul | BinaryOp::Div => Precedence::Factor,
        BinaryOp::Add | BinaryOp::Sub => Precedence::Term,
        BinaryOp::Gt | BinaryOp::Gte | BinaryOp::Lt | BinaryOp::Lte => Precedence::Comparison,
        BinaryOp::Eq | BinaryOp::Neq => Precedence::Equality,
        BinaryOp::And => Precedence::LogicalAnd,
        BinaryOp::Or => Precedence::LogicalOr,
    }
}

} // verus!
