//! The abstract syntax tree.

pub mod expressions;
pub mod statements;

pub use expressions::{BinaryOp, Expression, ExpressionView, UnaryOp};
pub use statements::{Statement, StatementView};
