//! A front end for a small scripting language: a lexer that turns source text
//! into tokens, and a recursive-descent parser that turns tokens into a syntax
//! tree. Each phase stops at its first error.

pub mod ast;
pub mod error;
pub mod grammar;
pub mod lexer;
pub mod lexer_laws;
pub mod number;
pub mod parser;
pub mod text;
pub mod token;

use vstd::prelude::*;
use crate::ast::statements::{statement_views, Statement, StatementView};
use crate::error::LemonError;
use crate::lexer::{lex, tokenize};
use crate::parser::model::program;
use crate::parser::Parser;

verus! {

/// The syntax tree of a source text, or the text of its first error: a
/// lexical error if scanning fails, else a syntax error if parsing fails.
pub open spec fn interpretation(code: Seq<char>) -> Result<Seq<StatementView>, Seq<char>> {
    match lex(code) {
        Ok(tokens) => match program(tokens, 0, Seq::empty()) {
            Ok(statements) => Ok(statements),
            Err(e) => Err(e.text()),
        },
        Err(e) => Err(e.text()),
    }
}

/// What a run of [`interpret`] amounts to.
pub open spec fn interpret_outcome(r: Result<Vec<Statement>, LemonError>) -> Result<
    Seq<StatementView>,
    Seq<char>,
> {
    match r {
        Ok(statements) => Ok(statement_views(statements@)),
        Err(e) => Err(e.message@),
    }
}

/// Scans and parses a whole source text.
pub fn interpret(code: &str) -> (r: Result<Vec<Statement>, LemonError>)
    ensures
        interpret_outcome(r) == interpretation(code@),
{
    let tokens = match tokenize(code) {
        Ok(tokens) => tokens,
        Err(e) => {
            return Err(e.to_lemon_error());
        },
    };
    let mut parser = Parser::new(tokens);
    match parser.parse() {
        Ok(statements) => Ok(statements),
        Err(e) => Err(e.to_lemon_error()),
    }
}

} // verus!
