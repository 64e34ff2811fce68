//! The parser: recursive descent over the token sequence.
//!
//! A [`Parser`] owns the tokens and one cursor into them. The cursor only
//! moves forward, and never past the `EOF` token.

pub mod expressions;
pub mod helpers;
pub mod laws;
pub mod model;
pub mod statements;

use vstd::prelude::*;
use crate::ast::expressions::{Expression, ExpressionView};
use crate::ast::statements::{Statement, StatementView};
use crate::error::{ParseError, ParseErrorKind};
use crate::parser::model::{
    at_end, check, ends_with_eof, error_at, expect, expect_identifier, Outcome,
};
use crate::token::{token_views, Token, TokenType, TokenView};

verus! {

/// What a step of the parser that gives a token amounts to, when the cursor
/// stands at `next` afterwards.
pub open spec fn token_outcome(r: Result<Token, ParseError>, next: int) -> Outcome<TokenView> {
    match r {
        Ok(token) => Ok((token@, next)),
        Err(e) => Err(e@),
    }
}

/// What a step of the parser that gives a text amounts to, when the cursor
/// stands at `next` afterwards.
pub open spec fn text_outcome(r: Result<String, ParseError>, next: int) -> Outcome<Seq<char>> {
    match r {
        Ok(text) => Ok((text@, next)),
        Err(e) => Err(e@),
    }
}

/// What a step of the parser that gives an expression amounts to, when the
/// cursor stands at `next` afterwards.
pub open spec fn expression_outcome(r: Result<Expression, ParseError>, next: int) -> Outcome<
    ExpressionView,
> {
    match r {
        Ok(expression) => Ok((expression.view(), next)),
        Err(e) => Err(e@),
    }
}

/// What a step of the parser that gives a statement amounts to, when the
/// cursor stands at `next` afterwards.
pub open spec fn statement_outcome(r: Result<Statement, ParseError>, next: int) -> Outcome<
    StatementView,
> {
    match r {
        Ok(statement) => Ok((statement.view(), next)),
        Err(e) => Err(e@),
    }
}

/// A parser over a token sequence.
pub struct Parser {
    tokens: Vec<Token>,
    current: usize,
}

impl Parser {
    /// The tokens that the parser walks.
    pub closed spec fn tokens(&self) -> Seq<TokenView> {
        token_views(self.tokens@)
    }

    /// The index of the token under the cursor.
    pub closed spec fn position(&self) -> int {
        self.current as int
    }

    /// The parser's invariant: the tokens end with `EOF` and the cursor is on
    /// one of them.
    pub open spec fn wf(&self) -> bool {
        ends_with_eof(self.tokens()) && 0 <= self.position() < self.tokens().len()
    }

    /// A parser at the start of `tokens`, which must end with the `EOF` token.
    pub fn new(tokens: Vec<Token>) -> (parser: Self)
        requires
            ends_with_eof(token_views(tokens@)),
        ensures
            parser.wf(),
            parser.tokens() == token_views(tokens@),
            parser.position() == 0,
    {
        Parser { tokens, current: 0 }
    }

    /// Whether the cursor is on the `EOF` token.
    pub fn is_at_end(&self) -> (r: bool)
        requires
            self.wf(),
        ensures
            r == at_end(self.tokens(), self.position()),
    {
        self.peek().token_type == TokenType::EOF
    }

    /// The token under the cursor.
    pub fn peek(&self) -> (token: &Token)
        requires
            self.wf(),
        ensures
            token@ == self.tokens()[self.position()],
    {
        &self.tokens[self.current]
    }

    /// The token before the cursor: the one consumed last.
    pub fn previous(&self) -> (token: &Token)
        requires
            self.wf(),
            self.position() > 0,
        ensures
            token@ == self.tokens()[self.position() - 1],
    {
        &self.tokens[self.current - 1]
    }

    /// Moves the cursor to the next token, unless it is on `EOF`, and gives the
    /// token before the cursor.
    pub fn advance(&mut self) -> (token: &Token)
        requires
            old(self).wf(),
            old(self).position() > 0 || !at_end(old(self).tokens(), old(self).position()),
        ensures
            final(self).wf(),
            final(self).tokens() == old(self).tokens(),
            final(self).position() == if at_end(old(self).tokens(), old(self).position()) {
                old(self).position()
            } else {
                old(self).position() + 1
            },
            token@ == old(self).tokens()[final(self).position() - 1],
    {
        if !self.is_at_end() {
            proof {
                vstd::std_specs::vec::axiom_spec_len(&self.tokens);
            }
            self.current += 1;
        }
        self.previous()
    }

    /// Whether the token under the cursor is of kind `token_type` and is not
    /// the `EOF` token.
    pub fn check(&self, token_type: TokenType) -> (r: bool)
        requires
            self.wf(),
        ensures
            r == check(self.tokens(), self.position(), token_type),
    {
        !self.is_at_end() && self.peek().token_type == token_type
    }

    /// Consumes the token under the cursor if it is of one of the kinds in
    /// `types` and is not `EOF`, and says whether it did.
    pub fn match_token(&mut self, types: &[TokenType]) -> (r: bool)
        requires
            old(self).wf(),
        ensures
            final(self).wf(),
            final(self).tokens() == old(self).tokens(),
            r == exists|i: int|
                0 <= i < types@.len() && check(
                    old(self).tokens(),
                    old(self).position(),
                    #[trigger] types@[i],
                ),
            final(self).position() == if r {
                old(self).position() + 1
            } else {
                old(self).position()
            },
    {
        let mut i: usize = 0;
        while i < types.len()
            invariant
                i <= types@.len(),
                self.wf(),
                *self == *old(self),
                forall|j: int|
                    0 <= j < i ==> !check(self.tokens(), self.position(), #[trigger] types@[j]),
            decreases types@.len() - i,
        {
            if self.check(types[i]) {
                self.advance();
                return true;
            }
            i += 1;
        }
        false
    }

    /// An error of kind `kind` at the token under the cursor.
    pub fn error_here(&self, kind: ParseErrorKind, message: &str) -> (e: ParseError)
        requires
            self.wf(),
        ensures
            e@ == error_at(self.tokens(), self.position(), kind, message@),
    {
        let token = self.peek();
        ParseError {
            kind,
            line: token.line,
            lexeme: token.value.clone(),
            message: message.to_owned(),
        }
    }

    /// Consumes a token of kind `token_type`, or fails with `message`, leaving
    /// the cursor where it was.
    pub fn consume(&mut self, token_type: TokenType, message: &str) -> (r: Result<
        Token,
        ParseError,
    >)
        requires
            old(self).wf(),
        ensures
            final(self).wf(),
            final(self).tokens() == old(self).tokens(),
            token_outcome(r, final(self).position()) == expect(
                old(self).tokens(),
                old(self).position(),
                token_type,
                message@,
            ),
            r is Err ==> final(self).position() == old(self).position(),
    {
        if self.check(token_type) {
            Ok(self.advance().clone())
        } else {
            Err(self.error_here(ParseErrorKind::ExpectedToken, message))
        }
    }

    /// Consumes an identifier and gives its name, or fails with `message`,
    /// leaving the cursor where it was.
    pub fn consume_identifier(&mut self, message: &str) -> (r: Result<String, ParseError>)
        requires
            old(self).wf(),
        ensures
            final(self).wf(),
            final(self).tokens() == old(self).tokens(),
            text_outcome(r, final(self).position()) == expect_identifier(
                old(self).tokens(),
                old(self).position(),
                message@,
            ),
            r is Err ==> final(self).position() == old(self).position(),
    {
        match self.consume(TokenType::Identifier, message) {
            Ok(token) => Ok(token.value),
            Err(e) => Err(e),
        }
    }
}

} // verus!
