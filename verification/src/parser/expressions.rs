//! Parsing expressions: one function for each level of the grammar, each
//! calling the next tighter level first.

use vstd::prelude::*;
use crate::ast::expressions::{expression_views, BinaryOp, Expression, ExpressionView};
use crate::error::{ParseError, ParseErrorKind};
use crate::grammar::{Keyword, Symbol, Type};
use crate::number::is_float_text;
use crate::parser::helpers::{precedence_of, token_to_binary_op, token_to_unary_op};
use crate::parser::model::{
    arguments, assignment, binary, binary_rest, call, call_rest, expression, more_arguments,
    operand, primary, ternary, then_expect, unary, Outcome, Precedence,
};
use crate::parser::{expression_outcome, Parser};
use crate::text::collect_chars;
use crate::token::TokenType;

verus! {

/// What a step of the parser that gives a list of expressions amounts to,
/// when the cursor stands at `next` afterwards.
pub open spec fn expressions_outcome(r: Result<Vec<Expression>, ParseError>, next: int) -> Outcome<
    Seq<ExpressionView>,
> {
    match r {
        Ok(expressions) => Ok((expression_views(expressions@), next)),
        Err(e) => Err(e@),
    }
}

/// The call of `function` with the arguments `args`.
fn call_of(function: Expression, args: Vec<Expression>) -> (e: Expression)
    ensures
        e.view() == (ExpressionView::Call {
            function: Box::new(function.view()),
            args: expression_views(args@),
        }),
{
    let e = Expression::Call { function: Box::new(function), args };
    assert(e.view()->Call_args =~= expression_views(args@));
    e
}

impl Parser {
    /// Whether the parser got here from `before` by consuming tokens: the
    /// tokens are the same and the cursor is not behind.
    pub open spec fn follows(&self, before: &Parser) -> bool {
        &&& self.wf()
        &&& self.tokens() == before.tokens()
        &&& self.position() >= before.position()
    }

    /// Parses one expression.
    pub fn parse_expression(&mut self) -> (r: Result<Expression, ParseError>)
        requires
            old(self).wf(),
        ensures
            final(self).follows(old(self)),
            expression_outcome(r, final(self).position()) == expression(
                old(self).tokens(),
                old(self).position(),
            ),
            r is Ok ==> final(self).position() > old(self).position(),
        decreases old(self).tokens().len() - old(self).position(), 24int,
    {
        self.parse_assignment()
    }

    /// Parses an assignment, or whatever binds tighter.
    fn parse_assignment(&mut self) -> (r: Result<Expression, ParseError>)
        requires
            old(self).wf(),
        ensures
            final(self).follows(old(self)),
            expression_outcome(r, final(self).position()) == assignment(
                old(self).tokens(),
                old(self).position(),
            ),
            r is Ok ==> final(self).position() > old(self).position(),
        decreases old(self).tokens().len() - old(self).position(), 23int,
    {
        let target = match self.parse_ternary() {
            Ok(e) => e,
            Err(e) => {
                return Err(e);
            },
        };
        if !self.check(TokenType::Symbol(Symbol::Define)) {
            return Ok(target);
        }
        let error = self.error_here(
            ParseErrorKind::InvalidAssignmentTarget,
            "Can only assign to a variable or property",
        );
        self.advance();
        let value = match self.parse_assignment() {
            Ok(e) => e,
            Err(e) => {
                return Err(e);
            },
        };
        match target {
            Expression::Variable(name) => Ok(
                Expression::Assign { variable: name, value: Box::new(value) },
            ),
            Expression::Get { object, name } => Ok(
                Expression::SetProperty { object, name, value: Box::new(value) },
            ),
            _ => Err(error),
        }
    }

    /// Parses a conditional expression, or whatever binds tighter.
    fn parse_ternary(&mut self) -> (r: Result<Expression, ParseError>)
        requires
            old(self).wf(),
        ensures
            final(self).follows(old(self)),
            expression_outcome(r, final(self).position()) == ternary(
                old(self).tokens(),
                old(self).position(),
            ),
            r is Ok ==> final(self).position() > old(self).position(),
        decreases old(self).tokens().len() - old(self).position(), 22int,
    {
        let condition = match self.parse_logical_or() {
            Ok(e) => e,
            Err(e) => {
                return Err(e);
            },
        };
        if !self.check(TokenType::Symbol(Symbol::Question)) {
            return Ok(condition);
        }
        self.advance();
        let then_branch = match self.parse_expression() {
            Ok(e) => e,
            Err(e) => {
                return Err(e);
            },
        };
        match self.consume(TokenType::Symbol(Symbol::Colon), "Expected ':' in ternary expression") {
            Ok(_) => {},
            Err(e) => {
                return Err(e);
            },
        }
        let else_branch = match self.parse_expression() {
            Ok(e) => e,
            Err(e) => {
                return Err(e);
            },
        };
        Ok(
            Expression::Ternary {
                condition: Box::new(condition),
                then_branch: Box::new(then_branch),
                else_branch: Box::new(else_branch),
            },
        )
    }

    /// Parses a chain of `||`.
    fn parse_logical_or(&mut self) -> (r: Result<Expression, ParseError>)
        requires
            old(self).wf(),
        ensures
            final(self).follows(old(self)),
            expression_outcome(r, final(self).position()) == binary(
                old(self).tokens(),
                old(self).position(),
                Precedence::LogicalOr,
            ),
            r is Ok ==> final(self).position() > old(self).position(),
        decreases old(self).tokens().len() - old(self).position(), 21int,
    {
        self.parse_chain(Precedence::LogicalOr)
    }

    /// Parses a chain of `&&`.
    fn parse_logical_and(&mut self) -> (r: Result<Expression, ParseError>)
        requires
            old(self).wf(),
        ensures
            final(self).follows(old(self)),
            expression_outcome(r, final(self).position()) == binary(
                old(self).tokens(),
                old(self).position(),
                Precedence::LogicalAnd,
            ),
            r is Ok ==> final(self).position() > old(self).position(),
        decreases old(self).tokens().len() - old(self).position(), 18int,
    {
        self.parse_chain(Precedence::LogicalAnd)
    }

    /// Parses a chain of `==` and `!=`.
    fn parse_equality(&mut self) -> (r: Result<Expression, ParseError>)
        requires
            old(self).wf(),
        ensures
            final(self).follows(old(self)),
            expression_outcome(r, final(self).position()) == binary(
                old(self).tokens(),
                old(self).position(),
                Precedence::Equality,
            ),
            r is Ok ==> final(self).position() > old(self).position(),
        decreases old(self).tokens().len() - old(self).position(), 15int,
    {
        self.parse_chain(Precedence::Equality)
    }

    /// Parses a chain of `>`, `>=`, `<` and `<=`.
    fn parse_comparison(&mut self) -> (r: Result<Expression, ParseError>)
        requires
            old(self).wf(),
        ensures
            final(self).follows(old(self)),
            expression_outcome(r, final(self).position()) == binary(
                old(self).tokens(),
                old(self).position(),
                Precedence::Comparison,
            ),
            r is Ok ==> final(self).position() > old(self).position(),
        decreases old(self).tokens().len() - old(self).position(), 12int,
    {
        self.parse_chain(Precedence::Comparison)
    }

    /// Parses a chain of `+` and `-`.
    fn parse_term(&mut self) -> (r: Result<Expression, ParseError>)
        requires
            old(self).wf(),
        ensures
            final(self).follows(old(self)),
            expression_outcome(r, final(self).position()) == binary(
                old(self).tokens(),
                old(self).position(),
                Precedence::Term,
            ),
            r is Ok ==> final(self).position() > old(self).position(),
        decreases old(self).tokens().len() - old(self).position(), 9int,
    {
        self.parse_chain(Precedence::Term)
    }

    /// Parses a chain of `*` and `/`.
    fn parse_factor(&mut self) -> (r: Result<Expression, ParseError>)
        requires
            old(self).wf(),
        ensures
            final(self).follows(old(self)),
            expression_outcome(r, final(self).position()) == binary(
                old(self).tokens(),
                old(self).position(),
                Precedence::Factor,
            ),
            r is Ok ==> final(self).position() > old(self).position(),
        decreases old(self).tokens().len() - old(self).position(), 6int,
    {
        self.parse_chain(Precedence::Factor)
    }

    /// Parses an operand of the operators of `level`.
    fn parse_operand(&mut self, level: Precedence) -> (r: Result<Expression, ParseError>)
        requires
            old(self).wf(),
        ensures
            final(self).follows(old(self)),
            expression_outcome(r, final(self).position()) == operand(
                old(self).tokens(),
                old(self).position(),
                level,
            ),
            r is Ok ==> final(self).position() > old(self).position(),
        decreases old(self).tokens().len() - old(self).position(), 4 + 3 * level.rank(),
    {
        match level {
            Precedence::LogicalOr => self.parse_logical_and(),
            Precedence::LogicalAnd => self.parse_equality(),
            Precedence::Equality => self.parse_comparison(),
            Precedence::Comparison => self.parse_term(),
            Precedence::Term => self.parse_factor(),
            Precedence::Factor => self.parse_unary(),
        }
    }

    /// The operator of `level` that the token under the cursor stands for.
    fn operator_here(&self, level: Precedence) -> (r: Option<BinaryOp>)
        requires
            self.wf(),
        ensures
            r == level.operator_at(self.tokens(), self.position()),
    {
        match token_to_binary_op(self.peek()) {
            Some(op) => if precedence_of(op) == level {
                Some(op)
            } else {
                None
            },
            None => None,
        }
    }

    /// Parses a chain of the operators of `level`, grouping from the left.
    fn parse_chain(&mut self, level: Precedence) -> (r: Result<Expression, ParseError>)
        requires
            old(self).wf(),
        ensures
            final(self).follows(old(self)),
            expression_outcome(r, final(self).position()) == binary(
                old(self).tokens(),
                old(self).position(),
                level,
            ),
            r is Ok ==> final(self).position() > old(self).position(),
        decreases old(self).tokens().len() - old(self).position(), 5 + 3 * level.rank(),
    {
        let ghost ts = self.tokens();
        let ghost start = self.position();
        let mut left = match self.parse_operand(level) {
            Ok(e) => e,
            Err(e) => {
                return Err(e);
            },
        };
        loop
            invariant
                self.wf(),
                self.tokens() == ts,
                ts == old(self).tokens(),
                start == old(self).position(),
                start < self.position(),
                binary_rest(ts, self.position(), level, left.view()) == binary(ts, start, level),
            ensures
                level.operator_at(ts, self.position()) is None,
            decreases ts.len() - self.position(),
        {
            let found = self.operator_here(level);
            if found.is_none() {
                break;
            }
            let op = found.unwrap();
            self.advance();
            let right = match self.parse_operand(level) {
                Ok(e) => e,
                Err(e) => {
                    return Err(e);
                },
            };
            left = Expression::Binary { left: Box::new(left), op, right: Box::new(right) };
        }
        Ok(left)
    }

    /// Parses a unary operation, or whatever binds tighter.
    fn parse_unary(&mut self) -> (r: Result<Expression, ParseError>)
        requires
            old(self).wf(),
        ensures
            final(self).follows(old(self)),
            expression_outcome(r, final(self).position()) == unary(
                old(self).tokens(),
                old(self).position(),
            ),
            r is Ok ==> final(self).position() > old(self).position(),
        decreases old(self).tokens().len() - old(self).position(), 3int,
    {
        match token_to_unary_op(self.peek()) {
            Some(op) => {
                self.advance();
                match self.parse_unary() {
                    Ok(expr) => Ok(Expression::Unary { op, expr: Box::new(expr) }),
                    Err(e) => Err(e),
                }
            },
            None => self.parse_call(),
        }
    }

    /// Parses the arguments of a call, up to but not including the `)`.
    fn parse_arguments(&mut self) -> (r: Result<Vec<Expression>, ParseError>)
        requires
            old(self).wf(),
        ensures
            final(self).follows(old(self)),
            expressions_outcome(r, final(self).position()) == arguments(
                old(self).tokens(),
                old(self).position(),
            ),
        decreases old(self).tokens().len() - old(self).position(), 25int,
    {
        let ghost ts = self.tokens();
        let ghost start = self.position();
        let mut args: Vec<Expression> = Vec::new();
        if self.check(TokenType::Symbol(Symbol::CloseParen)) {
            assert(expression_views(args@) == Seq::<ExpressionView>::empty());
            return Ok(args);
        }
        assert(expression_views(args@) == Seq::<ExpressionView>::empty());
        loop
            invariant_except_break
                more_arguments(ts, self.position(), expression_views(args@)) == arguments(
                    ts,
                    start,
                ),
            invariant
                self.wf(),
                self.tokens() == ts,
                ts == old(self).tokens(),
                start == old(self).position(),
                start <= self.position(),
            ensures
                self.wf(),
                self.tokens() == ts,
                start <= self.position(),
                arguments(ts, start) matches Ok(done) && done == (
                    expression_views(args@),
                    self.position(),
                ),
            decreases ts.len() - self.position(),
        {
            let ghost before = expression_views(args@);
            let arg = match self.parse_expression() {
                Ok(e) => e,
                Err(e) => {
                    return Err(e);
                },
            };
            args.push(arg);
            assert(expression_views(args@) == before.push(arg.view()));
            if !self.check(TokenType::Symbol(Symbol::Comma)) {
                break;
            }
            self.advance();
        }
        Ok(args)
    }

    /// Parses the arguments of a call and the `)` after them.
    fn parse_call_arguments(&mut self) -> (r: Result<Vec<Expression>, ParseError>)
        requires
            old(self).wf(),
        ensures
            final(self).follows(old(self)),
            expressions_outcome(r, final(self).position()) == then_expect(
                arguments(old(self).tokens(), old(self).position()),
                old(self).tokens(),
                TokenType::Symbol(Symbol::CloseParen),
                "Expected ')' after arguments"@,
            ),
            r is Ok ==> final(self).position() > old(self).position(),
        decreases old(self).tokens().len() - old(self).position(), 26int,
    {
        let args = match self.parse_arguments() {
            Ok(a) => a,
            Err(e) => {
                return Err(e);
            },
        };
        match self.consume(TokenType::Symbol(Symbol::CloseParen), "Expected ')' after arguments") {
            Ok(_) => Ok(args),
            Err(e) => Err(e),
        }
    }

    /// Parses the calls and property accesses that follow `callee`.
    fn parse_call_rest(&mut self, callee: Expression) -> (r: Result<Expression, ParseError>)
        requires
            old(self).wf(),
        ensures
            final(self).follows(old(self)),
            expression_outcome(r, final(self).position()) == call_rest(
                old(self).tokens(),
                old(self).position(),
                callee.view(),
            ),
        decreases old(self).tokens().len() - old(self).position(), 27int,
    {
        if self.check(TokenType::Symbol(Symbol::OpenParen)) {
            self.advance();
            match self.parse_call_arguments() {
                Ok(args) => self.parse_call_rest(call_of(callee, args)),
                Err(e) => Err(e),
            }
        } else if self.check(TokenType::Symbol(Symbol::Dot)) {
            self.advance();
            match self.consume_identifier("Expected a property name after '.'") {
                Ok(name) => self.parse_call_rest(
                    Expression::Get { object: Box::new(callee), name },
                ),
                Err(e) => Err(e),
            }
        } else {
            Ok(callee)
        }
    }

    /// Parses a primary expression and the calls and property accesses that
    /// follow it.
    fn parse_call(&mut self) -> (r: Result<Expression, ParseError>)
        requires
            old(self).wf(),
        ensures
            final(self).follows(old(self)),
            expression_outcome(r, final(self).position()) == call(
                old(self).tokens(),
                old(self).position(),
            ),
            r is Ok ==> final(self).position() > old(self).position(),
        decreases old(self).tokens().len() - old(self).position(), 2int,
    {
        match self.parse_primary() {
            Ok(callee) => self.parse_call_rest(callee),
            Err(e) => Err(e),
        }
    }

    /// Parses a literal, a variable, or an expression in parentheses.
    fn parse_primary(&mut self) -> (r: Result<Expression, ParseError>)
        requires
            old(self).wf(),
        ensures
            final(self).follows(old(self)),
            expression_outcome(r, final(self).position()) == primary(
                old(self).tokens(),
                old(self).position(),
            ),
            r is Ok ==> final(self).position() > old(self).position(),
        decreases old(self).tokens().len() - old(self).position(), 1int,
    {
        let kind = self.peek().token_type;
        match kind {
            TokenType::Keyword(Keyword::False) => {
                self.advance();
                Ok(Expression::Boolean(false))
            },
            TokenType::Keyword(Keyword::True) => {
                self.advance();
                Ok(Expression::Boolean(true))
            },
            TokenType::Type(Type::Null) => {
                self.advance();
                Ok(Expression::Null)
            },
            TokenType::Number => {
                let text = self.peek().value.clone();
                let chars = collect_chars(text.as_str());
                if is_float_text(chars.as_slice()) {
                    self.advance();
                    Ok(Expression::Number(text))
                } else {
                    Err(self.error_here(ParseErrorKind::UnexpectedToken, "Invalid number"))
                }
            },
            TokenType::Type(Type::String) => {
                let text = self.advance().value.clone();
                Ok(Expression::String(text))
            },
            TokenType::Identifier => {
                let name = self.advance().value.clone();
                Ok(Expression::Variable(name))
            },
            TokenType::Symbol(Symbol::OpenParen) => {
                self.advance();
                let inner = match self.parse_expression() {
                    Ok(e) => e,
                    Err(e) => {
                        return Err(e);
                    },
                };
                match self.consume(
                    TokenType::Symbol(Symbol::CloseParen),
                    "Expected ')' after expression",
                ) {
                    Ok(_) => Ok(Expression::Grouping(Box::new(inner))),
                    Err(e) => Err(e),
                }
            },
            _ => Err(self.error_here(ParseErrorKind::UnexpectedToken, "Unexpected expression")),
        }
    }
}

} // verus!
