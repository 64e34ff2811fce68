//! Parsing statements: the leading token of a statement decides its form.

use vstd::prelude::*;
use crate::ast::expressions::Expression;
use crate::ast::statements::{
    optional_text_view, statement_views, text_views, Statement, StatementView,
};
use crate::error::ParseError;
use crate::grammar::{Keyword, Symbol};
use crate::parser::model::{
    at_end, block, do_while_tail, do_while_statement, for_header, for_statement, function_declaration,
    function_header, if_statement, more_parameters, parameters, parenthesized, program,
    return_statement, statement, variable_declaration, while_statement, ForHeader, Outcome,
};
use crate::parser::{expression_outcome, statement_outcome, Parser};
use crate::token::TokenType;

verus! {

/// What a step of the parser that gives a list of statements amounts to, when
/// the cursor stands at `next` afterwards.
pub open spec fn statements_outcome(r: Result<Vec<Statement>, ParseError>, next: int) -> Outcome<
    Seq<StatementView>,
> {
    match r {
        Ok(statements) => Ok((statement_views(statements@), next)),
        Err(e) => Err(e@),
    }
}

/// What a run of the parser over a whole program amounts to.
pub open spec fn program_outcome(r: Result<Vec<Statement>, ParseError>) -> Result<
    Seq<StatementView>,
    crate::error::ParseErrorView,
> {
    match r {
        Ok(statements) => Ok(statement_views(statements@)),
        Err(e) => Err(e@),
    }
}

/// What a step of the parser that gives a list of names amounts to, when the
/// cursor stands at `next` afterwards.
pub open spec fn names_outcome(r: Result<Vec<String>, ParseError>, next: int) -> Outcome<
    Seq<Seq<char>>,
> {
    match r {
        Ok(names) => Ok((text_views(names@), next)),
        Err(e) => Err(e@),
    }
}

/// The part of a `for` loop between its parentheses.
pub enum LoopHeader {
    /// `let` declaration, condition and increment.
    CStyle { init: Statement, condition: Expression, increment: Expression },
    /// Loop variable and iterable.
    In { variable: String, iterable: Expression },
}

impl LoopHeader {
    /// The mathematical value of the header.
    pub open spec fn view(&self) -> ForHeader {
        match self {
            LoopHeader::CStyle { init, condition, increment } => ForHeader::CStyle {
                init: init.view(),
                condition: condition.view(),
                increment: increment.view(),
            },
            LoopHeader::In { variable, iterable } => ForHeader::In {
                variable: variable@,
                iterable: iterable.view(),
            },
        }
    }
}

/// The block that holds `statements`.
fn block_of(statements: Vec<Statement>) -> (s: Statement)
    ensures
        s.view() == StatementView::Block(statement_views(statements@)),
{
    let s = Statement::Block(statements);
    assert(s.view()->Block_0 =~= statement_views(statements@));
    s
}

/// The function with the given name, parameters and body.
fn function_of(name: Option<String>, params: Vec<String>, body: Vec<Statement>) -> (s: Statement)
    ensures
        s.view() == (StatementView::Function {
            name: optional_text_view(name),
            params: text_views(params@),
            body: statement_views(body@),
        }),
{
    let s = Statement::Function { name, params, body };
    assert(s.view()->Function_body =~= statement_views(body@));
    s
}

impl Parser {
    /// Parses `( expression )`, with the messages for a missing `(` and a
    /// missing `)`.
    fn parse_parenthesized(&mut self, open_message: &str, close_message: &str) -> (r: Result<
        Expression,
        ParseError,
    >)
        requires
            old(self).wf(),
        ensures
            final(self).follows(old(self)),
            expression_outcome(r, final(self).position()) == parenthesized(
                old(self).tokens(),
                old(self).position(),
                open_message@,
                close_message@,
            ),
            r is Ok ==> final(self).position() > old(self).position(),
    {
        match self.consume(TokenType::Symbol(Symbol::OpenParen), open_message) {
            Ok(_) => {},
            Err(e) => {
                return Err(e);
            },
        }
        let inner = match self.parse_expression() {
            Ok(e) => e,
            Err(e) => {
                return Err(e);
            },
        };
        match self.consume(TokenType::Symbol(Symbol::CloseParen), close_message) {
            Ok(_) => Ok(inner),
            Err(e) => Err(e),
        }
    }

    /// Parses what follows `let`: a name, an optional initial value, and `;`.
    fn parse_variable_declaration(&mut self) -> (r: Result<Statement, ParseError>)
        requires
            old(self).wf(),
        ensures
            final(self).follows(old(self)),
            statement_outcome(r, final(self).position()) == variable_declaration(
                old(self).tokens(),
                old(self).position(),
            ),
            r is Ok ==> final(self).position() > old(self).position(),
    {
        let name = match self.consume_identifier("Expected variable name") {
            Ok(n) => n,
            Err(e) => {
                return Err(e);
            },
        };
        let initializer = if self.check(TokenType::Symbol(Symbol::Define)) {
            self.advance();
            match self.parse_expression() {
                Ok(e) => Some(e),
                Err(e) => {
                    return Err(e);
                },
            }
        } else {
            None
        };
        match self.consume(TokenType::Symbol(Symbol::Semicolon), "Expected ';' after declaration") {
            Ok(_) => Ok(Statement::Variable { name, initializer }),
            Err(e) => Err(e),
        }
    }

    /// Parses what follows the keyword that returns from a function: an
    /// optional value and `;`.
    fn parse_return_statement(&mut self) -> (r: Result<Statement, ParseError>)
        requires
            old(self).wf(),
        ensures
            final(self).follows(old(self)),
            statement_outcome(r, final(self).position()) == return_statement(
                old(self).tokens(),
                old(self).position(),
            ),
            r is Ok ==> final(self).position() > old(self).position(),
    {
        let value = if !self.check(TokenType::Symbol(Symbol::Semicolon)) {
            match self.parse_expression() {
                Ok(e) => Some(e),
                Err(e) => {
                    return Err(e);
                },
            }
        } else {
            None
        };
        match self.consume(TokenType::Symbol(Symbol::Semicolon), "Expected ';' after 'return'") {
            Ok(_) => Ok(Statement::Return(value)),
            Err(e) => Err(e),
        }
    }

    /// Parses the parameter names of a function, up to but not including the
    /// `)`.
    fn parse_parameters(&mut self) -> (r: Result<Vec<String>, ParseError>)
        requires
            old(self).wf(),
        ensures
            final(self).follows(old(self)),
            names_outcome(r, final(self).position()) == parameters(
                old(self).tokens(),
                old(self).position(),
            ),
    {
        let ghost ts = self.tokens();
        let ghost goal = parameters(ts, self.position());
        let mut names: Vec<String> = Vec::new();
        assert(text_views(names@) == Seq::<Seq<char>>::empty());
        if self.check(TokenType::Symbol(Symbol::CloseParen)) {
            return Ok(names);
        }
        loop
            invariant_except_break
                more_parameters(ts, self.position(), text_views(names@)) == goal,
            invariant
                self.wf(),
                self.tokens() == ts,
                ts == old(self).tokens(),
                goal == parameters(ts, old(self).position()),
                self.position() >= old(self).position(),
            ensures
                goal matches Ok(done) && done == (text_views(names@), self.position()),
            decreases ts.len() - self.position(),
        {
            let ghost before = text_views(names@);
            let name = match self.consume_identifier("Expected parameter name") {
                Ok(n) => n,
                Err(e) => {
                    return Err(e);
                },
            };
            names.push(name);
            assert(text_views(names@) == before.push(name@));
            if !self.check(TokenType::Symbol(Symbol::Comma)) {
                break;
            }
            self.advance();
        }
        Ok(names)
    }

    /// Parses the header of a function: an optional name, the parameter names
    /// in parentheses, and the `{` that opens the body.
    fn parse_function_header(&mut self) -> (r: Result<(Option<String>, Vec<String>), ParseError>)
        requires
            old(self).wf(),
        ensures
            final(self).follows(old(self)),
            function_header(old(self).tokens(), old(self).position()) == (match r {
                Ok((name, params)) => Ok(
                    ((optional_text_view(name), text_views(params@)), final(self).position()),
                ),
                Err(e) => Err(e@),
            }),
            r is Ok ==> final(self).position() > old(self).position(),
    {
        let name = if self.check(TokenType::Identifier) {
            Some(self.advance().value.clone())
        } else {
            None
        };
        match self.consume(TokenType::Symbol(Symbol::OpenParen), "Expected '(' after 'fn'") {
            Ok(_) => {},
            Err(e) => {
                return Err(e);
            },
        }
        let params = match self.parse_parameters() {
            Ok(p) => p,
            Err(e) => {
                return Err(e);
            },
        };
        match self.consume(TokenType::Symbol(Symbol::CloseParen), "Expected ')' after parameters") {
            Ok(_) => {},
            Err(e) => {
                return Err(e);
            },
        }
        match self.consume(
            TokenType::Symbol(Symbol::OpenBrace),
            "Expected '{' before function body",
        ) {
            Ok(_) => Ok((name, params)),
            Err(e) => Err(e),
        }
    }

    /// Parses what follows the body of a `do` loop: `while ( condition ) ;`.
    fn parse_do_while_tail(&mut self) -> (r: Result<Expression, ParseError>)
        requires
            old(self).wf(),
        ensures
            final(self).follows(old(self)),
            expression_outcome(r, final(self).position()) == do_while_tail(
                old(self).tokens(),
                old(self).position(),
            ),
    {
        match self.consume(
            TokenType::Keyword(Keyword::While),
            "Expected 'while' after 'do' block",
        ) {
            Ok(_) => {},
            Err(e) => {
                return Err(e);
            },
        }
        let condition = match self.parse_parenthesized(
            "Expected '(' after 'while'",
            "Expected ')' after condition",
        ) {
            Ok(c) => c,
            Err(e) => {
                return Err(e);
            },
        };
        match self.consume(TokenType::Symbol(Symbol::Semicolon), "Expected ';' after do-while") {
            Ok(_) => Ok(condition),
            Err(e) => Err(e),
        }
    }

    /// Parses the part of a `for` loop between its parentheses, parentheses
    /// included.
    fn parse_for_header(&mut self) -> (r: Result<LoopHeader, ParseError>)
        requires
            old(self).wf(),
        ensures
            final(self).follows(old(self)),
            for_header(old(self).tokens(), old(self).position()) == (match r {
                Ok(header) => Ok((header.view(), final(self).position())),
                Err(e) => Err(e@),
            }),
            r is Ok ==> final(self).position() > old(self).position(),
    {
        match self.consume(TokenType::Symbol(Symbol::OpenParen), "Expected '(' after 'for'") {
            Ok(_) => {},
            Err(e) => {
                return Err(e);
            },
        }
        if self.check(TokenType::Keyword(Keyword::Let)) {
            self.advance();
            let init = match self.parse_variable_declaration() {
                Ok(s) => s,
                Err(e) => {
                    return Err(e);
                },
            };
            let condition = match self.parse_expression() {
                Ok(c) => c,
                Err(e) => {
                    return Err(e);
                },
            };
            match self.consume(
                TokenType::Symbol(Symbol::Semicolon),
                "Expected ';' after condition",
            ) {
                Ok(_) => {},
                Err(e) => {
                    return Err(e);
                },
            }
            let increment = match self.parse_expression() {
                Ok(i) => i,
                Err(e) => {
                    return Err(e);
                },
            };
            match self.consume(
                TokenType::Symbol(Symbol::CloseParen),
                "Expected ')' after increment",
            ) {
                Ok(_) => Ok(LoopHeader::CStyle { init, condition, increment }),
                Err(e) => Err(e),
            }
        } else {
            let variable = match self.consume_identifier("Expected variable name") {
                Ok(v) => v,
                Err(e) => {
                    return Err(e);
                },
            };
            match self.consume(TokenType::Keyword(Keyword::In), "Expected 'in' in for loop") {
                Ok(_) => {},
                Err(e) => {
                    return Err(e);
                },
            }
            let iterable = match self.parse_expression() {
                Ok(i) => i,
                Err(e) => {
                    return Err(e);
                },
            };
            match self.consume(
                TokenType::Symbol(Symbol::CloseParen),
                "Expected ')' after iterable expression",
            ) {
                Ok(_) => Ok(LoopHeader::In { variable, iterable }),
                Err(e) => Err(e),
            }
        }
    }

    /// Parses one statement.
    pub fn parse_statement(&mut self) -> (r: Result<Statement, ParseError>)
        requires
            old(self).wf(),
        ensures
            final(self).follows(old(self)),
            statement_outcome(r, final(self).position()) == statement(
                old(self).tokens(),
                old(self).position(),
            ),
            r is Ok ==> final(self).position() > old(self).position(),
        decreases old(self).tokens().len() - old(self).position(), 0int,
    {
        if self.check(TokenType::Keyword(Keyword::Let)) {
            self.advance();
            self.parse_variable_declaration()
        } else if self.check(TokenType::Keyword(Keyword::Fn)) {
            self.advance();
            self.parse_function_declaration()
        } else if self.check(TokenType::Keyword(Keyword::If)) {
            self.advance();
            self.parse_if_statement()
        } else if self.check(TokenType::Keyword(Keyword::While)) {
            self.advance();
            self.parse_while_statement()
        } else if self.check(TokenType::Keyword(Keyword::Do)) {
            self.advance();
            self.parse_do_while_statement()
        } else if self.check(TokenType::Keyword(Keyword::For)) {
            self.advance();
            self.parse_for_statement()
        } else if self.check(TokenType::Keyword(Keyword::Back)) {
            self.advance();
            self.parse_return_statement()
        } else if self.check(TokenType::Keyword(Keyword::Break)) {
            self.advance();
            match self.consume(TokenType::Symbol(Symbol::Semicolon), "Expected ';' after 'break'") {
                Ok(_) => Ok(Statement::Break),
                Err(e) => Err(e),
            }
        } else if self.check(TokenType::Keyword(Keyword::Continue)) {
            self.advance();
            match self.consume(
                TokenType::Symbol(Symbol::Semicolon),
                "Expected ';' after 'continue'",
            ) {
                Ok(_) => Ok(Statement::Continue),
                Err(e) => Err(e),
            }
        } else if self.check(TokenType::Symbol(Symbol::OpenBrace)) {
            self.advance();
            match self.parse_block() {
                Ok(statements) => Ok(block_of(statements)),
                Err(e) => Err(e),
            }
        } else {
            let value = match self.parse_expression() {
                Ok(e) => e,
                Err(e) => {
                    return Err(e);
                },
            };
            match self.consume(
                TokenType::Symbol(Symbol::Semicolon),
                "Expected ';' after expression",
            ) {
                Ok(_) => Ok(Statement::Expression(value)),
                Err(e) => Err(e),
            }
        }
    }

    /// Parses the statements of a block and the `}` that closes it.
    fn parse_block(&mut self) -> (r: Result<Vec<Statement>, ParseError>)
        requires
            old(self).wf(),
        ensures
            final(self).follows(old(self)),
            statements_outcome(r, final(self).position()) == block(
                old(self).tokens(),
                old(self).position(),
                Seq::empty(),
            ),
            r is Ok ==> final(self).position() > old(self).position(),
        decreases old(self).tokens().len() - old(self).position(), 1int,
    {
        let ghost ts = self.tokens();
        let ghost goal = block(ts, self.position(), Seq::empty());
        let mut statements: Vec<Statement> = Vec::new();
        assert(statement_views(statements@) == Seq::<StatementView>::empty());
        while !self.check(TokenType::Symbol(Symbol::CloseBrace)) && !self.is_at_end()
            invariant
                self.wf(),
                self.tokens() == ts,
                ts == old(self).tokens(),
                goal == block(ts, old(self).position(), Seq::empty()),
                self.position() >= old(self).position(),
                block(ts, self.position(), statement_views(statements@)) == goal,
            decreases ts.len() - self.position(),
        {
            let ghost before = statement_views(statements@);
            let s = match self.parse_statement() {
                Ok(s) => s,
                Err(e) => {
                    return Err(e);
                },
            };
            statements.push(s);
            assert(statement_views(statements@) == before.push(s.view()));
        }
        match self.consume(TokenType::Symbol(Symbol::CloseBrace), "Expected '}' after block") {
            Ok(_) => Ok(statements),
            Err(e) => Err(e),
        }
    }

    /// Parses what follows `fn`: the header of a function and its body.
    fn parse_function_declaration(&mut self) -> (r: Result<Statement, ParseError>)
        requires
            old(self).wf(),
        ensures
            final(self).follows(old(self)),
            statement_outcome(r, final(self).position()) == function_declaration(
                old(self).tokens(),
                old(self).position(),
            ),
            r is Ok ==> final(self).position() > old(self).position(),
        decreases old(self).tokens().len() - old(self).position(), 1int,
    {
        let (name, params) = match self.parse_function_header() {
            Ok(header) => header,
            Err(e) => {
                return Err(e);
            },
        };
        match self.parse_block() {
            Ok(body) => Ok(function_of(name, params, body)),
            Err(e) => Err(e),
        }
    }

    /// Parses what follows `if`: the condition, the statement to run when it
    /// holds, and after `else` the statement to run when it does not.
    fn parse_if_statement(&mut self) -> (r: Result<Statement, ParseError>)
        requires
            old(self).wf(),
        ensures
            final(self).follows(old(self)),
            statement_outcome(r, final(self).position()) == if_statement(
                old(self).tokens(),
                old(self).position(),
            ),
            r is Ok ==> final(self).position() > old(self).position(),
        decreases old(self).tokens().len() - old(self).position(), 1int,
    {
        let condition = match self.parse_parenthesized(
            "Expected '(' after 'if'",
            "Expected ')' after condition",
        ) {
            Ok(c) => c,
            Err(e) => {
                return Err(e);
            },
        };
        let then_branch = match self.parse_statement() {
            Ok(s) => s,
            Err(e) => {
                return Err(e);
            },
        };
        if self.check(TokenType::Keyword(Keyword::Else)) {
            self.advance();
            match self.parse_statement() {
                Ok(else_branch) => Ok(
                    Statement::If {
                        condition,
                        then_branch: Box::new(then_branch),
                        else_branch: Some(Box::new(else_branch)),
                    },
                ),
                Err(e) => Err(e),
            }
        } else {
            Ok(Statement::If { condition, then_branch: Box::new(then_branch), else_branch: None })
        }
    }

    /// Parses what follows `while`: the condition and the body.
    fn parse_while_statement(&mut self) -> (r: Result<Statement, ParseError>)
        requires
            old(self).wf(),
        ensures
            final(self).follows(old(self)),
            statement_outcome(r, final(self).position()) == while_statement(
                old(self).tokens(),
                old(self).position(),
            ),
            r is Ok ==> final(self).position() > old(self).position(),
        decreases old(self).tokens().len() - old(self).position(), 1int,
    {
        let condition = match self.parse_parenthesized(
            "Expected '(' after 'while'",
            "Expected ')' after condition",
        ) {
            Ok(c) => c,
            Err(e) => {
                return Err(e);
            },
        };
        match self.parse_statement() {
            Ok(body) => Ok(Statement::While { condition, body: Box::new(body) }),
            Err(e) => Err(e),
        }
    }

    /// Parses what follows `do`: the body, then `while ( condition ) ;`.
    fn parse_do_while_statement(&mut self) -> (r: Result<Statement, ParseError>)
        requires
            old(self).wf(),
        ensures
            final(self).follows(old(self)),
            statement_outcome(r, final(self).position()) == do_while_statement(
                old(self).tokens(),
                old(self).position(),
            ),
            r is Ok ==> final(self).position() > old(self).position(),
        decreases old(self).tokens().len() - old(self).position(), 1int,
    {
        let body = match self.parse_statement() {
            Ok(s) => s,
            Err(e) => {
                return Err(e);
            },
        };
        match self.parse_do_while_tail() {
            Ok(condition) => Ok(Statement::DoWhile { body: Box::new(body), condition }),
            Err(e) => Err(e),
        }
    }

    /// Parses what follows `for`: the header of either form and the body.
    fn parse_for_statement(&mut self) -> (r: Result<Statement, ParseError>)
        requires
            old(self).wf(),
        ensures
            final(self).follows(old(self)),
            statement_outcome(r, final(self).position()) == for_statement(
                old(self).tokens(),
                old(self).position(),
            ),
            r is Ok ==> final(self).position() > old(self).position(),
        decreases old(self).tokens().len() - old(self).position(), 1int,
    {
        let header = match self.parse_for_header() {
            Ok(h) => h,
            Err(e) => {
                return Err(e);
            },
        };
        let body = match self.parse_statement() {
            Ok(s) => s,
            Err(e) => {
                return Err(e);
            },
        };
        match header {
            LoopHeader::CStyle { init, condition, increment } => Ok(
                Statement::ForCStyle {
                    init: Box::new(init),
                    condition,
                    increment,
                    body: Box::new(body),
                },
            ),
            LoopHeader::In { variable, iterable } => Ok(
                Statement::ForIn { variable, iterable, body: Box::new(body) },
            ),
        }
    }

    /// Parses the whole program: statement after statement, up to the `EOF`
    /// token. The first syntax error ends the parse.
    pub fn parse(&mut self) -> (r: Result<Vec<Statement>, ParseError>)
        requires
            old(self).wf(),
        ensures
            final(self).follows(old(self)),
            program_outcome(r) == program(old(self).tokens(), old(self).position(), Seq::empty()),
            r is Ok ==> at_end(final(self).tokens(), final(self).position()),
    {
        let ghost ts = self.tokens();
        let ghost goal = program(ts, self.position(), Seq::empty());
        let mut statements: Vec<Statement> = Vec::new();
        assert(statement_views(statements@) == Seq::<StatementView>::empty());
        while !self.is_at_end()
            invariant
                self.wf(),
                self.tokens() == ts,
                ts == old(self).tokens(),
                goal == program(ts, old(self).position(), Seq::empty()),
                self.position() >= old(self).position(),
                program(ts, self.position(), statement_views(statements@)) == goal,
            decreases ts.len() - self.position(),
        {
            let ghost before = statement_views(statements@);
            let s = match self.parse_statement() {
                Ok(s) => s,
                Err(e) => {
                    return Err(e);
                },
            };
            statements.push(s);
            assert(statement_views(statements@) == before.push(s.view()));
        }
        Ok(statements)
    }
}

} // verus!
