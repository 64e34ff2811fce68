//! What holds of every parse: a parse that succeeds ends after the position
//! where it began, and before the end of the token sequence. The `EOF` token
//! is never consumed.

use vstd::prelude::*;
use crate::ast::expressions::ExpressionView;
use crate::ast::statements::StatementView;
use crate::grammar::{Keyword, Symbol};
use crate::parser::model::{
    advanced, arguments, assignment, at_end, binary, binary_rest, block, call, call_rest, check,
    do_while_statement, do_while_tail, ends_with_eof, expect, expect_identifier, expression,
    for_header, for_statement, function_declaration, function_header, if_statement, kind_at,
    map_outcome, more_arguments, more_parameters, operand, parameters, parenthesized, primary,
    return_statement, statement, ternary, then_expect, unary, unary_op_of, variable_declaration,
    while_statement, Outcome, Precedence,
};
use crate::token::{TokenType, TokenView};

verus! {

/// Whether `r`, if it succeeded, ended after `pos` and before the end of `ts`.
pub open spec fn moves_forward<T>(ts: Seq<TokenView>, pos: int, r: Outcome<T>) -> bool {
    r matches Ok((_, next)) ==> pos < next < ts.len()
}

/// Whether `r`, if it succeeded, ended at or after `pos` and before the end of
/// `ts`.
pub open spec fn stays_within<T>(ts: Seq<TokenView>, pos: int, r: Outcome<T>) -> bool {
    r matches Ok((_, next)) ==> pos <= next < ts.len()
}

/// An outcome that moves forward passes `advanced` unchanged.
pub proof fn lemma_advanced_is_identity<T>(ts: Seq<TokenView>, from: int, pos: int, r: Outcome<T>)
    requires
        from <= pos,
        moves_forward(ts, pos, r),
    ensures
        advanced(ts, from, r) == r,
{
}

/// A required token, once found, is consumed, and it is never the last one.
proof fn lemma_expect_advances(ts: Seq<TokenView>, pos: int, kind: TokenType, message: Seq<char>)
    requires
        ends_with_eof(ts),
    ensures
        expect(ts, pos, kind, message) matches Ok((_, next)) ==> 0 <= pos && next == pos + 1
            && next < ts.len(),
        expect_identifier(ts, pos, message) matches Ok((_, next)) ==> 0 <= pos && next == pos + 1
            && next < ts.len(),
        check(ts, pos, kind) ==> 0 <= pos && pos + 1 < ts.len(),
{
}

/// A required token after a parse keeps the parse moving forward.
proof fn lemma_then_expect_advances<T>(
    ts: Seq<TokenView>,
    pos: int,
    r: Outcome<T>,
    kind: TokenType,
    message: Seq<char>,
)
    requires
        ends_with_eof(ts),
        stays_within(ts, pos, r),
    ensures
        moves_forward(ts, pos, then_expect(r, ts, kind, message)),
{
    if let Ok((_, next)) = r {
        lemma_expect_advances(ts, next, kind, message);
    }
}

/// An expression that parses ends after its start, and never consumes the
/// `EOF` token.
pub proof fn lemma_expression_advances(ts: Seq<TokenView>, pos: int)
    requires
        ends_with_eof(ts),
        0 <= pos < ts.len(),
    ensures
        moves_forward(ts, pos, expression(ts, pos)),
    decreases ts.len() - pos, 18int,
{
    lemma_assignment_advances(ts, pos);
}

/// An assignment that parses moves forward.
proof fn lemma_assignment_advances(ts: Seq<TokenView>, pos: int)
    requires
        ends_with_eof(ts),
        0 <= pos < ts.len(),
    ensures
        moves_forward(ts, pos, assignment(ts, pos)),
    decreases ts.len() - pos, 17int,
{
    lemma_ternary_advances(ts, pos);
    if let Ok((_, equals)) = ternary(ts, pos) {
        if check(ts, equals, TokenType::Symbol(Symbol::Define)) {
            lemma_assignment_advances(ts, equals + 1);
        }
    }
}

/// A conditional expression that parses moves forward.
proof fn lemma_ternary_advances(ts: Seq<TokenView>, pos: int)
    requires
        ends_with_eof(ts),
        0 <= pos < ts.len(),
    ensures
        moves_forward(ts, pos, ternary(ts, pos)),
    decreases ts.len() - pos, 16int,
{
    lemma_binary_advances(ts, pos, Precedence::LogicalOr);
    if let Ok((_, question)) = binary(ts, pos, Precedence::LogicalOr) {
        if check(ts, question, TokenType::Symbol(Symbol::Question)) {
            lemma_expression_advances(ts, question + 1);
            let then_part = then_expect(
                expression(ts, question + 1),
                ts,
                TokenType::Symbol(Symbol::Colon),
                "Expected ':' in ternary expression"@,
            );
            lemma_then_expect_advances(
                ts,
                question + 1,
                expression(ts, question + 1),
                TokenType::Symbol(Symbol::Colon),
                "Expected ':' in ternary expression"@,
            );
            if let Ok((_, after_colon)) = then_part {
                lemma_expression_advances(ts, after_colon);
            }
        }
    }
}

/// An operand that parses moves forward.
proof fn lemma_operand_advances(ts: Seq<TokenView>, pos: int, level: Precedence)
    requires
        ends_with_eof(ts),
        0 <= pos < ts.len(),
    ensures
        moves_forward(ts, pos, operand(ts, pos, level)),
    decreases ts.len() - pos, 4 + 2 * level.rank(),
{
    match level.tighter() {
        Some(inner) => lemma_binary_advances(ts, pos, inner),
        None => lemma_unary_advances(ts, pos),
    }
}

/// A chain of binary operators that parses moves forward.
proof fn lemma_binary_advances(ts: Seq<TokenView>, pos: int, level: Precedence)
    requires
        ends_with_eof(ts),
        0 <= pos < ts.len(),
    ensures
        moves_forward(ts, pos, binary(ts, pos, level)),
    decreases ts.len() - pos, 5 + 2 * level.rank(),
{
    lemma_operand_advances(ts, pos, level);
    if let Ok((left, next)) = operand(ts, pos, level) {
        lemma_binary_rest_advances(ts, next, level, left);
    }
}

/// The rest of a chain never moves backwards.
proof fn lemma_binary_rest_advances(
    ts: Seq<TokenView>,
    pos: int,
    level: Precedence,
    left: ExpressionView,
)
    requires
        ends_with_eof(ts),
        0 <= pos < ts.len(),
    ensures
        stays_within(ts, pos, binary_rest(ts, pos, level, left)),
    decreases ts.len() - pos, 5 + 2 * level.rank(),
{
    if let Some(op) = level.operator_at(ts, pos) {
        lemma_operand_advances(ts, pos + 1, level);
        if let Ok((right, next)) = operand(ts, pos + 1, level) {
            lemma_binary_rest_advances(
                ts,
                next,
                level,
                ExpressionView::Binary { left: Box::new(left), op, right: Box::new(right) },
            );
        }
    }
}

/// A unary expression that parses moves forward.
proof fn lemma_unary_advances(ts: Seq<TokenView>, pos: int)
    requires
        ends_with_eof(ts),
        0 <= pos < ts.len(),
    ensures
        moves_forward(ts, pos, unary(ts, pos)),
    decreases ts.len() - pos, 3int,
{
    if unary_op_of(kind_at(ts, pos)) is Some {
        lemma_unary_advances(ts, pos + 1);
    } else {
        lemma_call_advances(ts, pos);
    }
}

/// A call expression that parses moves forward.
proof fn lemma_call_advances(ts: Seq<TokenView>, pos: int)
    requires
        ends_with_eof(ts),
        0 <= pos < ts.len(),
    ensures
        moves_forward(ts, pos, call(ts, pos)),
    decreases ts.len() - pos, 2int,
{
    lemma_primary_advances(ts, pos);
    if let Ok((callee, next)) = primary(ts, pos) {
        lemma_call_rest_advances(ts, next, callee);
    }
}

/// The calls and property accesses after a callee never move backwards.
proof fn lemma_call_rest_advances(ts: Seq<TokenView>, pos: int, callee: ExpressionView)
    requires
        ends_with_eof(ts),
        0 <= pos < ts.len(),
    ensures
        stays_within(ts, pos, call_rest(ts, pos, callee)),
    decreases ts.len() - pos, 2int,
{
    if check(ts, pos, TokenType::Symbol(Symbol::OpenParen)) {
        lemma_arguments_advance(ts, pos + 1);
        lemma_then_expect_advances(
            ts,
            pos + 1,
            arguments(ts, pos + 1),
            TokenType::Symbol(Symbol::CloseParen),
            "Expected ')' after arguments"@,
        );
        if let Ok((args, next)) = then_expect(
            arguments(ts, pos + 1),
            ts,
            TokenType::Symbol(Symbol::CloseParen),
            "Expected ')' after arguments"@,
        ) {
            lemma_call_rest_advances(
                ts,
                next,
                ExpressionView::Call { function: Box::new(callee), args },
            );
        }
    } else if check(ts, pos, TokenType::Symbol(Symbol::Dot)) {
        lemma_expect_advances(
            ts,
            pos + 1,
            TokenType::Identifier,
            "Expected a property name after '.'"@,
        );
        if let Ok((name, next)) = expect_identifier(
            ts,
            pos + 1,
            "Expected a property name after '.'"@,
        ) {
            lemma_call_rest_advances(
                ts,
                next,
                ExpressionView::Get { object: Box::new(callee), name },
            );
        }
    }
}

/// A list of arguments never moves backwards.
proof fn lemma_arguments_advance(ts: Seq<TokenView>, pos: int)
    requires
        ends_with_eof(ts),
        0 <= pos < ts.len(),
    ensures
        stays_within(ts, pos, arguments(ts, pos)),
    decreases ts.len() - pos, 20int,
{
    if !check(ts, pos, TokenType::Symbol(Symbol::CloseParen)) {
        lemma_more_arguments_advance(ts, pos, Seq::empty());
    }
}

/// A list of at least one argument moves forward.
proof fn lemma_more_arguments_advance(ts: Seq<TokenView>, pos: int, args: Seq<ExpressionView>)
    requires
        ends_with_eof(ts),
        0 <= pos < ts.len(),
    ensures
        moves_forward(ts, pos, more_arguments(ts, pos, args)),
    decreases ts.len() - pos, 19int,
{
    lemma_expression_advances(ts, pos);
    if let Ok((arg, next)) = expression(ts, pos) {
        if check(ts, next, TokenType::Symbol(Symbol::Comma)) {
            lemma_more_arguments_advance(ts, next + 1, args.push(arg));
        }
    }
}

/// A primary expression that parses moves forward.
proof fn lemma_primary_advances(ts: Seq<TokenView>, pos: int)
    requires
        ends_with_eof(ts),
        0 <= pos < ts.len(),
    ensures
        moves_forward(ts, pos, primary(ts, pos)),
    decreases ts.len() - pos, 1int,
{
    if kind_at(ts, pos) == TokenType::Symbol(Symbol::OpenParen) {
        lemma_expression_advances(ts, pos + 1);
        lemma_then_expect_advances(
            ts,
            pos + 1,
            expression(ts, pos + 1),
            TokenType::Symbol(Symbol::CloseParen),
            "Expected ')' after expression"@,
        );
    }
}

/// A parenthesized expression that parses moves forward.
proof fn lemma_parenthesized_advances(
    ts: Seq<TokenView>,
    pos: int,
    open_message: Seq<char>,
    close_message: Seq<char>,
)
    requires
        ends_with_eof(ts),
        0 <= pos < ts.len(),
    ensures
        moves_forward(ts, pos, parenthesized(ts, pos, open_message, close_message)),
{
    lemma_expect_advances(ts, pos, TokenType::Symbol(Symbol::OpenParen), open_message);
    if let Ok((_, next)) = expect(ts, pos, TokenType::Symbol(Symbol::OpenParen), open_message) {
        lemma_expression_advances(ts, next);
        lemma_then_expect_advances(
            ts,
            next,
            expression(ts, next),
            TokenType::Symbol(Symbol::CloseParen),
            close_message,
        );
    }
}

/// A variable declaration that parses moves forward.
proof fn lemma_variable_declaration_advances(ts: Seq<TokenView>, pos: int)
    requires
        ends_with_eof(ts),
        0 <= pos < ts.len(),
    ensures
        moves_forward(ts, pos, variable_declaration(ts, pos)),
{
    lemma_expect_advances(ts, pos, TokenType::Identifier, "Expected variable name"@);
    if let Ok((name, next)) = expect_identifier(ts, pos, "Expected variable name"@) {
        if check(ts, next, TokenType::Symbol(Symbol::Define)) {
            lemma_expression_advances(ts, next + 1);
            if let Ok((_, end)) = expression(ts, next + 1) {
                lemma_expect_advances(
                    ts,
                    end,
                    TokenType::Symbol(Symbol::Semicolon),
                    "Expected ';' after declaration"@,
                );
            }
        } else {
            lemma_expect_advances(
                ts,
                next,
                TokenType::Symbol(Symbol::Semicolon),
                "Expected ';' after declaration"@,
            );
        }
    }
}

/// A return statement that parses moves forward.
proof fn lemma_return_statement_advances(ts: Seq<TokenView>, pos: int)
    requires
        ends_with_eof(ts),
        0 <= pos < ts.len(),
    ensures
        moves_forward(ts, pos, return_statement(ts, pos)),
{
    if !check(ts, pos, TokenType::Symbol(Symbol::Semicolon)) {
        lemma_expression_advances(ts, pos);
        if let Ok((_, end)) = expression(ts, pos) {
            lemma_expect_advances(
                ts,
                end,
                TokenType::Symbol(Symbol::Semicolon),
                "Expected ';' after 'return'"@,
            );
        }
    }
}

/// A list of at least one parameter name moves forward.
proof fn lemma_more_parameters_advance(ts: Seq<TokenView>, pos: int, names: Seq<Seq<char>>)
    requires
        ends_with_eof(ts),
        0 <= pos < ts.len(),
    ensures
        moves_forward(ts, pos, more_parameters(ts, pos, names)),
    decreases ts.len() - pos,
{
    if let Ok((name, next)) = expect_identifier(ts, pos, "Expected parameter name"@) {
        if check(ts, next, TokenType::Symbol(Symbol::Comma)) {
            lemma_more_parameters_advance(ts, next + 1, names.push(name));
        }
    }
}

/// A function header that parses moves forward.
proof fn lemma_function_header_advances(ts: Seq<TokenView>, pos: int)
    requires
        ends_with_eof(ts),
        0 <= pos < ts.len(),
    ensures
        moves_forward(ts, pos, function_header(ts, pos)),
{
    let after_name = if check(ts, pos, TokenType::Identifier) {
        pos + 1
    } else {
        pos
    };
    if let Ok((_, next)) = expect(
        ts,
        after_name,
        TokenType::Symbol(Symbol::OpenParen),
        "Expected '(' after 'fn'"@,
    ) {
        if !check(ts, next, TokenType::Symbol(Symbol::CloseParen)) {
            lemma_more_parameters_advance(ts, next, Seq::empty());
        }
        if let Ok((_, after_names)) = parameters(ts, next) {
            if let Ok((_, after_paren)) = expect(
                ts,
                after_names,
                TokenType::Symbol(Symbol::CloseParen),
                "Expected ')' after parameters"@,
            ) {
                lemma_expect_advances(
                    ts,
                    after_paren,
                    TokenType::Symbol(Symbol::OpenBrace),
                    "Expected '{' before function body"@,
                );
            }
        }
    }
}

/// The header of a `for` loop that parses moves forward.
proof fn lemma_for_header_advances(ts: Seq<TokenView>, pos: int)
    requires
        ends_with_eof(ts),
        0 <= pos < ts.len(),
    ensures
        moves_forward(ts, pos, for_header(ts, pos)),
{
    if let Ok((_, next)) = expect(
        ts,
        pos,
        TokenType::Symbol(Symbol::OpenParen),
        "Expected '(' after 'for'"@,
    ) {
        if check(ts, next, TokenType::Keyword(Keyword::Let)) {
            lemma_variable_declaration_advances(ts, next + 1);
            if let Ok((_, after_init)) = variable_declaration(ts, next + 1) {
                lemma_expression_advances(ts, after_init);
                lemma_then_expect_advances(
                    ts,
                    after_init,
                    expression(ts, after_init),
                    TokenType::Symbol(Symbol::Semicolon),
                    "Expected ';' after condition"@,
                );
                if let Ok((_, after_condition)) = then_expect(
                    expression(ts, after_init),
                    ts,
                    TokenType::Symbol(Symbol::Semicolon),
                    "Expected ';' after condition"@,
                ) {
                    lemma_expression_advances(ts, after_condition);
                    if let Ok((_, end)) = expression(ts, after_condition) {
                        lemma_expect_advances(
                            ts,
                            end,
                            TokenType::Symbol(Symbol::CloseParen),
                            "Expected ')' after increment"@,
                        );
                    }
                }
            }
        } else {
            if let Ok((_, after_in)) = then_expect(
                expect_identifier(ts, next, "Expected variable name"@),
                ts,
                TokenType::Keyword(Keyword::In),
                "Expected 'in' in for loop"@,
            ) {
                lemma_expression_advances(ts, after_in);
                if let Ok((_, end)) = expression(ts, after_in) {
                    lemma_expect_advances(
                        ts,
                        end,
                        TokenType::Symbol(Symbol::CloseParen),
                        "Expected ')' after iterable expression"@,
                    );
                }
            }
        }
    }
}

/// The tail of a `do` loop that parses moves forward.
proof fn lemma_do_while_tail_advances(ts: Seq<TokenView>, pos: int)
    requires
        ends_with_eof(ts),
        0 <= pos < ts.len(),
    ensures
        moves_forward(ts, pos, do_while_tail(ts, pos)),
{
    if let Ok((_, next)) = expect(
        ts,
        pos,
        TokenType::Keyword(Keyword::While),
        "Expected 'while' after 'do' block"@,
    ) {
        lemma_parenthesized_advances(
            ts,
            next,
            "Expected '(' after 'while'"@,
            "Expected ')' after condition"@,
        );
        lemma_then_expect_advances(
            ts,
            next,
            parenthesized(
                ts,
                next,
                "Expected '(' after 'while'"@,
                "Expected ')' after condition"@,
            ),
            TokenType::Symbol(Symbol::Semicolon),
            "Expected ';' after do-while"@,
        );
    }
}

/// A statement that parses ends after its start, and never consumes the
/// `EOF` token.
pub proof fn lemma_statement_advances(ts: Seq<TokenView>, pos: int)
    requires
        ends_with_eof(ts),
        0 <= pos < ts.len(),
    ensures
        moves_forward(ts, pos, statement(ts, pos)),
    decreases ts.len() - pos, 0int,
{
    if check(ts, pos, TokenType::Keyword(Keyword::Let)) {
        lemma_variable_declaration_advances(ts, pos + 1);
    } else if check(ts, pos, TokenType::Keyword(Keyword::Fn)) {
        lemma_function_declaration_advances(ts, pos + 1);
    } else if check(ts, pos, TokenType::Keyword(Keyword::If)) {
        lemma_if_statement_advances(ts, pos + 1);
    } else if check(ts, pos, TokenType::Keyword(Keyword::While)) {
        lemma_while_statement_advances(ts, pos + 1);
    } else if check(ts, pos, TokenType::Keyword(Keyword::Do)) {
        lemma_do_while_statement_advances(ts, pos + 1);
    } else if check(ts, pos, TokenType::Keyword(Keyword::For)) {
        lemma_for_statement_advances(ts, pos + 1);
    } else if check(ts, pos, TokenType::Keyword(Keyword::Back)) {
        lemma_return_statement_advances(ts, pos + 1);
    } else if check(ts, pos, TokenType::Keyword(Keyword::Break)) {
    } else if check(ts, pos, TokenType::Keyword(Keyword::Continue)) {
    } else if check(ts, pos, TokenType::Symbol(Symbol::OpenBrace)) {
        lemma_block_advances(ts, pos + 1, Seq::empty());
    } else {
        lemma_expression_advances(ts, pos);
        lemma_then_expect_advances(
            ts,
            pos,
            map_outcome(
                expression(ts, pos),
                |value: ExpressionView| StatementView::Expression(value),
            ),
            TokenType::Symbol(Symbol::Semicolon),
            "Expected ';' after expression"@,
        );
    }
}

/// A block that parses moves forward.
proof fn lemma_block_advances(ts: Seq<TokenView>, pos: int, statements: Seq<StatementView>)
    requires
        ends_with_eof(ts),
        0 <= pos < ts.len(),
    ensures
        moves_forward(ts, pos, block(ts, pos, statements)),
    decreases ts.len() - pos, 1int,
{
    if !check(ts, pos, TokenType::Symbol(Symbol::CloseBrace)) && !at_end(ts, pos) {
        lemma_statement_advances(ts, pos);
        if let Ok((s, next)) = statement(ts, pos) {
            lemma_block_advances(ts, next, statements.push(s));
        }
    }
}

/// A function declaration that parses moves forward.
proof fn lemma_function_declaration_advances(ts: Seq<TokenView>, pos: int)
    requires
        ends_with_eof(ts),
        0 <= pos < ts.len(),
    ensures
        moves_forward(ts, pos, function_declaration(ts, pos)),
    decreases ts.len() - pos, 1int,
{
    lemma_function_header_advances(ts, pos);
    if let Ok((_, next)) = function_header(ts, pos) {
        lemma_block_advances(ts, next, Seq::empty());
    }
}

/// A conditional statement that parses moves forward.
proof fn lemma_if_statement_advances(ts: Seq<TokenView>, pos: int)
    requires
        ends_with_eof(ts),
        0 <= pos < ts.len(),
    ensures
        moves_forward(ts, pos, if_statement(ts, pos)),
    decreases ts.len() - pos, 1int,
{
    lemma_parenthesized_advances(
        ts,
        pos,
        "Expected '(' after 'if'"@,
        "Expected ')' after condition"@,
    );
    if let Ok((_, next)) = parenthesized(
        ts,
        pos,
        "Expected '(' after 'if'"@,
        "Expected ')' after condition"@,
    ) {
        lemma_statement_advances(ts, next);
        if let Ok((_, after_then)) = statement(ts, next) {
            if check(ts, after_then, TokenType::Keyword(Keyword::Else)) {
                lemma_statement_advances(ts, after_then + 1);
            }
        }
    }
}

/// A `while` loop that parses moves forward.
proof fn lemma_while_statement_advances(ts: Seq<TokenView>, pos: int)
    requires
        ends_with_eof(ts),
        0 <= pos < ts.len(),
    ensures
        moves_forward(ts, pos, while_statement(ts, pos)),
    decreases ts.len() - pos, 1int,
{
    lemma_parenthesized_advances(
        ts,
        pos,
        "Expected '(' after 'while'"@,
        "Expected ')' after condition"@,
    );
    if let Ok((_, next)) = parenthesized(
        ts,
        pos,
        "Expected '(' after 'while'"@,
        "Expected ')' after condition"@,
    ) {
        lemma_statement_advances(ts, next);
    }
}

/// A `do` loop that parses moves forward.
proof fn lemma_do_while_statement_advances(ts: Seq<TokenView>, pos: int)
    requires
        ends_with_eof(ts),
        0 <= pos < ts.len(),
    ensures
        moves_forward(ts, pos, do_while_statement(ts, pos)),
    decreases ts.len() - pos, 1int,
{
    lemma_statement_advances(ts, pos);
    if let Ok((_, next)) = statement(ts, pos) {
        lemma_do_while_tail_advances(ts, next);
    }
}

/// A `for` loop that parses moves forward.
proof fn lemma_for_statement_advances(ts: Seq<TokenView>, pos: int)
    requires
        ends_with_eof(ts),
        0 <= pos < ts.len(),
    ensures
        moves_forward(ts, pos, for_statement(ts, pos)),
    decreases ts.len() - pos, 1int,
{
    lemma_for_header_advances(ts, pos);
    if let Ok((_, next)) = for_header(ts, pos) {
        lemma_statement_advances(ts, next);
    }
}

} // verus!
