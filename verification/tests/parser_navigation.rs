use lemon_core::ast::{BinaryOp, Expression, Statement, UnaryOp};
use lemon_core::error::{ParseError, ParseErrorKind};
use lemon_core::grammar::{Comparator, Keyword, Logical, Operator, Symbol, Type};
use lemon_core::lexer::tokenize;
use lemon_core::parser::helpers::{
    is_identifier, is_literal, precedence_of, token_to_binary_op, token_to_unary_op,
};
use lemon_core::parser::model::Precedence;
use lemon_core::parser::Parser;
use lemon_core::token::{Token, TokenType};

fn parser_over(source: &str) -> Parser {
    Parser::new(tokenize(source).expect("the source has no lexical error"))
}

fn of_kind(token_type: TokenType) -> Token {
    Token { token_type, value: "text".to_string(), line: 1, column: 1 }
}

#[test]
fn the_cursor_starts_on_the_first_token() {
    let parser = parser_over("let x;");
    assert_eq!(parser.peek().token_type, TokenType::Keyword(Keyword::Let));
    assert_eq!(parser.peek().value, "let");
    assert!(!parser.is_at_end());
    assert!(parser.check(TokenType::Keyword(Keyword::Let)));
    assert!(!parser.check(TokenType::Identifier));
}

#[test]
fn advance_gives_the_consumed_token() {
    let mut parser = parser_over("a b");
    assert_eq!(parser.advance().value, "a");
    assert_eq!(parser.previous().value, "a");
    assert_eq!(parser.peek().value, "b");
    assert_eq!(parser.advance().value, "b");
    assert!(parser.is_at_end());
    assert_eq!(parser.peek().token_type, TokenType::EOF);
}

#[test]
fn advance_stops_at_eof() {
    let mut parser = parser_over("a");
    parser.advance();
    assert!(parser.is_at_end());
    assert_eq!(parser.advance().value, "a");
    assert_eq!(parser.advance().value, "a");
    assert!(parser.is_at_end());
    assert_eq!(parser.peek().token_type, TokenType::EOF);
}

#[test]
fn check_never_matches_eof() {
    let parser = parser_over("");
    assert!(parser.is_at_end());
    assert!(!parser.check(TokenType::EOF));
    assert!(!parser.check(TokenType::Identifier));
}

#[test]
fn match_token_consumes_only_on_a_match() {
    let mut parser = parser_over("+ x");
    assert!(!parser.match_token(&[TokenType::Identifier, TokenType::Number]));
    assert_eq!(parser.peek().value, "+");
    assert!(!parser.match_token(&[]));
    assert!(parser.match_token(&[
        TokenType::Operator(Operator::Subtract),
        TokenType::Operator(Operator::Add),
    ]));
    assert_eq!(parser.previous().value, "+");
    assert_eq!(parser.peek().value, "x");
    assert!(parser.match_token(&[TokenType::Identifier]));
    assert!(parser.is_at_end());
    assert!(!parser.match_token(&[TokenType::EOF]));
}

#[test]
fn consume_takes_the_expected_token() {
    let mut parser = parser_over("( x");
    let token = parser.consume(TokenType::Symbol(Symbol::OpenParen), "Expected '('");
    assert_eq!(
        token,
        Ok(Token {
            token_type: TokenType::Symbol(Symbol::OpenParen),
            value: "(".to_string(),
            line: 1,
            column: 1,
        })
    );
    assert_eq!(parser.peek().value, "x");
}

#[test]
fn consume_fails_without_moving() {
    let mut parser = parser_over("\n\nx y");
    let failure = parser.consume(TokenType::Symbol(Symbol::Semicolon), "Expected ';'");
    assert_eq!(
        failure,
        Err(ParseError {
            kind: ParseErrorKind::ExpectedToken,
            line: 3,
            lexeme: "x".to_string(),
            message: "Expected ';'".to_string(),
        })
    );
    assert_eq!(parser.peek().value, "x");
}

#[test]
fn consume_identifier_gives_the_name() {
    let mut parser = parser_over("name 12");
    assert_eq!(parser.consume_identifier("Expected a name"), Ok("name".to_string()));
    assert_eq!(
        parser.consume_identifier("Expected a name"),
        Err(ParseError {
            kind: ParseErrorKind::ExpectedToken,
            line: 1,
            lexeme: "12".to_string(),
            message: "Expected a name".to_string(),
        })
    );
    assert_eq!(parser.peek().value, "12");
}

#[test]
fn error_here_describes_the_current_token() {
    let parser = parser_over("\nabc");
    assert_eq!(
        parser.error_here(ParseErrorKind::UnexpectedToken, "Unexpected"),
        ParseError {
            kind: ParseErrorKind::UnexpectedToken,
            line: 2,
            lexeme: "abc".to_string(),
            message: "Unexpected".to_string(),
        }
    );
}

#[test]
fn parse_expression_stops_after_the_expression() {
    let mut parser = parser_over("1 + 2; x");
    assert_eq!(
        parser.parse_expression(),
        Ok(Expression::Binary {
            left: Box::new(Expression::Number("1".to_string())),
            op: BinaryOp::Add,
            right: Box::new(Expression::Number("2".to_string())),
        })
    );
    assert_eq!(parser.peek().value, ";");
}

#[test]
fn parse_statement_stops_after_the_statement() {
    let mut parser = parser_over("break; continue;");
    assert_eq!(parser.parse_statement(), Ok(Statement::Break));
    assert_eq!(parser.peek().value, "continue");
    assert_eq!(parser.parse_statement(), Ok(Statement::Continue));
    assert!(parser.is_at_end());
}

#[test]
fn parse_stops_at_the_first_eof() {
    let tokens = vec![
        Token { token_type: TokenType::Identifier, value: "a".to_string(), line: 1, column: 1 },
        Token {
            token_type: TokenType::Symbol(Symbol::Semicolon),
            value: ";".to_string(),
            line: 1,
            column: 2,
        },
        Token { token_type: TokenType::EOF, value: "<EOF>".to_string(), line: 1, column: 3 },
        Token { token_type: TokenType::Identifier, value: "b".to_string(), line: 2, column: 1 },
        Token { token_type: TokenType::EOF, value: "<EOF>".to_string(), line: 2, column: 2 },
    ];
    let mut parser = Parser::new(tokens);
    assert_eq!(
        parser.parse(),
        Ok(vec![Statement::Expression(Expression::Variable("a".to_string()))])
    );
    assert!(parser.is_at_end());
}

#[test]
fn identifiers_and_literals_are_told_apart() {
    assert!(is_identifier(&of_kind(TokenType::Identifier)));
    assert!(!is_identifier(&of_kind(TokenType::Number)));
    assert!(!is_identifier(&of_kind(TokenType::Keyword(Keyword::Let))));
    for kind in [
        TokenType::Keyword(Keyword::True),
        TokenType::Keyword(Keyword::False),
        TokenType::Type(Type::Null),
        TokenType::Number,
        TokenType::Type(Type::String),
    ] {
        assert!(is_literal(&of_kind(kind)));
    }
    for kind in [
        TokenType::StringLiteral,
        TokenType::Identifier,
        TokenType::Type(Type::Int),
        TokenType::Keyword(Keyword::NoneKw),
        TokenType::EOF,
    ] {
        assert!(!is_literal(&of_kind(kind)));
    }
}

#[test]
fn tokens_map_to_binary_operators() {
    let cases = [
        (TokenType::Operator(Operator::Add), Some(BinaryOp::Add)),
        (TokenType::Operator(Operator::Subtract), Some(BinaryOp::Sub)),
        (TokenType::Operator(Operator::Multiply), Some(BinaryOp::Mul)),
        (TokenType::Operator(Operator::Divide), Some(BinaryOp::Div)),
        (TokenType::Operator(Operator::Modulus), None),
        (TokenType::Operator(Operator::Power), None),
        (TokenType::Comparator(Comparator::Equal), Some(BinaryOp::Eq)),
        (TokenType::Comparator(Comparator::NotEqual), Some(BinaryOp::Neq)),
        (TokenType::Comparator(Comparator::Greater), Some(BinaryOp::Gt)),
        (TokenType::Comparator(Comparator::GreaterEqual), Some(BinaryOp::Gte)),
        (TokenType::Comparator(Comparator::Less), Some(BinaryOp::Lt)),
        (TokenType::Comparator(Comparator::LessEqual), Some(BinaryOp::Lte)),
        (TokenType::Logical(Logical::And), Some(BinaryOp::And)),
        (TokenType::Logical(Logical::Or), Some(BinaryOp::Or)),
        (TokenType::Logical(Logical::Not), None),
        (TokenType::Identifier, None),
        (TokenType::EOF, None),
    ];
    for (kind, op) in cases {
        assert_eq!(token_to_binary_op(&of_kind(kind)), op);
    }
}

#[test]
fn tokens_map_to_unary_operators() {
    assert_eq!(token_to_unary_op(&of_kind(TokenType::Logical(Logical::Not))), Some(UnaryOp::Not));
    assert_eq!(
        token_to_unary_op(&of_kind(TokenType::Operator(Operator::Subtract))),
        Some(UnaryOp::Neg)
    );
    assert_eq!(token_to_unary_op(&of_kind(TokenType::Operator(Operator::Add))), None);
    assert_eq!(token_to_unary_op(&of_kind(TokenType::Logical(Logical::And))), None);
    assert_eq!(token_to_unary_op(&of_kind(TokenType::Identifier)), None);
}

#[test]
fn operators_have_their_level() {
    assert_eq!(precedence_of(BinaryOp::Mul), Precedence::Factor);
    assert_eq!(precedence_of(BinaryOp::Div), Precedence::Factor);
    assert_eq!(precedence_of(BinaryOp::Add), Precedence::Term);
    assert_eq!(precedence_of(BinaryOp::Sub), Precedence::Term);
    assert_eq!(precedence_of(BinaryOp::Gt), Precedence::Comparison);
    assert_eq!(precedence_of(BinaryOp::Lte), Precedence::Comparison);
    assert_eq!(precedence_of(BinaryOp::Eq), Precedence::Equality);
    assert_eq!(precedence_of(BinaryOp::Neq), Precedence::Equality);
    assert_eq!(precedence_of(BinaryOp::And), Precedence::LogicalAnd);
    assert_eq!(precedence_of(BinaryOp::Or), Precedence::LogicalOr);
}
