use lemon_core::error::{LexError, LexErrorKind};
use lemon_core::grammar::{Comment, Comparator, Keyword, Logical, Operator, Symbol, Type};
use lemon_core::lexer::{classify, tokenize};
use lemon_core::token::{Token, TokenType};

fn token(token_type: TokenType, value: &str, line: usize, column: usize) -> Token {
    Token { token_type, value: value.to_string(), line, column }
}

fn eof(line: usize, column: usize) -> Token {
    token(TokenType::EOF, "<EOF>", line, column)
}

fn kinds(source: &str) -> Vec<TokenType> {
    let tokens = tokenize(source).expect("the source has no lexical error");
    tokens.iter().map(|t| t.token_type).collect()
}

#[test]
fn empty_source_gives_only_eof() {
    assert_eq!(tokenize(""), Ok(vec![eof(1, 1)]));
}

#[test]
fn a_declaration_is_split_into_tokens() {
    let expected = vec![
        token(TokenType::Keyword(Keyword::Let), "let", 1, 1),
        token(TokenType::Identifier, "x", 1, 5),
        token(TokenType::Symbol(Symbol::Define), "=", 1, 7),
        token(TokenType::Number, "1", 1, 9),
        token(TokenType::Symbol(Symbol::Semicolon), ";", 1, 10),
        eof(1, 11),
    ];
    assert_eq!(tokenize("let x = 1;"), Ok(expected));
}

#[test]
fn lines_and_columns_are_counted_from_one() {
    let expected = vec![
        token(TokenType::Identifier, "a", 1, 1),
        token(TokenType::Identifier, "bc", 2, 3),
        token(TokenType::Identifier, "d", 4, 1),
        eof(4, 2),
    ];
    assert_eq!(tokenize("a\n  bc\n\nd"), Ok(expected));
}

#[test]
fn a_trailing_newline_moves_eof_to_the_next_line() {
    assert_eq!(tokenize("a\n"), Ok(vec![token(TokenType::Identifier, "a", 1, 1), eof(2, 1)]));
    assert_eq!(tokenize("a"), Ok(vec![token(TokenType::Identifier, "a", 1, 1), eof(1, 2)]));
}

#[test]
fn every_token_sequence_ends_with_exactly_one_eof() {
    for source in ["", "x", "x\n", "let a = 1;\n// c", "/* c */", "\"s\"", "a && b || !c"] {
        let tokens = tokenize(source).expect("the source has no lexical error");
        let count = tokens.iter().filter(|t| t.token_type == TokenType::EOF).count();
        assert_eq!(count, 1, "{:?}", source);
        assert_eq!(tokens.last().map(|t| t.token_type), Some(TokenType::EOF));
    }
}

#[test]
fn two_character_comparators_are_single_tokens() {
    assert_eq!(
        tokenize("=="),
        Ok(vec![token(TokenType::Comparator(Comparator::Equal), "==", 1, 1), eof(1, 3)])
    );
    assert_eq!(
        tokenize("!="),
        Ok(vec![token(TokenType::Comparator(Comparator::NotEqual), "!=", 1, 1), eof(1, 3)])
    );
    assert_eq!(
        tokenize(">="),
        Ok(vec![token(TokenType::Comparator(Comparator::GreaterEqual), ">=", 1, 1), eof(1, 3)])
    );
    assert_eq!(
        tokenize("<="),
        Ok(vec![token(TokenType::Comparator(Comparator::LessEqual), "<=", 1, 1), eof(1, 3)])
    );
}

#[test]
fn two_character_logicals_are_single_tokens() {
    assert_eq!(
        tokenize("&&"),
        Ok(vec![token(TokenType::Logical(Logical::And), "&&", 1, 1), eof(1, 3)])
    );
    assert_eq!(
        tokenize("||"),
        Ok(vec![token(TokenType::Logical(Logical::Or), "||", 1, 1), eof(1, 3)])
    );
}

#[test]
fn two_character_spellings_win_inside_text() {
    assert_eq!(
        kinds("a==b"),
        vec![
            TokenType::Identifier,
            TokenType::Comparator(Comparator::Equal),
            TokenType::Identifier,
            TokenType::EOF,
        ]
    );
    assert_eq!(
        kinds("a>=b<=c!=d"),
        vec![
            TokenType::Identifier,
            TokenType::Comparator(Comparator::GreaterEqual),
            TokenType::Identifier,
            TokenType::Comparator(Comparator::LessEqual),
            TokenType::Identifier,
            TokenType::Comparator(Comparator::NotEqual),
            TokenType::Identifier,
            TokenType::EOF,
        ]
    );
    assert_eq!(
        kinds("a&&b||c"),
        vec![
            TokenType::Identifier,
            TokenType::Logical(Logical::And),
            TokenType::Identifier,
            TokenType::Logical(Logical::Or),
            TokenType::Identifier,
            TokenType::EOF,
        ]
    );
}

#[test]
fn one_character_spellings_are_the_fallback() {
    assert_eq!(
        kinds("a = b"),
        vec![
            TokenType::Identifier,
            TokenType::Symbol(Symbol::Define),
            TokenType::Identifier,
            TokenType::EOF,
        ]
    );
    assert_eq!(
        kinds("!a"),
        vec![TokenType::Logical(Logical::Not), TokenType::Identifier, TokenType::EOF]
    );
    assert_eq!(
        kinds("a > b"),
        vec![
            TokenType::Identifier,
            TokenType::Comparator(Comparator::Greater),
            TokenType::Identifier,
            TokenType::EOF,
        ]
    );
    assert_eq!(
        kinds("=== ="),
        vec![
            TokenType::Comparator(Comparator::Equal),
            TokenType::Symbol(Symbol::Define),
            TokenType::Symbol(Symbol::Define),
            TokenType::EOF,
        ]
    );
}

#[test]
fn rendered_symbols_scan_back_to_themselves() {
    let all = [
        Symbol::Define, Symbol::OpenParen, Symbol::CloseParen, Symbol::OpenBrace,
        Symbol::CloseBrace, Symbol::OpenBraket, Symbol::CloseBraket, Symbol::Semicolon,
        Symbol::Comma, Symbol::Dot, Symbol::Question, Symbol::Colon,
    ];
    for symbol in all {
        let text = symbol.to_char().to_string();
        assert_eq!(
            tokenize(&text),
            Ok(vec![token(TokenType::Symbol(symbol), &text, 1, 1), eof(1, 2)])
        );
    }
}

#[test]
fn rendered_operators_scan_back_to_themselves() {
    let all = [
        Operator::Add, Operator::Subtract, Operator::Multiply, Operator::Divide,
        Operator::Modulus, Operator::Power,
    ];
    for operator in all {
        let text = operator.to_string();
        assert_eq!(
            tokenize(&text),
            Ok(vec![token(TokenType::Operator(operator), &text, 1, 1), eof(1, 2)])
        );
    }
}

#[test]
fn rendered_comparators_scan_back_to_themselves() {
    let all = [
        Comparator::Equal, Comparator::NotEqual, Comparator::Greater, Comparator::Less,
        Comparator::GreaterEqual, Comparator::LessEqual,
    ];
    for comparator in all {
        let text = comparator.as_str();
        assert_eq!(
            tokenize(text),
            Ok(vec![
                token(TokenType::Comparator(comparator), text, 1, 1),
                eof(1, 1 + text.len()),
            ])
        );
    }
}

#[test]
fn scanning_twice_gives_the_same_tokens() {
    let source = "fn f(a, b) { back a + b * 2; } // done\n\"s\\n\" >= /* c */ x";
    assert_eq!(tokenize(source), tokenize(source));
    let failing = "let s = \"abc";
    assert_eq!(tokenize(failing), tokenize(failing));
}

#[test]
fn unclosed_string_is_reported_on_the_opening_line() {
    assert_eq!(
        tokenize("\"abc"),
        Err(LexError { kind: LexErrorKind::UnclosedString, line: 1, column: 5 })
    );
    assert_eq!(
        tokenize("x\n  \"abc\ndef"),
        Err(LexError { kind: LexErrorKind::UnclosedString, line: 2, column: 11 })
    );
    assert_eq!(
        tokenize("\"abc\\"),
        Err(LexError { kind: LexErrorKind::UnclosedString, line: 1, column: 6 })
    );
}

#[test]
fn string_literals_are_decoded() {
    assert_eq!(
        tokenize("\"a\\nb\\t\\\\\\\"c\""),
        Ok(vec![token(TokenType::StringLiteral, "a\nb\t\\\"c", 1, 1), eof(1, 14)])
    );
    assert_eq!(tokenize("\"\""), Ok(vec![token(TokenType::StringLiteral, "", 1, 1), eof(1, 3)]));
}

#[test]
fn string_literals_sit_at_their_opening_quote() {
    let expected = vec![
        token(TokenType::Identifier, "x", 1, 1),
        token(TokenType::StringLiteral, "abc", 1, 3),
        token(TokenType::Identifier, "y", 1, 9),
        eof(1, 10),
    ];
    assert_eq!(tokenize("x \"abc\" y"), Ok(expected));
    let glued = vec![
        token(TokenType::Identifier, "x", 1, 1),
        token(TokenType::StringLiteral, "a b", 1, 2),
        token(TokenType::Identifier, "y", 1, 7),
        eof(1, 8),
    ];
    assert_eq!(tokenize("x\"a b\"y"), Ok(glued));
}

#[test]
fn a_newline_inside_a_string_does_not_start_a_line() {
    let expected = vec![
        token(TokenType::StringLiteral, "a\nb", 1, 1),
        token(TokenType::Identifier, "c", 1, 7),
        eof(1, 8),
    ];
    assert_eq!(tokenize("\"a\nb\" c"), Ok(expected));
}

#[test]
fn wrong_escapes_are_rejected() {
    assert_eq!(
        tokenize("\"a\\qb\""),
        Err(LexError { kind: LexErrorKind::InvalidEscape, line: 1, column: 5 })
    );
    assert_eq!(
        tokenize("\n\"\\0\""),
        Err(LexError { kind: LexErrorKind::InvalidEscape, line: 2, column: 4 })
    );
}

#[test]
fn line_comments_run_to_the_end_of_the_line() {
    assert_eq!(tokenize("// note\nlet x = 1;"), tokenize("\nlet x = 1;"));
    assert_eq!(
        tokenize("a // b c\nd"),
        Ok(vec![
            token(TokenType::Identifier, "a", 1, 1),
            token(TokenType::Identifier, "d", 2, 1),
            eof(2, 2),
        ])
    );
    assert_eq!(tokenize("// only"), Ok(vec![eof(1, 8)]));
    assert_eq!(tokenize("x//y"), Ok(vec![token(TokenType::Identifier, "x", 1, 1), eof(1, 5)]));
}

#[test]
fn block_comments_are_skipped_across_lines() {
    assert_eq!(
        tokenize("a /* b\n c */ d"),
        Ok(vec![
            token(TokenType::Identifier, "a", 1, 1),
            token(TokenType::Identifier, "d", 2, 7),
            eof(2, 8),
        ])
    );
    assert_eq!(tokenize("/**/"), Ok(vec![eof(1, 5)]));
    assert_eq!(tokenize("/* * / */x"), Ok(vec![token(TokenType::Identifier, "x", 1, 10), eof(1, 11)]));
}

#[test]
fn unclosed_block_comment_is_reported_where_the_text_ends() {
    assert_eq!(
        tokenize("/* abc"),
        Err(LexError { kind: LexErrorKind::UnclosedComment, line: 1, column: 7 })
    );
    assert_eq!(
        tokenize("a\n/* b\nc"),
        Err(LexError { kind: LexErrorKind::UnclosedComment, line: 3, column: 2 })
    );
    assert_eq!(
        tokenize("/*/"),
        Err(LexError { kind: LexErrorKind::UnclosedComment, line: 1, column: 4 })
    );
}

#[test]
fn characters_outside_printable_ascii_are_rejected() {
    assert_eq!(
        tokenize("a \u{1}"),
        Err(LexError { kind: LexErrorKind::IllegalCharacter, line: 1, column: 3 })
    );
    assert_eq!(
        tokenize("x\n\u{e9}"),
        Err(LexError { kind: LexErrorKind::IllegalCharacter, line: 2, column: 1 })
    );
    assert_eq!(
        tokenize("ab\u{7f}"),
        Err(LexError { kind: LexErrorKind::IllegalCharacter, line: 1, column: 3 })
    );
}

#[test]
fn unicode_white_space_separates_words() {
    assert_eq!(
        tokenize("a\u{a0}b\u{2003}c\td\u{b}e\r\nf"),
        Ok(vec![
            token(TokenType::Identifier, "a", 1, 1),
            token(TokenType::Identifier, "b", 1, 3),
            token(TokenType::Identifier, "c", 1, 5),
            token(TokenType::Identifier, "d", 1, 7),
            token(TokenType::Identifier, "e", 1, 9),
            token(TokenType::Identifier, "f", 2, 1),
            eof(2, 2),
        ])
    );
}

#[test]
fn words_are_classified_in_order_of_precedence() {
    let cases = [
        ("42", TokenType::Number),
        ("inf", TokenType::Number),
        ("NaN", TokenType::Number),
        ("1e5", TokenType::Number),
        ("1,5", TokenType::Number),
        ("while", TokenType::Keyword(Keyword::While)),
        ("WHILE", TokenType::Keyword(Keyword::While)),
        ("in", TokenType::Keyword(Keyword::In)),
        ("string", TokenType::Type(Type::String)),
        ("null", TokenType::Type(Type::Null)),
        ("Null", TokenType::Identifier),
        ("+", TokenType::Operator(Operator::Add)),
        ("%", TokenType::Operator(Operator::Modulus)),
        (">", TokenType::Comparator(Comparator::Greater)),
        ("<=", TokenType::Comparator(Comparator::LessEqual)),
        ("and", TokenType::Logical(Logical::And)),
        ("not", TokenType::Logical(Logical::Not)),
        ("//", TokenType::Comment(Comment::LineComment)),
        ("*/", TokenType::Comment(Comment::BlockCommentClose)),
        ("12abc", TokenType::Unknown),
        ("1+2", TokenType::Unknown),
        ("name_1", TokenType::Identifier),
        ("_", TokenType::Identifier),
        ("h\u{e9}llo", TokenType::Identifier),
        ("a\u{2014}b", TokenType::Unknown),
        ("\u{664}\u{662}", TokenType::Identifier),
        ("a<b", TokenType::Unknown),
        ("a-b", TokenType::Unknown),
        ("", TokenType::Identifier),
    ];
    for (word, kind) in cases {
        assert_eq!(classify(word, 3, 7), token(kind, word, 3, 7), "{:?}", word);
    }
}

#[test]
fn words_in_the_source_are_classified() {
    assert_eq!(
        kinds("for x and 12ab a<b + */ 3"),
        vec![
            TokenType::Keyword(Keyword::For),
            TokenType::Identifier,
            TokenType::Logical(Logical::And),
            TokenType::Unknown,
            TokenType::Unknown,
            TokenType::Operator(Operator::Add),
            TokenType::Comment(Comment::BlockCommentClose),
            TokenType::Number,
            TokenType::EOF,
        ]
    );
}

#[test]
fn a_decimal_point_is_a_symbol() {
    assert_eq!(
        kinds("3.14"),
        vec![
            TokenType::Number,
            TokenType::Symbol(Symbol::Dot),
            TokenType::Number,
            TokenType::EOF,
        ]
    );
}

#[test]
fn the_first_error_ends_the_scan() {
    assert_eq!(
        tokenize("ok \u{1} \"unclosed"),
        Err(LexError { kind: LexErrorKind::IllegalCharacter, line: 1, column: 4 })
    );
}

#[test]
fn tokens_stand_in_source_order() {
    let source = "let a = \"x\ny\" + b; /* c\n */ fn(z) >= 1 // end\n!q";
    let tokens = tokenize(source).expect("the source has no lexical error");
    for pair in tokens.windows(2) {
        let before = (pair[0].line, pair[0].column);
        let after = (pair[1].line, pair[1].column);
        assert!(before < after, "{:?} {:?}", pair[0], pair[1]);
    }
}

#[test]
fn tokens_can_be_copied() {
    let tokens = tokenize("a + 1").expect("the source has no lexical error");
    assert_eq!(tokens.clone(), tokens);
}
