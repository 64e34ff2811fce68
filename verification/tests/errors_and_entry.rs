use lemon_core::ast::{Expression, Statement};
use lemon_core::error::{LemonError, LexError, LexErrorKind, ParseError, ParseErrorKind};
use lemon_core::interpret;
use lemon_core::text::{collect_chars, push_decimal, string_from_chars, text_equals};

#[test]
fn located_errors_render_their_position() {
    assert_eq!(LemonError::new("Oops", 3, 14).message, "Oops at line 3, column 14");
    assert_eq!(LemonError::new("", 0, 0).message, " at line 0, column 0");
    assert_eq!(
        LemonError::new("Big", 1234567890, 10).message,
        "Big at line 1234567890, column 10"
    );
    assert_eq!(
        LemonError::new("Max", usize::MAX, 9).message,
        format!("Max at line {}, column 9", usize::MAX)
    );
}

#[test]
fn plain_errors_keep_their_message() {
    assert_eq!(LemonError::with_message("plain").message, "plain");
    assert_eq!(LemonError::with_message("plain").to_string(), "plain");
    assert_eq!(LemonError::with_message("").message, "");
}

#[test]
fn decimal_digits_are_pushed() {
    for n in [0usize, 1, 9, 10, 11, 99, 100, 101, 65535, 1000000, usize::MAX] {
        let mut text = String::from("n=");
        push_decimal(&mut text, n);
        assert_eq!(text, format!("n={}", n));
    }
}

#[test]
fn lexical_errors_have_messages() {
    assert_eq!(LexErrorKind::IllegalCharacter.message(), "Illegal character in input");
    assert_eq!(LexErrorKind::UnclosedString.message(), "Unclosed string literal");
    assert_eq!(LexErrorKind::UnclosedComment.message(), "Unclosed multiline comment");
    assert_eq!(LexErrorKind::InvalidEscape.message(), "Invalid escape character");
    let error = LexError { kind: LexErrorKind::UnclosedComment, line: 7, column: 21 };
    assert_eq!(error.to_lemon_error().message, "Unclosed multiline comment at line 7, column 21");
}

#[test]
fn syntax_errors_render_line_message_and_token() {
    let error = ParseError {
        kind: ParseErrorKind::ExpectedToken,
        line: 12,
        lexeme: "}".to_string(),
        message: "Expected ';' after expression".to_string(),
    };
    assert_eq!(
        error.to_lemon_error().message,
        "[Line 12] Syntax error: Expected ';' after expression (at '}')"
    );
}

#[test]
fn interpret_gives_the_tree() {
    let tree = interpret("let x = 1;\nx;").expect("the source is well formed");
    assert_eq!(
        tree,
        vec![
            Statement::Variable {
                name: "x".to_string(),
                initializer: Some(Expression::Number("1".to_string())),
            },
            Statement::Expression(Expression::Variable("x".to_string())),
        ]
    );
    assert_eq!(interpret("").expect("the empty source is well formed"), vec![]);
}

#[test]
fn interpret_reports_a_lexical_error_first() {
    let error = interpret("let = \"abc").expect_err("the string is unclosed");
    assert_eq!(error.message, "Unclosed string literal at line 1, column 11");
    let error = interpret("x \u{7}").expect_err("the bell is illegal");
    assert_eq!(error.message, "Illegal character in input at line 1, column 3");
    let error = interpret("\"\\x\"").expect_err("the escape is wrong");
    assert_eq!(error.message, "Invalid escape character at line 1, column 4");
    let error = interpret("\n/*").expect_err("the comment is unclosed");
    assert_eq!(error.message, "Unclosed multiline comment at line 2, column 3");
}

#[test]
fn interpret_reports_a_syntax_error() {
    let error = interpret("let x = 1\nlet y;").expect_err("a semicolon is missing");
    assert_eq!(
        error.message,
        "[Line 2] Syntax error: Expected ';' after declaration (at 'let')"
    );
    let error = interpret("1 + 1 = 2;").expect_err("the target is no variable");
    assert_eq!(
        error.message,
        "[Line 1] Syntax error: Can only assign to a variable or property (at '=')"
    );
    let error = interpret("+;").expect_err("no expression starts with +");
    assert_eq!(error.message, "[Line 1] Syntax error: Unexpected expression (at '+')");
}

#[test]
fn texts_convert_to_characters_and_back() {
    let chars = collect_chars("h\u{e9}llo w\u{f6}rld");
    assert_eq!(chars.len(), 11);
    assert_eq!(chars[1], '\u{e9}');
    assert_eq!(string_from_chars(&chars, 0, 5), "h\u{e9}llo");
    assert_eq!(string_from_chars(&chars, 6, 11), "w\u{f6}rld");
    assert_eq!(string_from_chars(&chars, 3, 3), "");
    assert_eq!(collect_chars(""), Vec::<char>::new());
}

#[test]
fn texts_compare_character_by_character() {
    let word = collect_chars("while");
    assert!(text_equals(&word, "while"));
    assert!(!text_equals(&word, "whil"));
    assert!(!text_equals(&word, "whiles"));
    assert!(!text_equals(&word, "whilE"));
    assert!(!text_equals(&word, ""));
    assert!(text_equals(&[], ""));
    assert!(!text_equals(&[], "a"));
}

#[test]
fn syntax_trees_can_be_copied() {
    let source = "fn f(a, b) { if (a) { back g(a.b, -1) ? x = 1 : (y); } else for (i in b) { do { i.n = !i; } while (i < 3); } for (let k = 0; k < 2; k = k + 1) { break; continue; } let z; }";
    let tree = interpret(source).expect("the source is well formed");
    let copy = tree.clone();
    assert_eq!(copy, tree);
    for statement in &tree {
        assert_eq!(&statement.clone(), statement);
    }
}

#[test]
fn errors_convert_from_text() {
    let error: LemonError = LemonError::from("from text");
    assert_eq!(error.message, "from text");
    let error: LemonError = "into error".into();
    assert_eq!(error.message, "into error");
}
