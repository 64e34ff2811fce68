use lemon_core::ast::{BinaryOp, Expression, Statement, UnaryOp};
use lemon_core::error::{ParseError, ParseErrorKind};
use lemon_core::lexer::tokenize;
use lemon_core::parser::Parser;

fn parse_source(source: &str) -> Result<Vec<Statement>, ParseError> {
    let tokens = tokenize(source).expect("the source has no lexical error");
    let mut parser = Parser::new(tokens);
    parser.parse()
}

fn program(source: &str) -> Vec<Statement> {
    parse_source(source).expect("the source has no syntax error")
}

fn failure(source: &str) -> ParseError {
    parse_source(source).expect_err("the source has a syntax error")
}

fn expression(source: &str) -> Expression {
    let mut statements = program(source);
    assert_eq!(statements.len(), 1);
    match statements.remove(0) {
        Statement::Expression(e) => e,
        other => panic!("not an expression statement: {:?}", other),
    }
}

fn number(text: &str) -> Expression {
    Expression::Number(text.to_string())
}

fn variable(name: &str) -> Expression {
    Expression::Variable(name.to_string())
}

fn binary(left: Expression, op: BinaryOp, right: Expression) -> Expression {
    Expression::Binary { left: Box::new(left), op, right: Box::new(right) }
}

fn error(kind: ParseErrorKind, line: usize, lexeme: &str, message: &str) -> ParseError {
    ParseError { kind, line, lexeme: lexeme.to_string(), message: message.to_string() }
}

#[test]
fn multiplication_binds_tighter_than_addition() {
    assert_eq!(
        program("1 + 2 * 3;"),
        vec![Statement::Expression(binary(
            number("1"),
            BinaryOp::Add,
            binary(number("2"), BinaryOp::Mul, number("3")),
        ))]
    );
}

#[test]
fn assignment_groups_from_the_right() {
    assert_eq!(
        expression("a = b = 3;"),
        Expression::Assign {
            variable: "a".to_string(),
            value: Box::new(Expression::Assign {
                variable: "b".to_string(),
                value: Box::new(number("3")),
            }),
        }
    );
}

#[test]
fn ternary_nests_in_its_else_branch() {
    assert_eq!(
        expression("x ? 1 : y ? 2 : 3;"),
        Expression::Ternary {
            condition: Box::new(variable("x")),
            then_branch: Box::new(number("1")),
            else_branch: Box::new(Expression::Ternary {
                condition: Box::new(variable("y")),
                then_branch: Box::new(number("2")),
                else_branch: Box::new(number("3")),
            }),
        }
    );
}

#[test]
fn ternary_branches_take_full_expressions() {
    assert_eq!(
        expression("c ? a = 1 : b = 2;"),
        Expression::Ternary {
            condition: Box::new(variable("c")),
            then_branch: Box::new(Expression::Assign {
                variable: "a".to_string(),
                value: Box::new(number("1")),
            }),
            else_branch: Box::new(Expression::Assign {
                variable: "b".to_string(),
                value: Box::new(number("2")),
            }),
        }
    );
}

#[test]
fn both_for_loop_forms_parse() {
    let c_style = program("for (let i = 0; i < 10; i = i + 1) { }");
    assert_eq!(
        c_style,
        vec![Statement::ForCStyle {
            init: Box::new(Statement::Variable {
                name: "i".to_string(),
                initializer: Some(number("0")),
            }),
            condition: binary(variable("i"), BinaryOp::Lt, number("10")),
            increment: Expression::Assign {
                variable: "i".to_string(),
                value: Box::new(binary(variable("i"), BinaryOp::Add, number("1"))),
            },
            body: Box::new(Statement::Block(vec![])),
        }]
    );
    let for_in = program("for (x in xs) { }");
    assert_eq!(
        for_in,
        vec![Statement::ForIn {
            variable: "x".to_string(),
            iterable: variable("xs"),
            body: Box::new(Statement::Block(vec![])),
        }]
    );
}

#[test]
fn invalid_assignment_target_is_rejected() {
    assert_eq!(
        failure("1 + 1 = 2;"),
        error(
            ParseErrorKind::InvalidAssignmentTarget,
            1,
            "=",
            "Can only assign to a variable or property",
        )
    );
    assert_eq!(failure("\n(a) = 2;").kind, ParseErrorKind::InvalidAssignmentTarget);
    assert_eq!(failure("f() = 2;").kind, ParseErrorKind::InvalidAssignmentTarget);
    assert_eq!(failure("\n\ntrue = 2;").line, 3);
}

#[test]
fn the_right_hand_side_is_parsed_before_the_target_is_judged() {
    assert_eq!(
        failure("1 = ;"),
        error(ParseErrorKind::UnexpectedToken, 1, ";", "Unexpected expression")
    );
}

#[test]
fn comments_do_not_change_the_tree() {
    assert_eq!(program("// note\nlet x = 1;"), program("let x = 1;"));
    assert_eq!(program("let /* inner */ x = 1; // tail"), program("let x = 1;"));
    assert_eq!(
        program("let x = 1;"),
        vec![Statement::Variable { name: "x".to_string(), initializer: Some(number("1")) }]
    );
}

#[test]
fn binary_chains_group_from_the_left() {
    assert_eq!(
        expression("1 - 2 - 3;"),
        binary(binary(number("1"), BinaryOp::Sub, number("2")), BinaryOp::Sub, number("3"))
    );
    assert_eq!(
        expression("8 / 4 * 2;"),
        binary(binary(number("8"), BinaryOp::Div, number("4")), BinaryOp::Mul, number("2"))
    );
}

#[test]
fn every_level_of_precedence_is_respected() {
    // a || b && c == d < e + f * g
    let product = binary(variable("f"), BinaryOp::Mul, variable("g"));
    let sum = binary(variable("e"), BinaryOp::Add, product);
    let relation = binary(variable("d"), BinaryOp::Lt, sum);
    let equality = binary(variable("c"), BinaryOp::Eq, relation);
    let conjunction = binary(variable("b"), BinaryOp::And, equality);
    let disjunction = binary(variable("a"), BinaryOp::Or, conjunction);
    assert_eq!(expression("a || b && c == d < e + f * g;"), disjunction);
    assert_eq!(expression("a or b and c == d < e + f * g;"), expression("a || b && c == d < e + f * g;"));
}

#[test]
fn every_binary_operator_is_parsed() {
    let cases = [
        ("a + b;", BinaryOp::Add),
        ("a - b;", BinaryOp::Sub),
        ("a * b;", BinaryOp::Mul),
        ("a / b;", BinaryOp::Div),
        ("a == b;", BinaryOp::Eq),
        ("a != b;", BinaryOp::Neq),
        ("a > b;", BinaryOp::Gt),
        ("a < b;", BinaryOp::Lt),
        ("a >= b;", BinaryOp::Gte),
        ("a <= b;", BinaryOp::Lte),
        ("a && b;", BinaryOp::And),
        ("a || b;", BinaryOp::Or),
    ];
    for (source, op) in cases {
        assert_eq!(expression(source), binary(variable("a"), op, variable("b")), "{}", source);
    }
}

#[test]
fn unary_operators_stack() {
    assert_eq!(
        expression("!!x;"),
        Expression::Unary {
            op: UnaryOp::Not,
            expr: Box::new(Expression::Unary { op: UnaryOp::Not, expr: Box::new(variable("x")) }),
        }
    );
    assert_eq!(
        expression("- x * y;"),
        binary(
            Expression::Unary { op: UnaryOp::Neg, expr: Box::new(variable("x")) },
            BinaryOp::Mul,
            variable("y"),
        )
    );
    assert_eq!(
        expression("not x;"),
        Expression::Unary { op: UnaryOp::Not, expr: Box::new(variable("x")) }
    );
}

#[test]
fn calls_and_properties_chain_from_the_left() {
    assert_eq!(
        expression("a.b(1, x).c();"),
        Expression::Call {
            function: Box::new(Expression::Get {
                object: Box::new(Expression::Call {
                    function: Box::new(Expression::Get {
                        object: Box::new(variable("a")),
                        name: "b".to_string(),
                    }),
                    args: vec![number("1"), variable("x")],
                }),
                name: "c".to_string(),
            }),
            args: vec![],
        }
    );
}

#[test]
fn property_assignment_sets_the_property() {
    assert_eq!(
        expression("a.b.c = 1;"),
        Expression::SetProperty {
            object: Box::new(Expression::Get {
                object: Box::new(variable("a")),
                name: "b".to_string(),
            }),
            name: "c".to_string(),
            value: Box::new(number("1")),
        }
    );
}

#[test]
fn primary_expressions_are_parsed() {
    assert_eq!(expression("true;"), Expression::Boolean(true));
    assert_eq!(expression("false;"), Expression::Boolean(false));
    assert_eq!(expression("null;"), Expression::Null);
    assert_eq!(expression("12;"), number("12"));
    assert_eq!(expression("inf;"), number("inf"));
    assert_eq!(expression("name;"), variable("name"));
    assert_eq!(expression("string;"), Expression::String("string".to_string()));
    assert_eq!(
        expression("(1 + 2) * 3;"),
        binary(
            Expression::Grouping(Box::new(binary(number("1"), BinaryOp::Add, number("2")))),
            BinaryOp::Mul,
            number("3"),
        )
    );
}

#[test]
fn tokens_that_start_no_expression_are_unexpected() {
    assert_eq!(
        failure(";"),
        error(ParseErrorKind::UnexpectedToken, 1, ";", "Unexpected expression")
    );
    assert_eq!(
        failure("1 +"),
        error(ParseErrorKind::UnexpectedToken, 1, "<EOF>", "Unexpected expression")
    );
    assert_eq!(
        failure("\"text\";"),
        error(ParseErrorKind::UnexpectedToken, 1, "text", "Unexpected expression")
    );
    assert_eq!(
        failure("x\n= 12ab;"),
        error(ParseErrorKind::UnexpectedToken, 2, "12ab", "Unexpected expression")
    );
}

#[test]
fn a_number_with_a_comma_is_no_valid_number() {
    assert_eq!(
        expression("f(1,5);"),
        Expression::Call {
            function: Box::new(variable("f")),
            args: vec![number("1"), number("5")],
        }
    );
    let tokens = vec![
        lemon_core::token::Token {
            token_type: lemon_core::token::TokenType::Number,
            value: "1,5".to_string(),
            line: 4,
            column: 1,
        },
        lemon_core::token::Token {
            token_type: lemon_core::token::TokenType::EOF,
            value: "<EOF>".to_string(),
            line: 4,
            column: 4,
        },
    ];
    let mut parser = Parser::new(tokens);
    assert_eq!(
        parser.parse(),
        Err(error(ParseErrorKind::UnexpectedToken, 4, "1,5", "Invalid number"))
    );
}

#[test]
fn missing_tokens_are_named() {
    assert_eq!(
        failure("let x = 1"),
        error(ParseErrorKind::ExpectedToken, 1, "<EOF>", "Expected ';' after declaration")
    );
    assert_eq!(
        failure("let = 1;"),
        error(ParseErrorKind::ExpectedToken, 1, "=", "Expected variable name")
    );
    assert_eq!(
        failure("x + 1"),
        error(ParseErrorKind::ExpectedToken, 1, "<EOF>", "Expected ';' after expression")
    );
    assert_eq!(
        failure("(1 + 2;"),
        error(ParseErrorKind::ExpectedToken, 1, ";", "Expected ')' after expression")
    );
    assert_eq!(
        failure("f(1, 2;"),
        error(ParseErrorKind::ExpectedToken, 1, ";", "Expected ')' after arguments")
    );
    assert_eq!(
        failure("a.1;"),
        error(ParseErrorKind::ExpectedToken, 1, "1", "Expected a property name after '.'")
    );
    assert_eq!(
        failure("a ? b;"),
        error(ParseErrorKind::ExpectedToken, 1, ";", "Expected ':' in ternary expression")
    );
    assert_eq!(
        failure("break"),
        error(ParseErrorKind::ExpectedToken, 1, "<EOF>", "Expected ';' after 'break'")
    );
    assert_eq!(
        failure("continue }"),
        error(ParseErrorKind::ExpectedToken, 1, "}", "Expected ';' after 'continue'")
    );
    assert_eq!(
        failure("back 1"),
        error(ParseErrorKind::ExpectedToken, 1, "<EOF>", "Expected ';' after 'return'")
    );
    assert_eq!(
        failure("{ x;\n"),
        error(ParseErrorKind::ExpectedToken, 2, "<EOF>", "Expected '}' after block")
    );
    assert_eq!(
        failure("if x) y;"),
        error(ParseErrorKind::ExpectedToken, 1, "x", "Expected '(' after 'if'")
    );
    assert_eq!(
        failure("if (x y;"),
        error(ParseErrorKind::ExpectedToken, 1, "y", "Expected ')' after condition")
    );
    assert_eq!(
        failure("while x"),
        error(ParseErrorKind::ExpectedToken, 1, "x", "Expected '(' after 'while'")
    );
    assert_eq!(
        failure("do x; until"),
        error(ParseErrorKind::ExpectedToken, 1, "until", "Expected 'while' after 'do' block")
    );
    assert_eq!(
        failure("do x; while (y)"),
        error(ParseErrorKind::ExpectedToken, 1, "<EOF>", "Expected ';' after do-while")
    );
    assert_eq!(
        failure("for x"),
        error(ParseErrorKind::ExpectedToken, 1, "x", "Expected '(' after 'for'")
    );
    assert_eq!(
        failure("for (1"),
        error(ParseErrorKind::ExpectedToken, 1, "1", "Expected variable name")
    );
    assert_eq!(
        failure("for (x of xs) {}"),
        error(ParseErrorKind::ExpectedToken, 1, "of", "Expected 'in' in for loop")
    );
    assert_eq!(
        failure("for (x in xs {}"),
        error(ParseErrorKind::ExpectedToken, 1, "{", "Expected ')' after iterable expression")
    );
    assert_eq!(
        failure("for (let i = 0; i < 1) {}"),
        error(ParseErrorKind::ExpectedToken, 1, ")", "Expected ';' after condition")
    );
    assert_eq!(
        failure("for (let i = 0; i < 1; i {}"),
        error(ParseErrorKind::ExpectedToken, 1, "{", "Expected ')' after increment")
    );
    assert_eq!(
        failure("fn f {}"),
        error(ParseErrorKind::ExpectedToken, 1, "{", "Expected '(' after 'fn'")
    );
    assert_eq!(
        failure("fn f(1) {}"),
        error(ParseErrorKind::ExpectedToken, 1, "1", "Expected parameter name")
    );
    assert_eq!(
        failure("fn f(a b) {}"),
        error(ParseErrorKind::ExpectedToken, 1, "b", "Expected ')' after parameters")
    );
    assert_eq!(
        failure("fn f(a) x"),
        error(ParseErrorKind::ExpectedToken, 1, "x", "Expected '{' before function body")
    );
}

#[test]
fn the_first_error_ends_the_parse() {
    assert_eq!(
        failure("let x = ;\nlet = 2;"),
        error(ParseErrorKind::UnexpectedToken, 1, ";", "Unexpected expression")
    );
}

#[test]
fn declarations_with_and_without_initial_value() {
    assert_eq!(
        program("let x; let y = x;"),
        vec![
            Statement::Variable { name: "x".to_string(), initializer: None },
            Statement::Variable { name: "y".to_string(), initializer: Some(variable("x")) },
        ]
    );
}

#[test]
fn functions_with_and_without_name() {
    assert_eq!(
        program("fn add(a, b) { back a + b; }"),
        vec![Statement::Function {
            name: Some("add".to_string()),
            params: vec!["a".to_string(), "b".to_string()],
            body: vec![Statement::Return(Some(binary(
                variable("a"),
                BinaryOp::Add,
                variable("b"),
            )))],
        }]
    );
    assert_eq!(
        program("fn () { back; }"),
        vec![Statement::Function {
            name: None,
            params: vec![],
            body: vec![Statement::Return(None)],
        }]
    );
}

#[test]
fn conditionals_with_and_without_else() {
    assert_eq!(
        program("if (a) b; else c;"),
        vec![Statement::If {
            condition: variable("a"),
            then_branch: Box::new(Statement::Expression(variable("b"))),
            else_branch: Some(Box::new(Statement::Expression(variable("c")))),
        }]
    );
    assert_eq!(
        program("if (a) { } "),
        vec![Statement::If {
            condition: variable("a"),
            then_branch: Box::new(Statement::Block(vec![])),
            else_branch: None,
        }]
    );
}

#[test]
fn an_else_belongs_to_the_nearest_if() {
    assert_eq!(
        program("if (a) if (b) c; else d;"),
        vec![Statement::If {
            condition: variable("a"),
            then_branch: Box::new(Statement::If {
                condition: variable("b"),
                then_branch: Box::new(Statement::Expression(variable("c"))),
                else_branch: Some(Box::new(Statement::Expression(variable("d")))),
            }),
            else_branch: None,
        }]
    );
}

#[test]
fn loops_are_parsed() {
    assert_eq!(
        program("while (a) { break; continue; }"),
        vec![Statement::While {
            condition: variable("a"),
            body: Box::new(Statement::Block(vec![Statement::Break, Statement::Continue])),
        }]
    );
    assert_eq!(
        program("do x = 1; while (a);"),
        vec![Statement::DoWhile {
            body: Box::new(Statement::Expression(Expression::Assign {
                variable: "x".to_string(),
                value: Box::new(number("1")),
            })),
            condition: variable("a"),
        }]
    );
}

#[test]
fn blocks_nest() {
    assert_eq!(
        program("{ { a; } b; }"),
        vec![Statement::Block(vec![
            Statement::Block(vec![Statement::Expression(variable("a"))]),
            Statement::Expression(variable("b")),
        ])]
    );
    assert_eq!(program(""), vec![]);
}

#[test]
fn the_keyword_return_is_no_statement() {
    assert_eq!(
        failure("return 1;"),
        error(ParseErrorKind::UnexpectedToken, 1, "return", "Unexpected expression")
    );
}
