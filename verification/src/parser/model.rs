//! The grammar, as functions from a token sequence and a position to the
//! syntax tree that starts there and the position after it, or to the first
//! syntax error.
//!
//! Expressions, from the loosest binding to the tightest:
//!
//! ```text
//! expression := assignment
//! assignment := ternary ( "=" assignment )?
//! ternary    := binary ( "?" expression ":" expression )?
//! binary     := operand ( operator operand )*      one level for each of
//!               "||"; "&&"; "==" "!="; ">" ">=" "<" "<="; "+" "-"; "*" "/"
//! unary      := ( "!" | "-" ) unary | call
//! call       := primary ( "(" arguments? ")" | "." IDENTIFIER )*
//! primary    := "true" | "false" | "null" | NUMBER | "string" | IDENTIFIER
//!             | "(" expression ")"
//! ```

use vstd::prelude::*;
use crate::ast::expressions::{BinaryOp, ExpressionView, UnaryOp};
use crate::ast::statements::StatementView;
use crate::error::{ParseErrorKind, ParseErrorView};
use crate::grammar::{Comparator, Keyword, Logical, Operator, Symbol, Type};
use crate::number::is_float_literal;
use crate::token::{TokenType, TokenView};

verus! {

/// What a parse from some position gives: a value with the position after it,
/// or an error.
pub type Outcome<T> = Result<(T, int), ParseErrorView>;

/// Whether a token sequence is one that a parser can walk: it is not empty and
/// ends with the `EOF` token.
pub open spec fn ends_with_eof(ts: Seq<TokenView>) -> bool {
    ts.len() > 0 && ts.last().token_type == TokenType::EOF
}

/// The kind of the token at `pos`; beyond the sequence it is `EOF`.
pub open spec fn kind_at(ts: Seq<TokenView>, pos: int) -> TokenType {
    if 0 <= pos < ts.len() {
        ts[pos].token_type
    } else {
        TokenType::EOF
    }
}

/// Whether the token at `pos` is the `EOF` token.
pub open spec fn at_end(ts: Seq<TokenView>, pos: int) -> bool {
    kind_at(ts, pos) == TokenType::EOF
}

/// Whether the token at `pos` is of kind `kind` and is not the `EOF` token.
pub open spec fn check(ts: Seq<TokenView>, pos: int, kind: TokenType) -> bool {
    !at_end(ts, pos) && kind_at(ts, pos) == kind
}

/// An error of the given kind at the token at `pos`.
pub open spec fn error_at(
    ts: Seq<TokenView>,
    pos: int,
    kind: ParseErrorKind,
    message: Seq<char>,
) -> ParseErrorView {
    ParseErrorView { kind, line: ts[pos].line, lexeme: ts[pos].value, message }
}

/// Requires a token of kind `kind` at `pos`: gives the token and the next
/// position, or `ExpectedToken` with `message`.
pub open spec fn expect(ts: Seq<TokenView>, pos: int, kind: TokenType, message: Seq<char>) -> Outcome<
    TokenView,
> {
    if check(ts, pos, kind) {
        Ok((ts[pos], pos + 1))
    } else {
        Err(error_at(ts, pos, ParseErrorKind::ExpectedToken, message))
    }
}

/// Requires an identifier at `pos`: gives its name and the next position.
pub open spec fn expect_identifier(ts: Seq<TokenView>, pos: int, message: Seq<char>) -> Outcome<
    Seq<char>,
> {
    match expect(ts, pos, TokenType::Identifier, message) {
        Ok((token, next)) => Ok((token.value, next)),
        Err(e) => Err(e),
    }
}

/// `r`, followed by a required token of kind `kind`.
pub open spec fn then_expect<T>(
    r: Outcome<T>,
    ts: Seq<TokenView>,
    kind: TokenType,
    message: Seq<char>,
) -> Outcome<T> {
    match r {
        Ok((value, pos)) => match expect(ts, pos, kind, message) {
            Ok((_, next)) => Ok((value, next)),
            Err(e) => Err(e),
        },
        Err(e) => Err(e),
    }
}

/// The outcome `r` of a parse that began at or after `pos`, provided that it
/// ended after `pos` and within the sequence. A parse that succeeds always
/// does, as the lemmas of [`crate::parser::laws`] show, so this is `r`
/// itself; it serves to show that the grammar's recursion ends.
pub open spec fn advanced<T>(ts: Seq<TokenView>, pos: int, r: Outcome<T>) -> Outcome<T> {
    match r {
        Ok((_, next)) => if pos < next < ts.len() {
            r
        } else {
            Err(
                ParseErrorView {
                    kind: ParseErrorKind::UnexpectedToken,
                    line: 0,
                    lexeme: Seq::empty(),
                    message: Seq::empty(),
                },
            )
        },
        Err(_) => r,
    }
}

/// The binary operator that a token of kind `kind` stands for.
pub open spec fn binary_op_of(kind: TokenType) -> Option<BinaryOp> {
    match kind {
        TokenType::Operator(Operator::Add) => Some(BinaryOp::Add),
        TokenType::Operator(Operator::Subtract) => Some(BinaryOp::Sub),
        TokenType::Operator(Operator::Multiply) => Some(BinaryOp::Mul),
        TokenType::Operator(Operator::Divide) => Some(BinaryOp::Div),
        TokenType::Comparator(Comparator::Equal) => Some(BinaryOp::Eq),
        TokenType::Comparator(Comparator::NotEqual) => Some(BinaryOp::Neq),
        TokenType::Comparator(Comparator::Greater) => Some(BinaryOp::Gt),
        TokenType::Comparator(Comparator::GreaterEqual) => Some(BinaryOp::Gte),
        TokenType::Comparator(Comparator::Less) => Some(BinaryOp::Lt),
        TokenType::Comparator(Comparator::LessEqual) => Some(BinaryOp::Lte),
        TokenType::Logical(Logical::And) => Some(BinaryOp::And),
        TokenType::Logical(Logical::Or) => Some(BinaryOp::Or),
        _ => None,
    }
}

/// The unary operator that a token of kind `kind` stands for.
pub open spec fn unary_op_of(kind: TokenType) -> Option<UnaryOp> {
    match kind {
        TokenType::Logical(Logical::Not) => Some(UnaryOp::Not),
        TokenType::Operator(Operator::Subtract) => Some(UnaryOp::Neg),
        _ => None,
    }
}

/// A level of binary operators that bind equally tightly.
#[derive(Debug, Clone, Copy, PartialEq, Eq, Structural)]
pub enum Precedence {
    /// `*` and `/`
    Factor,
    /// `+` and `-`
    Term,
    /// `>`, `>=`, `<` and `<=`
    Comparison,
    /// `==` and `!=`
    Equality,
    /// `&&`
    LogicalAnd,
    /// `||`
    LogicalOr,
}

impl Precedence {
    /// How loosely the level binds: 0 for the tightest.
    pub open spec fn rank(self) -> int {
        match self {
            Precedence::Factor => 0,
            Precedence::Term => 1,
            Precedence::Comparison => 2,
            Precedence::Equality => 3,
            Precedence::LogicalAnd => 4,
            Precedence::LogicalOr => 5,
        }
    }

    /// The level of a binary operator.
    pub open spec fn of(op: BinaryOp) -> Precedence {
        match op {
            BinaryOp::Mul | BinaryOp::Div => Precedence::Factor,
            BinaryOp::Add | BinaryOp::Sub => Precedence::Term,
            BinaryOp::Gt | BinaryOp::Gte | BinaryOp::Lt | BinaryOp::Lte => Precedence::Comparison,
            BinaryOp::Eq | BinaryOp::Neq => Precedence::Equality,
            BinaryOp::And => Precedence::LogicalAnd,
            BinaryOp::Or => Precedence::LogicalOr,
        }
    }

    /// The next tighter level, if there is one.
    pub open spec fn tighter(self) -> Option<Precedence> {
        match self {
            Precedence::Factor => None,
            Precedence::Term => Some(Precedence::Factor),
            Precedence::Comparison => Some(Precedence::Term),
            Precedence::Equality => Some(Precedence::Comparison),
            Precedence::LogicalAnd => Some(Precedence::Equality),
            Precedence::LogicalOr => Some(Precedence::LogicalAnd),
        }
    }

    /// The operator of this level that the token at `pos` stands for, if any.
    pub open spec fn operator_at(self, ts: Seq<TokenView>, pos: int) -> Option<BinaryOp> {
        match binary_op_of(kind_at(ts, pos)) {
            Some(op) => if Precedence::of(op) == self {
                Some(op)
            } else {
                None
            },
            None => None,
        }
    }
}

/// `expression := assignment`
pub open spec fn expression(ts: Seq<TokenView>, pos: int) -> Outcome<ExpressionView>
    decreases ts.len() - pos, 18int,
{
    assignment(ts, pos)
}

/// `assignment := ternary ( "=" assignment )?`, where the left-hand side must
/// be a variable or a property. The right-hand side is parsed first; only then
/// is the left-hand side held against that rule, at the `=`.
pub open spec fn assignment(ts: Seq<TokenView>, pos: int) -> Outcome<ExpressionView>
    decreases ts.len() - pos, 17int,
{
    match advanced(ts, pos, ternary(ts, pos)) {
        Ok((target, equals)) => if check(ts, equals, TokenType::Symbol(Symbol::Define)) {
            match assignment(ts, equals + 1) {
                Ok((value, next)) => match target {
                    ExpressionView::Variable(name) => Ok(
                        (ExpressionView::Assign { variable: name, value: Box::new(value) }, next),
                    ),
                    ExpressionView::Get { object, name } => Ok(
                        (ExpressionView::SetProperty { object, name, value: Box::new(value) }, next),
                    ),
                    _ => Err(
                        error_at(
                            ts,
                            equals,
                            ParseErrorKind::InvalidAssignmentTarget,
                            "Can only assign to a variable or property"@,
                        ),
                    ),
                },
                Err(e) => Err(e),
            }
        } else {
            Ok((target, equals))
        },
        Err(e) => Err(e),
    }
}

/// `ternary := binary ( "?" expression ":" expression )?`
pub open spec fn ternary(ts: Seq<TokenView>, pos: int) -> Outcome<ExpressionView>
    decreases ts.len() - pos, 16int,
{
    match advanced(ts, pos, binary(ts, pos, Precedence::LogicalOr)) {
        Ok((condition, question)) => if check(ts, question, TokenType::Symbol(Symbol::Question)) {
            match advanced(
                ts,
                question,
                then_expect(
                    expression(ts, question + 1),
                    ts,
                    TokenType::Symbol(Symbol::Colon),
                    "Expected ':' in ternary expression"@,
                ),
            ) {
                Ok((then_branch, after_colon)) => match expression(ts, after_colon) {
                    Ok((else_branch, next)) => Ok(
                        (
                            ExpressionView::Ternary {
                                condition: Box::new(condition),
                                then_branch: Box::new(then_branch),
                                else_branch: Box::new(else_branch),
                            },
                            next,
                        ),
                    ),
                    Err(e) => Err(e),
                },
                Err(e) => Err(e),
            }
        } else {
            Ok((condition, question))
        },
        Err(e) => Err(e),
    }
}

/// An operand of the operators of `level`: a chain of the next tighter level,
/// or a unary expression below the tightest.
pub open spec fn operand(ts: Seq<TokenView>, pos: int, level: Precedence) -> Outcome<
    ExpressionView,
>
    decreases ts.len() - pos, 4 + 2 * level.rank(),
{
    match level.tighter() {
        Some(inner) => binary(ts, pos, inner),
        None => unary(ts, pos),
    }
}

/// `binary := operand ( operator operand )*`: a chain of the operators of
/// `level`, grouped from the left.
pub open spec fn binary(ts: Seq<TokenView>, pos: int, level: Precedence) -> Outcome<ExpressionView>
    decreases ts.len() - pos, 5 + 2 * level.rank(),
{
    match advanced(ts, pos, operand(ts, pos, level)) {
        Ok((left, next)) => binary_rest(ts, next, level, left),
        Err(e) => Err(e),
    }
}

/// The rest of a chain of `level` whose operands so far make up `left`.
pub open spec fn binary_rest(
    ts: Seq<TokenView>,
    pos: int,
    level: Precedence,
    left: ExpressionView,
) -> Outcome<ExpressionView>
    decreases ts.len() - pos, 5 + 2 * level.rank(),
{
    match level.operator_at(ts, pos) {
        Some(op) => match advanced(ts, pos, operand(ts, pos + 1, level)) {
            Ok((right, next)) => binary_rest(
                ts,
                next,
                level,
                ExpressionView::Binary { left: Box::new(left), op, right: Box::new(right) },
            ),
            Err(e) => Err(e),
        },
        None => Ok((left, pos)),
    }
}

/// `unary := ( "!" | "-" ) unary | call`
pub open spec fn unary(ts: Seq<TokenView>, pos: int) -> Outcome<ExpressionView>
    decreases ts.len() - pos, 3int,
{
    match unary_op_of(kind_at(ts, pos)) {
        Some(op) => match unary(ts, pos + 1) {
            Ok((expr, next)) => Ok((ExpressionView::Unary { op, expr: Box::new(expr) }, next)),
            Err(e) => Err(e),
        },
        None => call(ts, pos),
    }
}

/// `call := primary ( "(" arguments? ")" | "." IDENTIFIER )*`
pub open spec fn call(ts: Seq<TokenView>, pos: int) -> Outcome<ExpressionView>
    decreases ts.len() - pos, 2int,
{
    match advanced(ts, pos, primary(ts, pos)) {
        Ok((callee, next)) => call_rest(ts, next, callee),
        Err(e) => Err(e),
    }
}

/// The calls and property accesses that follow `callee`.
pub open spec fn call_rest(ts: Seq<TokenView>, pos: int, callee: ExpressionView) -> Outcome<
    ExpressionView,
>
    decreases ts.len() - pos, 2int,
{
    if check(ts, pos, TokenType::Symbol(Symbol::OpenParen)) {
        match advanced(
            ts,
            pos,
            then_expect(
                arguments(ts, pos + 1),
                ts,
                TokenType::Symbol(Symbol::CloseParen),
                "Expected ')' after arguments"@,
            ),
        ) {
            Ok((args, next)) => call_rest(
                ts,
                next,
                ExpressionView::Call { function: Box::new(callee), args },
            ),
            Err(e) => Err(e),
        }
    } else if check(ts, pos, TokenType::Symbol(Symbol::Dot)) {
        match expect_identifier(ts, pos + 1, "Expected a property name after '.'"@) {
            Ok((name, next)) => call_rest(
                ts,
                next,
                ExpressionView::Get { object: Box::new(callee), name },
            ),
            Err(e) => Err(e),
        }
    } else {
        Ok((callee, pos))
    }
}

/// `arguments := expression ( "," expression )*`, or nothing before a `)`.
pub open spec fn arguments(ts: Seq<TokenView>, pos: int) -> Outcome<Seq<ExpressionView>>
    decreases ts.len() - pos, 20int,
{
    if check(ts, pos, TokenType::Symbol(Symbol::CloseParen)) {
        Ok((Seq::empty(), pos))
    } else {
        more_arguments(ts, pos, Seq::empty())
    }
}

/// The arguments from `pos` on, after those in `args`.
pub open spec fn more_arguments(
    ts: Seq<TokenView>,
    pos: int,
    args: Seq<ExpressionView>,
) -> Outcome<Seq<ExpressionView>>
    decreases ts.len() - pos, 19int,
{
    match advanced(ts, pos, expression(ts, pos)) {
        Ok((arg, next)) => if check(ts, next, TokenType::Symbol(Symbol::Comma)) {
            more_arguments(ts, next + 1, args.push(arg))
        } else {
            Ok((args.push(arg), next))
        },
        Err(e) => Err(e),
    }
}

/// `primary`: a literal, a variable, or an expression in parentheses. The
/// keywords `true` and `false` are the boolean literals, the type name `null`
/// is the absent value, and the type name `string` is a text literal that
/// holds the token's own text. Anything else is `UnexpectedToken`.
pub open spec fn primary(ts: Seq<TokenView>, pos: int) -> Outcome<ExpressionView>
    decreases ts.len() - pos, 1int,
{
    let token = ts[pos];
    match kind_at(ts, pos) {
        TokenType::Keyword(Keyword::False) => Ok((ExpressionView::Boolean(false), pos + 1)),
        TokenType::Keyword(Keyword::True) => Ok((ExpressionView::Boolean(true), pos + 1)),
        TokenType::Type(Type::Null) => Ok((ExpressionView::Null, pos + 1)),
        TokenType::Number => if is_float_literal(token.value) {
            Ok((ExpressionView::Number(token.value), pos + 1))
        } else {
            Err(error_at(ts, pos, ParseErrorKind::UnexpectedToken, "Invalid number"@))
        },
        TokenType::Type(Type::String) => Ok((ExpressionView::String(token.value), pos + 1)),
        TokenType::Identifier => Ok((ExpressionView::Variable(token.value), pos + 1)),
        TokenType::Symbol(Symbol::OpenParen) => match then_expect(
            expression(ts, pos + 1),
            ts,
            TokenType::Symbol(Symbol::CloseParen),
            "Expected ')' after expression"@,
        ) {
            Ok((inner, next)) => Ok((ExpressionView::Grouping(Box::new(inner)), next)),
            Err(e) => Err(e),
        },
        _ => Err(error_at(ts, pos, ParseErrorKind::UnexpectedToken, "Unexpected expression"@)),
    }
}

/// `r` with its value changed by `f`.
pub open spec fn map_outcome<A, B>(r: Outcome<A>, f: spec_fn(A) -> B) -> Outcome<B> {
    match r {
        Ok((value, next)) => Ok((f(value), next)),
        Err(e) => Err(e),
    }
}

/// `"(" expression ")"`, with the messages for a missing `(` and a missing `)`.
pub open spec fn parenthesized(
    ts: Seq<TokenView>,
    pos: int,
    open_message: Seq<char>,
    close_message: Seq<char>,
) -> Outcome<ExpressionView> {
    match expect(ts, pos, TokenType::Symbol(Symbol::OpenParen), open_message) {
        Ok((_, next)) => then_expect(
            expression(ts, next),
            ts,
            TokenType::Symbol(Symbol::CloseParen),
            close_message,
        ),
        Err(e) => Err(e),
    }
}

/// `IDENTIFIER ( "=" expression )? ";"`: what follows `let`.
pub open spec fn variable_declaration(ts: Seq<TokenView>, pos: int) -> Outcome<StatementView> {
    match expect_identifier(ts, pos, "Expected variable name"@) {
        Ok((name, next)) => if check(ts, next, TokenType::Symbol(Symbol::Define)) {
            then_expect(
                map_outcome(
                    expression(ts, next + 1),
                    |value: ExpressionView|
                        StatementView::Variable { name, initializer: Some(value) },
                ),
                ts,
                TokenType::Symbol(Symbol::Semicolon),
                "Expected ';' after declaration"@,
            )
        } else {
            then_expect(
                Ok((StatementView::Variable { name, initializer: None }, next)),
                ts,
                TokenType::Symbol(Symbol::Semicolon),
                "Expected ';' after declaration"@,
            )
        },
        Err(e) => Err(e),
    }
}

/// `expression? ";"`: what follows the keyword that returns from a function.
pub open spec fn return_statement(ts: Seq<TokenView>, pos: int) -> Outcome<StatementView> {
    if check(ts, pos, TokenType::Symbol(Symbol::Semicolon)) {
        Ok((StatementView::Return(None), pos + 1))
    } else {
        then_expect(
            map_outcome(
                expression(ts, pos),
                |value: ExpressionView| StatementView::Return(Some(value)),
            ),
            ts,
            TokenType::Symbol(Symbol::Semicolon),
            "Expected ';' after 'return'"@,
        )
    }
}

/// `IDENTIFIER ( "," IDENTIFIER )*`: the parameter names from `pos` on, after
/// those in `names`.
pub open spec fn more_parameters(ts: Seq<TokenView>, pos: int, names: Seq<Seq<char>>) -> Outcome<
    Seq<Seq<char>>,
>
    decreases ts.len() - pos,
{
    match expect_identifier(ts, pos, "Expected parameter name"@) {
        Ok((name, next)) => if check(ts, next, TokenType::Symbol(Symbol::Comma)) {
            more_parameters(ts, next + 1, names.push(name))
        } else {
            Ok((names.push(name), next))
        },
        Err(e) => Err(e),
    }
}

/// The parameter names of a function, or nothing before a `)`.
pub open spec fn parameters(ts: Seq<TokenView>, pos: int) -> Outcome<Seq<Seq<char>>> {
    if check(ts, pos, TokenType::Symbol(Symbol::CloseParen)) {
        Ok((Seq::empty(), pos))
    } else {
        more_parameters(ts, pos, Seq::empty())
    }
}

/// `IDENTIFIER? "(" parameters? ")" "{"`: the name, absent for an anonymous
/// function, and the parameter names.
pub open spec fn function_header(ts: Seq<TokenView>, pos: int) -> Outcome<
    (Option<Seq<char>>, Seq<Seq<char>>),
> {
    let (name, after_name) = if check(ts, pos, TokenType::Identifier) {
        (Some(ts[pos].value), pos + 1)
    } else {
        (None, pos)
    };
    match expect(
        ts,
        after_name,
        TokenType::Symbol(Symbol::OpenParen),
        "Expected '(' after 'fn'"@,
    ) {
        Ok((_, next)) => then_expect(
            then_expect(
                map_outcome(parameters(ts, next), |names: Seq<Seq<char>>| (name, names)),
                ts,
                TokenType::Symbol(Symbol::CloseParen),
                "Expected ')' after parameters"@,
            ),
            ts,
            TokenType::Symbol(Symbol::OpenBrace),
            "Expected '{' before function body"@,
        ),
        Err(e) => Err(e),
    }
}

/// The part of a `for` loop between its parentheses.
pub enum ForHeader {
    /// `let` declaration, condition and increment.
    CStyle { init: StatementView, condition: ExpressionView, increment: ExpressionView },
    /// Loop variable and iterable.
    In { variable: Seq<char>, iterable: ExpressionView },
}

/// `"(" "let" declaration expression ";" expression ")"` or
/// `"(" IDENTIFIER "in" expression ")"`. The declaration ends with its own
/// `;`.
pub open spec fn for_header(ts: Seq<TokenView>, pos: int) -> Outcome<ForHeader> {
    match expect(ts, pos, TokenType::Symbol(Symbol::OpenParen), "Expected '(' after 'for'"@) {
        Ok((_, next)) => if check(ts, next, TokenType::Keyword(Keyword::Let)) {
            match variable_declaration(ts, next + 1) {
                Ok((init, after_init)) => match then_expect(
                    expression(ts, after_init),
                    ts,
                    TokenType::Symbol(Symbol::Semicolon),
                    "Expected ';' after condition"@,
                ) {
                    Ok((condition, after_condition)) => then_expect(
                        map_outcome(
                            expression(ts, after_condition),
                            |increment: ExpressionView|
                                ForHeader::CStyle { init, condition, increment },
                        ),
                        ts,
                        TokenType::Symbol(Symbol::CloseParen),
                        "Expected ')' after increment"@,
                    ),
                    Err(e) => Err(e),
                },
                Err(e) => Err(e),
            }
        } else {
            match then_expect(
                expect_identifier(ts, next, "Expected variable name"@),
                ts,
                TokenType::Keyword(Keyword::In),
                "Expected 'in' in for loop"@,
            ) {
                Ok((variable, after_in)) => then_expect(
                    map_outcome(
                        expression(ts, after_in),
                        |iterable: ExpressionView| ForHeader::In { variable, iterable },
                    ),
                    ts,
                    TokenType::Symbol(Symbol::CloseParen),
                    "Expected ')' after iterable expression"@,
                ),
                Err(e) => Err(e),
            }
        },
        Err(e) => Err(e),
    }
}

/// `"while" "(" expression ")" ";"`: what follows the body of a `do` loop.
pub open spec fn do_while_tail(ts: Seq<TokenView>, pos: int) -> Outcome<ExpressionView> {
    match expect(
        ts,
        pos,
        TokenType::Keyword(Keyword::While),
        "Expected 'while' after 'do' block"@,
    ) {
        Ok((_, next)) => then_expect(
            parenthesized(
                ts,
                next,
                "Expected '(' after 'while'"@,
                "Expected ')' after condition"@,
            ),
            ts,
            TokenType::Symbol(Symbol::Semicolon),
            "Expected ';' after do-while"@,
        ),
        Err(e) => Err(e),
    }
}

/// One statement. The leading token decides: `let`, `fn`, `if`, `while`,
/// `do`, `for`, `back`, `break`, `continue` and `{` each start a statement of
/// their own; anything else starts an expression that a `;` must follow.
pub open spec fn statement(ts: Seq<TokenView>, pos: int) -> Outcome<StatementView>
    decreases ts.len() - pos, 0int,
{
    if check(ts, pos, TokenType::Keyword(Keyword::Let)) {
        variable_declaration(ts, pos + 1)
    } else if check(ts, pos, TokenType::Keyword(Keyword::Fn)) {
        function_declaration(ts, pos + 1)
    } else if check(ts, pos, TokenType::Keyword(Keyword::If)) {
        if_statement(ts, pos + 1)
    } else if check(ts, pos, TokenType::Keyword(Keyword::While)) {
        while_statement(ts, pos + 1)
    } else if check(ts, pos, TokenType::Keyword(Keyword::Do)) {
        do_while_statement(ts, pos + 1)
    } else if check(ts, pos, TokenType::Keyword(Keyword::For)) {
        for_statement(ts, pos + 1)
    } else if check(ts, pos, TokenType::Keyword(Keyword::Back)) {
        return_statement(ts, pos + 1)
    } else if check(ts, pos, TokenType::Keyword(Keyword::Break)) {
        then_expect(
            Ok((StatementView::Break, pos + 1)),
            ts,
            TokenType::Symbol(Symbol::Semicolon),
            "Expected ';' after 'break'"@,
        )
    } else if check(ts, pos, TokenType::Keyword(Keyword::Continue)) {
        then_expect(
            Ok((StatementView::Continue, pos + 1)),
            ts,
            TokenType::Symbol(Symbol::Semicolon),
            "Expected ';' after 'continue'"@,
        )
    } else if check(ts, pos, TokenType::Symbol(Symbol::OpenBrace)) {
        map_outcome(
            block(ts, pos + 1, Seq::empty()),
            |statements: Seq<StatementView>| StatementView::Block(statements),
        )
    } else {
        then_expect(
            map_outcome(
                expression(ts, pos),
                |value: ExpressionView| StatementView::Expression(value),
            ),
            ts,
            TokenType::Symbol(Symbol::Semicolon),
            "Expected ';' after expression"@,
        )
    }
}

/// `statement* "}"`: the statements of a block from `pos` on, after those in
/// `statements`. The end of the input before the `}` is an error.
pub open spec fn block(ts: Seq<TokenView>, pos: int, statements: Seq<StatementView>) -> Outcome<
    Seq<StatementView>,
>
    decreases ts.len() - pos, 1int,
{
    if !check(ts, pos, TokenType::Symbol(Symbol::CloseBrace)) && !at_end(ts, pos) {
        match advanced(ts, pos, statement(ts, pos)) {
            Ok((s, next)) => block(ts, next, statements.push(s)),
            Err(e) => Err(e),
        }
    } else {
        map_outcome(
            expect(
                ts,
                pos,
                TokenType::Symbol(Symbol::CloseBrace),
                "Expected '}' after block"@,
            ),
            |closing: TokenView| statements,
        )
    }
}

/// A function: its header and its body, a block.
pub open spec fn function_declaration(ts: Seq<TokenView>, pos: int) -> Outcome<StatementView>
    decreases ts.len() - pos, 1int,
{
    match advanced(ts, pos, function_header(ts, pos)) {
        Ok(((name, params), next)) => map_outcome(
            block(ts, next, Seq::empty()),
            |body: Seq<StatementView>| StatementView::Function { name, params, body },
        ),
        Err(e) => Err(e),
    }
}

/// `"(" expression ")" statement ( "else" statement )?`
pub open spec fn if_statement(ts: Seq<TokenView>, pos: int) -> Outcome<StatementView>
    decreases ts.len() - pos, 1int,
{
    match advanced(
        ts,
        pos,
        parenthesized(ts, pos, "Expected '(' after 'if'"@, "Expected ')' after condition"@),
    ) {
        Ok((condition, next)) => match advanced(ts, next, statement(ts, next)) {
            Ok((then_branch, after_then)) => if check(
                ts,
                after_then,
                TokenType::Keyword(Keyword::Else),
            ) {
                map_outcome(
                    statement(ts, after_then + 1),
                    |else_branch: StatementView|
                        StatementView::If {
                            condition,
                            then_branch: Box::new(then_branch),
                            else_branch: Some(Box::new(else_branch)),
                        },
                )
            } else {
                Ok(
                    (
                        StatementView::If {
                            condition,
                            then_branch: Box::new(then_branch),
                            else_branch: None,
                        },
                        after_then,
                    ),
                )
            },
            Err(e) => Err(e),
        },
        Err(e) => Err(e),
    }
}

/// `"(" expression ")" statement`
pub open spec fn while_statement(ts: Seq<TokenView>, pos: int) -> Outcome<StatementView>
    decreases ts.len() - pos, 1int,
{
    match advanced(
        ts,
        pos,
        parenthesized(ts, pos, "Expected '(' after 'while'"@, "Expected ')' after condition"@),
    ) {
        Ok((condition, next)) => map_outcome(
            statement(ts, next),
            |body: StatementView| StatementView::While { condition, body: Box::new(body) },
        ),
        Err(e) => Err(e),
    }
}

/// `statement "while" "(" expression ")" ";"`
pub open spec fn do_while_statement(ts: Seq<TokenView>, pos: int) -> Outcome<StatementView>
    decreases ts.len() - pos, 1int,
{
    match statement(ts, pos) {
        Ok((body, next)) => map_outcome(
            do_while_tail(ts, next),
            |condition: ExpressionView|
                StatementView::DoWhile { body: Box::new(body), condition },
        ),
        Err(e) => Err(e),
    }
}

/// A `for` loop of either form: its header and its body.
pub open spec fn for_statement(ts: Seq<TokenView>, pos: int) -> Outcome<StatementView>
    decreases ts.len() - pos, 1int,
{
    match advanced(ts, pos, for_header(ts, pos)) {
        Ok((header, next)) => map_outcome(
            statement(ts, next),
            |body: StatementView|
                match header {
                    ForHeader::CStyle { init, condition, increment } => StatementView::ForCStyle {
                        init: Box::new(init),
                        condition,
                        increment,
                        body: Box::new(body),
                    },
                    ForHeader::In { variable, iterable } => StatementView::ForIn {
                        variable,
                        iterable,
                        body: Box::new(body),
                    },
                },
        ),
        Err(e) => Err(e),
    }
}

/// The statements of a program from `pos` on, after those in `statements`, up
/// to the `EOF` token.
pub open spec fn program(ts: Seq<TokenView>, pos: int, statements: Seq<StatementView>) -> Result<
    Seq<StatementView>,
    ParseErrorView,
>
    decreases ts.len() - pos,
{
    if at_end(ts, pos) {
        Ok(statements)
    } else {
        match advanced(ts, pos, statement(ts, pos)) {
            Ok((s, next)) => program(ts, next, statements.push(s)),
            Err(e) => Err(e),
        }
    }
}

} // verus!
