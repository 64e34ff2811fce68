//! The errors of the two phases, and the rendered error handed to callers.

use vstd::prelude::*;
use vstd::string::StringExecFns;
use crate::text::{decimal_digits, push_decimal};

verus! {

/// An error as free text.
#[derive(Debug)]
pub struct LemonError {
    pub message: String,
}

impl LemonError {
    /// The text `"<message> at line <line>, column <column>"`.
    pub open spec fn located(message: Seq<char>, line: nat, column: nat) -> Seq<char> {
        message + " at line "@ + decimal_digits(line) + ", column "@ + decimal_digits(column)
    }

    /// An error whose text is `message` followed by the position at which it
    /// was found.
    pub fn new(message: &str, line: usize, column: usize) -> (e: Self)
        ensures
            e.message@ == Self::located(message@, line as nat, column as nat),
    {
        let mut text = message.to_owned();
        text.append(" at line ");
        push_decimal(&mut text, line);
        text.append(", column ");
        push_decimal(&mut text, column);
        LemonError { message: text }
    }

    /// An error whose text is `message`.
    pub fn with_message(message: &str) -> (e: Self)
        ensures
            e.message@ == message@,
    {
        LemonError { message: message.to_owned() }
    }

    /// The text of the error.
    pub fn to_string(&self) -> (s: String)
        ensures
            s@ == self.message@,
    {
        self.message.clone()
    }
}

impl From<&str> for LemonError {
    /// An error whose text is `message`.
    fn from(message: &str) -> (e: Self)
        ensures
            e.message@ == message@,
    {
        LemonError { message: message.to_owned() }
    }
}

/// What `from` gives is stated by its `ensures`, over the text of the error:
/// two strings with the same text need not be the same value, so the result
/// is no function of the argument in the sense of `from_spec`.
impl vstd::std_specs::convert::FromSpecImpl<&str> for LemonError {
    open spec fn obeys_from_spec() -> bool {
        false
    }

    open spec fn from_spec(message: &str) -> Self {
        arbitrary()
    }
}

/// What went wrong while scanning.
#[derive(Debug, Clone, Copy, PartialEq, Eq, Structural)]
pub enum LexErrorKind {
    /// A character that is neither printable ASCII nor white space.
    IllegalCharacter,
    /// The input ended inside a string literal.
    UnclosedString,
    /// The input ended inside a block comment.
    UnclosedComment,
    /// A backslash in a string literal followed by anything but `n`, `t`, `\`
    /// or `"`.
    InvalidEscape,
}

impl LexErrorKind {
    /// The message for this kind of error.
    pub open spec fn text(self) -> Seq<char> {
        match self {
            LexErrorKind::IllegalCharacter => "Illegal character in input"@,
            LexErrorKind::UnclosedString => "Unclosed string literal"@,
            LexErrorKind::UnclosedComment => "Unclosed multiline comment"@,
            LexErrorKind::InvalidEscape => "Invalid escape character"@,
        }
    }

    /// The message for this kind of error.
    pub fn message(&self) -> (r: &'static str)
        ensures
            r@ == self.text(),
    {
        match self {
            LexErrorKind::IllegalCharacter => "Illegal character in input",
            LexErrorKind::UnclosedString => "Unclosed string literal",
            LexErrorKind::UnclosedComment => "Unclosed multiline comment",
            LexErrorKind::InvalidEscape => "Invalid escape character",
        }
    }
}

/// A lexical error: what went wrong, and the line and column (both counted
/// from one) that the scan had reached when it was found.
#[derive(Debug, Clone, Copy, PartialEq, Eq, Structural)]
pub struct LexError {
    pub kind: LexErrorKind,
    pub line: usize,
    pub column: usize,
}

/// The mathematical value of a [`LexError`].
pub struct LexErrorView {
    pub kind: LexErrorKind,
    pub line: nat,
    pub column: nat,
}

impl View for LexError {
    type V = LexErrorView;

    open spec fn view(&self) -> LexErrorView {
        LexErrorView { kind: self.kind, line: self.line as nat, column: self.column as nat }
    }
}

impl LexErrorView {
    /// The text `"<message> at line <line>, column <column>"`.
    pub open spec fn text(self) -> Seq<char> {
        LemonError::located(self.kind.text(), self.line, self.column)
    }
}

impl LexError {
    /// The error as free text.
    pub fn to_lemon_error(&self) -> (e: LemonError)
        ensures
            e.message@ == self@.text(),
    {
        LemonError::new(self.kind.message(), self.line, self.column)
    }
}

/// What went wrong while parsing.
#[derive(Debug, Clone, Copy, PartialEq, Eq, Structural)]
pub enum ParseErrorKind {
    /// A token that cannot start an expression stands where one is needed.
    UnexpectedToken,
    /// A required token is missing; the message names it.
    ExpectedToken,
    /// The left-hand side of `=` is neither a variable nor a property.
    InvalidAssignmentTarget,
}

/// A syntax error: what went wrong, the line and the text of the token at
/// which it was found, and a message for the reader.
#[derive(Debug, PartialEq, Eq)]
pub struct ParseError {
    pub kind: ParseErrorKind,
    pub line: usize,
    pub lexeme: String,
    pub message: String,
}

/// The mathematical value of a [`ParseError`].
pub struct ParseErrorView {
    pub kind: ParseErrorKind,
    pub line: nat,
    pub lexeme: Seq<char>,
    pub message: Seq<char>,
}

impl View for ParseError {
    type V = ParseErrorView;

    open spec fn view(&self) -> ParseErrorView {
        ParseErrorView {
            kind: self.kind,
            line: self.line as nat,
            lexeme: self.lexeme@,
            message: self.message@,
        }
    }
}

impl ParseErrorView {
    /// The text `"[Line <line>] Syntax error: <message> (at '<lexeme>')"`.
    pub open spec fn text(self) -> Seq<char> {
        "[Line "@ + decimal_digits(self.line) + "] Syntax error: "@ + self.message + " (at '"@
            + self.lexeme + "')"@
    }
}

impl ParseError {
    /// The error as free text.
    pub fn to_lemon_error(&self) -> (e: LemonError)
        ensures
            e.message@ == self@.text(),
    {
        let mut text = "[Line ".to_owned();
        push_decimal(&mut text, self.line);
        text.append("] Syntax error: ");
        text.append(self.message.as_str());
        text.append(" (at '");
        text.append(self.lexeme.as_str());
        text.append("')");
        LemonError { message: text }
    }
}

} // verus!
