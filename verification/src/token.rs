//! The tokens that the lexer produces and the parser consumes.

use vstd::prelude::*;
use crate::grammar::{Comment, Comparator, Keyword, Logical, Operator, Symbol, Type};

verus! {

/// The kind of a token.
#[derive(Debug, Clone, Copy, PartialEq, Eq, Structural)]
pub enum TokenType {
    /// The name of a variable, a function or a property.
    Identifier,
    /// A numeric literal.
    Number,
    /// A reserved word such as `let`, `if` or `while`.
    Keyword(Keyword),
    /// A punctuation symbol such as `(`, `;` or `=`.
    Symbol(Symbol),
    /// A word that fits no other kind.
    Unknown,
    /// An arithmetic operator: `+`, `-`, `*`, `/`, `%`, `^`.
    Operator(Operator),
    /// A relational comparator: `==`, `!=`, `<`, `>`, `<=`, `>=`.
    Comparator(Comparator),
    /// A logical connective: `&&`, `||`, `!`, `and`, `or`, `not`.
    Logical(Logical),
    /// The name of a primitive type such as `int` or `string`.
    Type(Type),
    /// A stray comment marker.
    Comment(Comment),
    /// A string literal; the token's value is the decoded text.
    StringLiteral,
    /// The end of the input. Every token sequence ends with exactly one.
    EOF,
}

/// A token: its kind, its text, and the line and column (both counted from
/// one) of its first character.
#[derive(Debug, PartialEq, Eq)]
pub struct Token {
    pub token_type: TokenType,
    pub value: String,
    pub line: usize,
    pub column: usize,
}

/// The mathematical value of a [`Token`].
pub struct TokenView {
    pub token_type: TokenType,
    pub value: Seq<char>,
    pub line: nat,
    pub column: nat,
}

impl View for Token {
    type V = TokenView;

    open spec fn view(&self) -> TokenView {
        TokenView {
            token_type: self.token_type,
            value: self.value@,
            line: self.line as nat,
            column: self.column as nat,
        }
    }
}

impl Clone for Token {
    /// A copy of the token.
    fn clone(&self) -> (r: Self)
        ensures
            r == *self,
    {
        Token {
            token_type: self.token_type,
            value: self.value.clone(),
            line: self.line,
            column: self.column,
        }
    }
}

/// The values of a sequence of tokens.
pub open spec fn token_views(tokens: Seq<Token>) -> Seq<TokenView> {
    tokens.map_values(|t: Token| t@)
}

/// Whether `tokens` ends with the `EOF` token and holds no other one.
pub open spec fn ends_with_only_eof(tokens: Seq<TokenView>) -> bool {
    &&& tokens.len() > 0
    &&& tokens.last().token_type == TokenType::EOF
    &&& forall|i: int|
        0 <= i < tokens.len() - 1 ==> (#[trigger] tokens[i]).token_type != TokenType::EOF
}

/// Whether token `a` starts before token `b` in the source.
pub open spec fn comes_before(a: TokenView, b: TokenView) -> bool {
    a.line < b.line || (a.line == b.line && a.column < b.column)
}

/// Whether the tokens stand in the order of their places in the source, no
/// two at the same place.
pub open spec fn in_source_order(tokens: Seq<TokenView>) -> bool {
    forall|i: int, j: int|
        0 <= i < j < tokens.len() ==> comes_before(#[trigger] tokens[i], #[trigger] tokens[j])
}

} // verus!
