//! The punctuation symbols.

use vstd::prelude::*;

verus! {

/// A punctuation symbol: a single character that delimits blocks, lists,
/// arguments and groupings.
#[derive(Debug, Clone, Copy, PartialEq, Eq, Structural)]
pub enum Symbol {
    /// Definition or assignment: `=`
    Define,
    /// Left parenthesis: `(`
    OpenParen,
    /// Right parenthesis: `)`
    CloseParen,
    /// Left brace: `{`
    OpenBrace,
    /// Right brace: `}`
    CloseBrace,
    /// Left bracket: `[`
    OpenBraket,
    /// Right bracket: `]`
    CloseBraket,
    /// Semicolon: `;`
    Semicolon,
    /// Comma: `,`
    Comma,
    /// Dot: `.`
    Dot,
    /// Question mark: `?`
    Question,
    /// Colon: `:`
    Colon,
}

impl Symbol {
    /// The character that spells the symbol.
    pub open spec fn spec_to_char(self) -> char {
        match self {
            Symbol::Define => '=',
            Symbol::OpenParen => '(',
            Symbol::CloseParen => ')',
            Symbol::OpenBrace => '{',
            Symbol::CloseBrace => '}',
            Symbol::OpenBraket => '[',
            Symbol::CloseBraket => ']',
            Symbol::Semicolon => ';',
            Symbol::Comma => ',',
            Symbol::Dot => '.',
            Symbol::Question => '?',
            Symbol::Colon => ':',
        }
    }

    /// The symbol spelled by `c`, if any.
    pub open spec fn spec_from_char(c: char) -> Option<Symbol> {
        if c == '=' {
            Some(Symbol::Define)
        } else if c == '(' {
            Some(Symbol::OpenParen)
        } else if c == ')' {
            Some(Symbol::CloseParen)
        } else if c == '{' {
            Some(Symbol::OpenBrace)
        } else if c == '}' {
            Some(Symbol::CloseBrace)
        } else if c == '[' {
            Some(Symbol::OpenBraket)
        } else if c == ']' {
            Some(Symbol::CloseBraket)
        } else if c == ';' {
            Some(Symbol::Semicolon)
        } else if c == ',' {
            Some(Symbol::Comma)
        } else if c == '.' {
            Some(Symbol::Dot)
        } else if c == '?' {
            Some(Symbol::Question)
        } else if c == ':' {
            Some(Symbol::Colon)
        } else {
            None
        }
    }

    /// Converts a character to the symbol it spells: `'('` gives
    /// `Symbol::OpenParen`. Any other character gives `None`.
    pub fn from_char(c: char) -> (r: Option<Symbol>)
        ensures
            r == Symbol::spec_from_char(c),
            r matches Some(s) ==> s.spec_to_char() == c,
    {
        match c {
            '=' => Some(Symbol::Define),
            '(' => Some(Symbol::OpenParen),
            ')' => Some(Symbol::CloseParen),
            '{' => Some(Symbol::OpenBrace),
            '}' => Some(Symbol::CloseBrace),
            '[' => Some(Symbol::OpenBraket),
            ']' => Some(Symbol::CloseBraket),
            ';' => Some(Symbol::Semicolon),
            ',' => Some(Symbol::Comma),
            '.' => Some(Symbol::Dot),
            '?' => Some(Symbol::Question),
            ':' => Some(Symbol::Colon),
            _ => None,
        }
    }

    /// The character that spells the symbol: `Symbol::OpenBrace` gives `'{'`.
    pub fn to_char(&self) -> (c: char)
        ensures
            c == self.spec_to_char(),
            Symbol::spec_from_char(c) == Some(*self),
    {
        match self {
            Symbol::Define => '=',
            Symbol::OpenParen => '(',
            Symbol::CloseParen => ')',
            Symbol::OpenBrace => '{',
            Symbol::CloseBrace => '}',
            Symbol::OpenBraket => '[',
            Symbol::CloseBraket => ']',
            Symbol::Semicolon => ';',
            Symbol::Comma => ',',
            Symbol::Dot => '.',
            Symbol::Question => '?',
            Symbol::Colon => ':',
        }
    }
}

} // verus!
