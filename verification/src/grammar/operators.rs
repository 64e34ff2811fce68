//! The arithmetic operators.

use vstd::prelude::*;
use crate::text::{collect_chars, fingerprint, text_equals};

verus! {

/// An arithmetic operator.
#[derive(Debug, Clone, Copy, PartialEq, Eq, Structural)]
pub enum Operator {
    /// Addition: `+`
    Add,
    /// Subtraction: `-`
    Subtract,
    /// Multiplication: `*`
    Multiply,
    /// Division: `/`
    Divide,
    /// Remainder: `%`
    Modulus,
    /// Exponentiation: `^`
    Power,
}

impl Operator {
    /// The canonical spelling of the variant.
    pub open spec fn text(self) -> Seq<char> {
        match self {
            Operator::Add => "+"@,
            Operator::Subtract => "-"@,
            Operator::Multiply => "*"@,
            Operator::Divide => "/"@,
            Operator::Modulus => "%"@,
            Operator::Power => "^"@,
        }
    }

    /// The variant spelled exactly by `s`, if any.
    pub open spec fn spec_from_str(s: Seq<char>) -> Option<Operator> {
        if s == "+"@ {
            Some(Operator::Add)
        } else if s == "-"@ {
            Some(Operator::Subtract)
        } else if s == "*"@ {
            Some(Operator::Multiply)
        } else if s == "/"@ {
            Some(Operator::Divide)
        } else if s == "%"@ {
            Some(Operator::Modulus)
        } else if s == "^"@ {
            Some(Operator::Power)
        } else {
            None
        }
    }

    /// The canonical spelling of the variant.
    pub fn as_str(&self) -> (r: &'static str)
        ensures
            r@ == self.text(),
    {
        match self {
            Operator::Add => "+",
            Operator::Subtract => "-",
            Operator::Multiply => "*",
            Operator::Divide => "/",
            Operator::Modulus => "%",
            Operator::Power => "^",
        }
    }

    /// The canonical spelling of the variant as an owned string.
    pub fn to_string(&self) -> (r: String)
        ensures
            r@ == self.text(),
    {
        self.as_str().to_owned()
    }

    /// Looks `word` up among the accepted spellings.
    pub fn lookup(word: &[char]) -> (r: Option<Operator>)
        ensures
            r == Operator::spec_from_str(word@),
    {
        if text_equals(word, "+") {
            Some(Operator::Add)
        } else if text_equals(word, "-") {
            Some(Operator::Subtract)
        } else if text_equals(word, "*") {
            Some(Operator::Multiply)
        } else if text_equals(word, "/") {
            Some(Operator::Divide)
        } else if text_equals(word, "%") {
            Some(Operator::Modulus)
        } else if text_equals(word, "^") {
            Some(Operator::Power)
        } else {
            None
        }
    }

    /// Reading the canonical spelling of a variant gives the variant back.
    pub proof fn text_round_trip(v: Operator)
        ensures
            Operator::spec_from_str(v.text()) == Some(v),
    {
        // The fingerprint of each spelling puts its characters before the solver,
        // which then tells the spellings apart.
        reveal_strlit("+");
        assert(fingerprint("+"@).0 == 1);
        reveal_strlit("-");
        assert(fingerprint("-"@).0 == 1);
        reveal_strlit("*");
        assert(fingerprint("*"@).0 == 1);
        reveal_strlit("/");
        assert(fingerprint("/"@).0 == 1);
        reveal_strlit("%");
        assert(fingerprint("%"@).0 == 1);
        reveal_strlit("^");
        assert(fingerprint("^"@).0 == 1);
    }

    /// Converts the spelling of an arithmetic operator to the operator:
    /// `"*"` gives `Operator::Multiply`. Any other text gives `None`.
    pub fn from_str(s: &str) -> (r: Option<Operator>)
        ensures
            r == Operator::spec_from_str(s@),
    {
        let word = collect_chars(s);
        Operator::lookup(word.as_slice())
    }
}

} // verus!
