//! The relational comparators.

use vstd::prelude::*;
use crate::text::{collect_chars, fingerprint, text_equals};

verus! {

/// A relational comparator.
#[derive(Debug, Clone, Copy, PartialEq, Eq, Structural)]
pub enum Comparator {
    /// Equality: `==`
    Equal,
    /// Inequality: `!=`
    NotEqual,
    /// Greater than: `>`
    Greater,
    /// Less than: `<`
    Less,
    /// Greater than or equal: `>=`
    GreaterEqual,
    /// Less than or equal: `<=`
    LessEqual,
}

impl Comparator {
    /// The canonical spelling of the variant.
    pub open spec fn text(self) -> Seq<char> {
        match self {
            Comparator::Equal => "=="@,
            Comparator::NotEqual => "!="@,
            Comparator::Greater => ">"@,
            Comparator::Less => "<"@,
            Comparator::GreaterEqual => ">="@,
            Comparator::LessEqual => "<="@,
        }
    }

    /// The variant spelled exactly by `s`, if any.
    pub open spec fn spec_from_str(s: Seq<char>) -> Option<Comparator> {
        if s == "=="@ {
            Some(Comparator::Equal)
        } else if s == "!="@ {
            Some(Comparator::NotEqual)
        } else if s == ">"@ {
            Some(Comparator::Greater)
        } else if s == "<"@ {
            Some(Comparator::Less)
        } else if s == ">="@ {
            Some(Comparator::GreaterEqual)
        } else if s == "<="@ {
            Some(Comparator::LessEqual)
        } else {
            None
        }
    }

    /// The canonical spelling of the variant.
    pub fn as_str(&self) -> (r: &'static str)
        ensures
            r@ == self.text(),
    {
        match self {
            Comparator::Equal => "==",
            Comparator::NotEqual => "!=",
            Comparator::Greater => ">",
            Comparator::Less => "<",
            Comparator::GreaterEqual => ">=",
            Comparator::LessEqual => "<=",
        }
    }

    /// Looks `word` up among the accepted spellings.
    pub fn lookup(word: &[char]) -> (r: Option<Comparator>)
        ensures
            r == Comparator::spec_from_str(word@),
    {
        if text_equals(word, "==") {
            Some(Comparator::Equal)
        } else if text_equals(word, "!=") {
            Some(Comparator::NotEqual)
        } else if text_equals(word, ">") {
            Some(Comparator::Greater)
        } else if text_equals(word, "<") {
            Some(Comparator::Less)
        } else if text_equals(word, ">=") {
            Some(Comparator::GreaterEqual)
        } else if text_equals(word, "<=") {
            Some(Comparator::LessEqual)
        } else {
            None
        }
    }

    /// Reading the canonical spelling of a variant gives the variant back.
    pub proof fn text_round_trip(v: Comparator)
        ensures
            Comparator::spec_from_str(v.text()) == Some(v),
    {
        // The fingerprint of each spelling puts its characters before the solver,
        // which then tells the spellings apart.
        reveal_strlit("==");
        assert(fingerprint("=="@).0 == 2);
        reveal_strlit("!=");
        assert(fingerprint("!="@).0 == 2);
        reveal_strlit(">");
        assert(fingerprint(">"@).0 == 1);
        reveal_strlit("<");
        assert(fingerprint("<"@).0 == 1);
        reveal_strlit(">=");
        assert(fingerprint(">="@).0 == 2);
        reveal_strlit("<=");
        assert(fingerprint("<="@).0 == 2);
    }

    /// Converts the spelling of a comparator to the comparator: `">="` gives
    /// `Comparator::GreaterEqual`. Any other text gives `None`.
    pub fn from_str(s: &str) -> (r: Option<Comparator>)
        ensures
            r == Comparator::spec_from_str(s@),
    {
        let word = collect_chars(s);
        Comparator::lookup(word.as_slice())
    }
}

} // verus!
