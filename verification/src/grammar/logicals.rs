//! The logical connectives.

use vstd::prelude::*;
use crate::text::{collect_chars, fingerprint, text_equals};

verus! {

/// A logical connective. Each has a symbolic spelling (`&&`, `||`, `!`), which
/// is the canonical one, and a verbal spelling (`and`, `or`, `not`).
#[derive(Debug, Clone, Copy, PartialEq, Eq, Structural)]
pub enum Logical {
    /// Conjunction: `&&` or `and`
    And,
    /// Disjunction: `||` or `or`
    Or,
    /// Negation: `!` or `not`
    Not,
}

impl Logical {
    /// The canonical spelling of the variant.
    pub open spec fn text(self) -> Seq<char> {
        match self {
            Logical::And => "&&"@,
            Logical::Or => "||"@,
            Logical::Not => "!"@,
        }
    }

    /// The variant spelled exactly by `s`, if any.
    pub open spec fn spec_from_str(s: Seq<char>) -> Option<Logical> {
        if s == "and"@ {
            Some(Logical::And)
        } else if s == "&&"@ {
            Some(Logical::And)
        } else if s == "or"@ {
            Some(Logical::Or)
        } else if s == "||"@ {
            Some(Logical::Or)
        } else if s == "not"@ {
            Some(Logical::Not)
        } else if s == "!"@ {
            Some(Logical::Not)
        } else {
            None
        }
    }

    /// The canonical spelling of the variant.
    pub fn as_str(&self) -> (r: &'static str)
        ensures
            r@ == self.text(),
    {
        match self {
            Logical::And => "&&",
            Logical::Or => "||",
            Logical::Not => "!",
        }
    }

    /// The canonical spelling of the variant as an owned string.
    pub fn to_string(&self) -> (r: String)
        ensures
            r@ == self.text(),
    {
        self.as_str().to_owned()
    }

    /// Looks `word` up among the accepted spellings.
    pub fn lookup(word: &[char]) -> (r: Option<Logical>)
        ensures
            r == Logical::spec_from_str(word@),
    {
        if text_equals(word, "and") {
            Some(Logical::And)
        } else if text_equals(word, "&&") {
            Some(Logical::And)
        } else if text_equals(word, "or") {
            Some(Logical::Or)
        } else if text_equals(word, "||") {
            Some(Logical::Or)
        } else if text_equals(word, "not") {
            Some(Logical::Not)
        } else if text_equals(word, "!") {
            Some(Logical::Not)
        } else {
            None
        }
    }

    /// Reading the canonical spelling of a variant gives the variant back.
    pub proof fn text_round_trip(v: Logical)
        ensures
            Logical::spec_from_str(v.text()) == Some(v),
    {
        // The fingerprint of each spelling puts its characters before the solver,
        // which then tells the spellings apart.
        reveal_strlit("and");
        assert(fingerprint("and"@).0 == 3);
        reveal_strlit("&&");
        assert(fingerprint("&&"@).0 == 2);
        reveal_strlit("or");
        assert(fingerprint("or"@).0 == 2);
        reveal_strlit("||");
        assert(fingerprint("||"@).0 == 2);
        reveal_strlit("not");
        assert(fingerprint("not"@).0 == 3);
        reveal_strlit("!");
        assert(fingerprint("!"@).0 == 1);
    }

    /// Converts a symbolic or verbal spelling to the connective: `"and"` and
    /// `"&&"` both give `Logical::And`. Any other text gives `None`.
    pub fn from_str(s: &str) -> (r: Option<Logical>)
        ensures
            r == Logical::spec_from_str(s@),
    {
        let word = collect_chars(s);
        Logical::lookup(word.as_slice())
    }
}

} // verus!
