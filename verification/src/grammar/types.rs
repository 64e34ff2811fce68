//! The names of the primitive types.

use vstd::prelude::*;
use crate::text::{char_at, collect_chars, fingerprint, text_equals};

verus! {

/// A primitive type name.
#[derive(Debug, Clone, Copy, PartialEq, Eq, Structural)]
pub enum Type {
    /// Integer: `int`
    Int,
    /// Decimal number: `float`
    Float,
    /// Text: `string`
    String,
    /// Truth value: `bool`
    Bool,
    /// Absent value: `null`
    Null,
    /// Ordered collection: `list`
    List,
    /// Two-dimensional matrix: `matrix`
    Matrix,
    /// Key-value dictionary: `map`
    Dictionary,
}

impl Type {
    /// The canonical spelling of the variant.
    pub open spec fn text(self) -> Seq<char> {
        match self {
            Type::Int => "int"@,
            Type::Float => "float"@,
            Type::String => "string"@,
            Type::Bool => "bool"@,
            Type::Null => "null"@,
            Type::List => "list"@,
            Type::Matrix => "matrix"@,
            Type::Dictionary => "map"@,
        }
    }

    /// The variant spelled exactly by `s`, if any.
    pub open spec fn spec_from_str(s: Seq<char>) -> Option<Type> {
        if s == "int"@ {
            Some(Type::Int)
        } else if s == "float"@ {
            Some(Type::Float)
        } else if s == "string"@ {
            Some(Type::String)
        } else if s == "bool"@ {
            Some(Type::Bool)
        } else if s == "null"@ {
            Some(Type::Null)
        } else if s == "list"@ {
            Some(Type::List)
        } else if s == "matrix"@ {
            Some(Type::Matrix)
        } else if s == "map"@ {
            Some(Type::Dictionary)
        } else {
            None
        }
    }

    /// The canonical spelling of the variant.
    pub fn as_str(&self) -> (r: &'static str)
        ensures
            r@ == self.text(),
    {
        match self {
            Type::Int => "int",
            Type::Float => "float",
            Type::String => "string",
            Type::Bool => "bool",
            Type::Null => "null",
            Type::List => "list",
            Type::Matrix => "matrix",
            Type::Dictionary => "map",
        }
    }

    /// Looks `word` up among the accepted spellings.
    pub fn lookup(word: &[char]) -> (r: Option<Type>)
        ensures
            r == Type::spec_from_str(word@),
    {
        if text_equals(word, "int") {
            Some(Type::Int)
        } else if text_equals(word, "float") {
            Some(Type::Float)
        } else if text_equals(word, "string") {
            Some(Type::String)
        } else if text_equals(word, "bool") {
            Some(Type::Bool)
        } else if text_equals(word, "null") {
            Some(Type::Null)
        } else if text_equals(word, "list") {
            Some(Type::List)
        } else if text_equals(word, "matrix") {
            Some(Type::Matrix)
        } else if text_equals(word, "map") {
            Some(Type::Dictionary)
        } else {
            None
        }
    }

    /// Every spelling consists of lower-case letters.
    pub proof fn lemma_spellings_are_lowercase(s: Seq<char>)
        requires
            Type::spec_from_str(s) is Some,
        ensures
            3 <= s.len() <= 6,
            forall|i: int| 0 <= i < s.len() ==> 'a' <= #[trigger] s[i] <= 'z',
    {
        // The fingerprint of each spelling puts its characters before the solver.
        reveal_strlit("int");
        assert(fingerprint("int"@).0 == 3);
        reveal_strlit("float");
        assert(fingerprint("float"@).0 == 5);
        reveal_strlit("string");
        assert(fingerprint("string"@).0 == 6);
        reveal_strlit("bool");
        assert(fingerprint("bool"@).0 == 4);
        reveal_strlit("null");
        assert(fingerprint("null"@).0 == 4);
        reveal_strlit("list");
        assert(fingerprint("list"@).0 == 4);
        reveal_strlit("matrix");
        assert(fingerprint("matrix"@).0 == 6);
        reveal_strlit("map");
        assert(fingerprint("map"@).0 == 3);
        assert(fingerprint(s).0 == s.len());
        assert forall|i: int| 0 <= i < s.len() implies 'a' <= #[trigger] s[i] <= 'z' by {
            assert(s[i] == char_at(s, i));
        }
    }

    /// Reading the canonical spelling of a variant gives the variant back.
    pub proof fn text_round_trip(v: Type)
        ensures
            Type::spec_from_str(v.text()) == Some(v),
    {
        // The fingerprint of each spelling puts its characters before the solver,
        // which then tells the spellings apart.
        reveal_strlit("int");
        assert(fingerprint("int"@).0 == 3);
        reveal_strlit("float");
        assert(fingerprint("float"@).0 == 5);
        reveal_strlit("string");
        assert(fingerprint("string"@).0 == 6);
        reveal_strlit("bool");
        assert(fingerprint("bool"@).0 == 4);
        reveal_strlit("null");
        assert(fingerprint("null"@).0 == 4);
        reveal_strlit("list");
        assert(fingerprint("list"@).0 == 4);
        reveal_strlit("matrix");
        assert(fingerprint("matrix"@).0 == 6);
        reveal_strlit("map");
        assert(fingerprint("map"@).0 == 3);
    }

    /// Converts the name of a primitive type to the type: `"float"` gives
    /// `Type::Float`. Any other text gives `None`.
    pub fn from_str(s: &str) -> (r: Option<Type>)
        ensures
            r == Type::spec_from_str(s@),
    {
        let word = collect_chars(s);
        Type::lookup(word.as_slice())
    }
}

} // verus!
