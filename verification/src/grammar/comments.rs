//! The comment markers.

use vstd::prelude::*;
use crate::text::{collect_chars, fingerprint, text_equals};

verus! {

/// A comment marker.
#[derive(Debug, Clone, Copy, PartialEq, Eq, Structural)]
pub enum Comment {
    /// Start of a comment that runs to the end of the line: `//`
    LineComment,
    /// Start of a block comment: `/*`
    BlockCommentOpen,
    /// End of a block comment: `*/`
    BlockCommentClose,
}

impl Comment {
    /// The canonical spelling of the variant.
    pub open spec fn text(self) -> Seq<char> {
        match self {
            Comment::LineComment => "//"@,
            Comment::BlockCommentOpen => "/*"@,
            Comment::BlockCommentClose => "*/"@,
        }
    }

    /// The variant spelled exactly by `s`, if any.
    pub open spec fn spec_from_str(s: Seq<char>) -> Option<Comment> {
        if s == "//"@ {
            Some(Comment::LineComment)
        } else if s == "/*"@ {
            Some(Comment::BlockCommentOpen)
        } else if s == "*/"@ {
            Some(Comment::BlockCommentClose)
        } else {
            None
        }
    }

    /// The canonical spelling of the variant.
    pub fn as_str(&self) -> (r: &'static str)
        ensures
            r@ == self.text(),
    {
        match self {
            Comment::LineComment => "//",
            Comment::BlockCommentOpen => "/*",
            Comment::BlockCommentClose => "*/",
        }
    }

    /// Looks `word` up among the accepted spellings.
    pub fn lookup(word: &[char]) -> (r: Option<Comment>)
        ensures
            r == Comment::spec_from_str(word@),
    {
        if text_equals(word, "//") {
            Some(Comment::LineComment)
        } else if text_equals(word, "/*") {
            Some(Comment::BlockCommentOpen)
        } else if text_equals(word, "*/") {
            Some(Comment::BlockCommentClose)
        } else {
            None
        }
    }

    /// Reading the canonical spelling of a variant gives the variant back.
    pub proof fn text_round_trip(v: Comment)
        ensures
            Comment::spec_from_str(v.text()) == Some(v),
    {
        // The fingerprint of each spelling puts its characters before the solver,
        // which then tells the spellings apart.
        reveal_strlit("//");
        assert(fingerprint("//"@).0 == 2);
        reveal_strlit("/*");
        assert(fingerprint("/*"@).0 == 2);
        reveal_strlit("*/");
        assert(fingerprint("*/"@).0 == 2);
    }

    /// Converts the spelling of a comment marker to the marker: `"//"` gives
    /// `Comment::LineComment`. Any other text gives `None`.
    pub fn from_str(s: &str) -> (r: Option<Comment>)
        ensures
            r == Comment::spec_from_str(s@),
    {
        let word = collect_chars(s);
        Comment::lookup(word.as_slice())
    }
}

} // verus!
