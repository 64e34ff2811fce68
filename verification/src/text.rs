//! Character and string helpers shared by the lexical tables and the lexer.
//!
//! Strings are modelled by their sequence of characters (`Seq<char>`). The
//! helpers here move between `&str`, `String` and character slices, and state
//! the character classes the lexer relies on.

use vstd::prelude::*;

verus! {

/// `String::push`, taken on trust: the string afterwards holds the characters
/// it held before, followed by `c`.
pub assume_specification[ std::string::String::push ](s: &mut std::string::String, c: char)
    ensures
        final(s)@ == old(s)@.push(c),
;

/// The characters of `s`, in order.
pub fn collect_chars(s: &str) -> (v: Vec<char>)
    ensures
        v@ == s@,
{
    let mut v: Vec<char> = Vec::new();
    for c in it: s.chars()
        invariant
            it.seq() == s@,
            v@ == it.seq().take(it.index() as int),
    {
        v.push(c);
    }
    v
}

/// A string holding `chars[from..to]`.
pub fn string_from_chars(chars: &[char], from: usize, to: usize) -> (s: String)
    requires
        from <= to <= chars@.len(),
    ensures
        s@ == chars@.subrange(from as int, to as int),
{
    let mut s = String::new();
    let mut i: usize = from;
    while i < to
        invariant
            from <= i <= to <= chars@.len(),
            s@ == chars@.subrange(from as int, i as int),
        decreases to - i,
    {
        s.push(chars[i]);
        i += 1;
    }
    s
}

/// Whether `word` spells exactly `text`.
pub fn text_equals(word: &[char], text: &str) -> (r: bool)
    ensures
        r == (word@ == text@),
{
    let mut i: usize = 0;
    for c in it: text.chars()
        invariant
            it.seq() == text@,
            i == it.index(),
            i <= word@.len(),
            word@.take(i as int) == text@.take(i as int),
    {
        if i >= word.len() || word[i] != c {
            assert(word@ != text@) by {
                if word@ == text@ {
                    assert(word@[i as int] == text@[i as int]);
                }
            }
            return false;
        }
        i += 1;
    }
    proof {
        assert(i == text@.len());
        assert(text@.take(i as int) == text@);
        if i == word@.len() {
            assert(word@.take(i as int) == word@);
        }
    }
    i == word.len()
}

/// The character of `s` at index `i`, or NUL beyond its end.
pub open spec fn char_at(s: Seq<char>, i: int) -> char {
    if 0 <= i < s.len() {
        s[i]
    } else {
        '\0'
    }
}

/// The length of `s` with its first eight characters. Two texts of at most
/// eight characters with the same fingerprint are equal, so comparing
/// fingerprints tells the short spellings of the lexical tables apart.
pub open spec fn fingerprint(s: Seq<char>) -> (nat, char, char, char, char, char, char, char, char) {
    (
        s.len(),
        char_at(s, 0),
        char_at(s, 1),
        char_at(s, 2),
        char_at(s, 3),
        char_at(s, 4),
        char_at(s, 5),
        char_at(s, 6),
        char_at(s, 7),
    )
}

/// Whether `c` is one of the 128 ASCII characters.
pub open spec fn is_ascii_char(c: char) -> bool {
    c <= '\u{7f}'
}

/// `'0'` to `'9'`.
pub open spec fn is_ascii_digit(c: char) -> bool {
    '0' <= c && c <= '9'
}

/// `'a'` to `'z'` and `'A'` to `'Z'`.
pub open spec fn is_ascii_letter(c: char) -> bool {
    ('a' <= c && c <= 'z') || ('A' <= c && c <= 'Z')
}

/// The printable ASCII characters other than the space: `'!'` to `'~'`.
pub open spec fn is_ascii_graphic(c: char) -> bool {
    '!' <= c && c <= '~'
}

/// Whether a character beyond ASCII has the Unicode `White_Space` property.
pub uninterp spec fn unicode_white_space(c: char) -> bool;

/// White space: among ASCII characters the space and the controls from tab to
/// carriage return; beyond ASCII whatever Unicode marks as `White_Space`.
pub open spec fn is_whitespace(c: char) -> bool {
    if is_ascii_char(c) {
        c == ' ' || ('\t' <= c && c <= '\r')
    } else {
        unicode_white_space(c)
    }
}

/// Calls `char::is_whitespace`. Taken on trust: for an ASCII character the
/// result is true exactly for the space and for the five controls from tab to
/// carriage return; for any other character it is `unicode_white_space` of
/// that character, of which nothing more is claimed.
#[verifier::external_body]
pub(crate) fn char_is_whitespace(c: char) -> (r: bool)
    ensures
        r == (if is_ascii_char(c) {
            c == ' ' || ('\t' <= c && c <= '\r')
        } else {
            unicode_white_space(c)
        }),
{
    c.is_whitespace()
}

/// Whether a character beyond ASCII is alphabetic or numeric in Unicode.
pub uninterp spec fn unicode_alphanumeric(c: char) -> bool;

/// Letters and digits: among ASCII characters `a-z`, `A-Z` and `0-9`; beyond
/// ASCII whatever Unicode classes as alphabetic or numeric.
pub open spec fn is_alphanumeric(c: char) -> bool {
    if is_ascii_char(c) {
        is_ascii_letter(c) || is_ascii_digit(c)
    } else {
        unicode_alphanumeric(c)
    }
}

/// Calls `char::is_alphanumeric`. Taken on trust: for an ASCII character the
/// result is true exactly for the letters and the digits; for any other
/// character it is `unicode_alphanumeric` of that character, of which nothing
/// more is claimed.
#[verifier::external_body]
pub(crate) fn char_is_alphanumeric(c: char) -> (r: bool)
    ensures
        r == (if is_ascii_char(c) {
            is_ascii_letter(c) || is_ascii_digit(c)
        } else {
            unicode_alphanumeric(c)
        }),
{
    c.is_alphanumeric()
}

/// Whether every character of `s` is ASCII.
pub open spec fn is_ascii_text(s: Seq<char>) -> bool {
    forall|i: int| 0 <= i < s.len() ==> is_ascii_char(#[trigger] s[i])
}

/// The lower-case form of an ASCII character: `A-Z` become `a-z`, every other
/// character is kept.
pub open spec fn ascii_lower(c: char) -> char {
    if 'A' <= c && c <= 'Z' {
        ((c as u32) + 32) as char
    } else {
        c
    }
}

/// The lower-case form of an ASCII text, character by character.
pub open spec fn ascii_lowercase(s: Seq<char>) -> Seq<char> {
    s.map_values(|c: char| ascii_lower(c))
}

/// The Unicode lower-case form of a text that holds a character beyond ASCII.
pub uninterp spec fn unicode_lowercase(s: Seq<char>) -> Seq<char>;

/// The lower-case form of a text: ASCII texts change letter by letter, any
/// other text as Unicode prescribes.
pub open spec fn lowercase(s: Seq<char>) -> Seq<char> {
    if is_ascii_text(s) {
        ascii_lowercase(s)
    } else {
        unicode_lowercase(s)
    }
}

/// Calls `str::to_lowercase`. Taken on trust: a text of ASCII characters comes
/// back with `A-Z` replaced by `a-z` and nothing else changed; for any other
/// text the result is `unicode_lowercase` of that text, of which nothing more
/// is claimed.
#[verifier::external_body]
pub(crate) fn str_to_lowercase(s: &str) -> (r: String)
    ensures
        r@ == (if is_ascii_text(s@) {
            ascii_lowercase(s@)
        } else {
            unicode_lowercase(s@)
        }),
{
    s.to_lowercase()
}

/// The character for a digit value below ten.
pub open spec fn digit_char(d: nat) -> char {
    (('0' as u8) + d) as char
}

/// The decimal representation of `n`, without leading zeros.
pub open spec fn decimal_digits(n: nat) -> Seq<char>
    decreases n,
{
    if n < 10 {
        seq![digit_char(n)]
    } else {
        decimal_digits(n / 10).push(digit_char(n % 10))
    }
}

/// Appends the decimal representation of `n` to `s`.
pub fn push_decimal(s: &mut String, n: usize)
    ensures
        final(s)@ == old(s)@ + decimal_digits(n as nat),
    decreases n,
{
    if n >= 10 {
        push_decimal(s, n / 10);
    }
    let d: u8 = (n % 10) as u8;
    s.push((('0' as u8) + d) as char);
    assert(s@ == old(s)@ + decimal_digits(n as nat));
}

} // verus!
