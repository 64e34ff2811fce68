//! The shape of a numeric literal.
//!
//! A text is a numeric literal when it follows this grammar, letter case
//! ignored:
//!
//! ```text
//! Float    ::= Sign? ( 'inf' | 'infinity' | 'nan' | Decimal )
//! Decimal  ::= Mantissa Exponent?
//! Mantissa ::= Digit+ | Digit+ '.' Digit* | Digit* '.' Digit+
//! Exponent ::= 'e' Sign? Digit+
//! Sign     ::= '+' | '-'
//! Digit    ::= '0' ... '9'
//! ```

use vstd::prelude::*;
use crate::text::{ascii_lower, ascii_lowercase, is_ascii_digit, is_ascii_letter};

verus! {

/// Whether every character of `s` is a decimal digit.
pub open spec fn all_digits(s: Seq<char>) -> bool {
    forall|i: int| 0 <= i < s.len() ==> is_ascii_digit(#[trigger] s[i])
}

/// `'+'` or `'-'`.
pub open spec fn is_sign(c: char) -> bool {
    c == '+' || c == '-'
}

/// `s` without its leading sign, if it has one.
pub open spec fn unsigned_part(s: Seq<char>) -> Seq<char> {
    if s.len() > 0 && is_sign(s[0]) {
        s.skip(1)
    } else {
        s
    }
}

/// Digits with at most one decimal point among them, and at least one digit.
pub open spec fn is_mantissa(s: Seq<char>) -> bool {
    ||| s.len() > 0 && all_digits(s)
    ||| exists|k: int|
        0 <= k < s.len() && s[k] == '.' && s.len() > 1 && all_digits(#[trigger] s.take(k))
            && all_digits(s.skip(k + 1))
}

/// `e` or `E`, an optional sign, and at least one digit.
pub open spec fn is_exponent(s: Seq<char>) -> bool {
    &&& s.len() > 0
    &&& (s[0] == 'e' || s[0] == 'E')
    &&& unsigned_part(s.skip(1)).len() > 0
    &&& all_digits(unsigned_part(s.skip(1)))
}

/// A mantissa, optionally followed by an exponent.
pub open spec fn is_decimal(s: Seq<char>) -> bool {
    ||| is_mantissa(s)
    ||| exists|k: int|
        0 < k < s.len() && is_mantissa(#[trigger] s.take(k)) && is_exponent(s.skip(k))
}

/// `inf`, `infinity` or `nan`, in any letter case.
pub open spec fn is_special(s: Seq<char>) -> bool {
    ||| ascii_lowercase(s) == "inf"@
    ||| ascii_lowercase(s) == "infinity"@
    ||| ascii_lowercase(s) == "nan"@
}

/// Whether `s` is a numeric literal: an optional sign followed by a special
/// value or a decimal number.
pub open spec fn is_float_literal(s: Seq<char>) -> bool {
    is_special(unsigned_part(s)) || is_decimal(unsigned_part(s))
}

/// The lower-case form of an ASCII character.
pub fn to_ascii_lower(c: char) -> (r: char)
    ensures
        r == ascii_lower(c),
{
    if 'A' <= c && c <= 'Z' {
        ((c as u8) + 32) as char
    } else {
        c
    }
}

/// The index of the first character at or after `from` that is no digit.
fn skip_digits(word: &[char], from: usize) -> (to: usize)
    requires
        from <= word@.len(),
    ensures
        from <= to <= word@.len(),
        forall|i: int| from <= i < to ==> is_ascii_digit(#[trigger] word@[i]),
        to == word@.len() || !is_ascii_digit(word@[to as int]),
{
    let mut to: usize = from;
    while to < word.len() && '0' <= word[to] && word[to] <= '9'
        invariant
            from <= to <= word@.len(),
            forall|i: int| from <= i < to ==> is_ascii_digit(#[trigger] word@[i]),
        decreases word@.len() - to,
    {
        to += 1;
    }
    to
}

/// Whether `word[from..]`, brought to lower case, spells `text`.
fn spells_ignoring_case(word: &[char], from: usize, text: &str) -> (r: bool)
    requires
        from <= word@.len(),
    ensures
        r == (ascii_lowercase(word@.skip(from as int)) == text@),
{
    let ghost rest = word@.skip(from as int);
    let mut i: usize = from;
    for c in it: text.chars()
        invariant
            it.seq() == text@,
            i == from + it.index(),
            i <= word@.len(),
            rest == word@.skip(from as int),
            ascii_lowercase(rest).take(it.index() as int) == text@.take(it.index() as int),
    {
        if i >= word.len() || to_ascii_lower(word[i]) != c {
            assert(ascii_lowercase(rest) != text@) by {
                if ascii_lowercase(rest) == text@ {
                    assert(ascii_lowercase(rest)[i - from] == text@[i - from]);
                }
            }
            return false;
        }
        i += 1;
    }
    proof {
        assert(text@.take((i - from) as int) == text@);
        if i == word@.len() {
            assert(ascii_lowercase(rest).take((i - from) as int) == ascii_lowercase(rest));
        }
    }
    i == word.len()
}

/// Where a scan over `u` from its start stops: `a` is the first character that
/// is no digit, and `b` is `a` again unless a decimal point stands at `a`, in
/// which case `b` is the first character after the point that is no digit.
pub open spec fn scan_stops(u: Seq<char>, a: int, b: int) -> bool {
    &&& 0 <= a <= b <= u.len()
    &&& forall|i: int| 0 <= i < a ==> is_ascii_digit(#[trigger] u[i])
    &&& a == u.len() || !is_ascii_digit(u[a])
    &&& if a < u.len() && u[a] == '.' {
        &&& a < b
        &&& forall|i: int| a < i < b ==> is_ascii_digit(#[trigger] u[i])
        &&& b == u.len() || !is_ascii_digit(u[b])
    } else {
        b == a
    }
}

/// The number of digits that the scan passed.
pub open spec fn scanned_digits(a: int, b: int) -> int {
    if a < b {
        b - 1
    } else {
        a
    }
}

/// A mantissa that ends at the end of the text, or before a character that is
/// neither a digit nor a decimal point, ends where the scan stops.
proof fn lemma_mantissa_ends_at_stop(u: Seq<char>, a: int, b: int, k: int)
    requires
        scan_stops(u, a, b),
        0 <= k <= u.len(),
        is_mantissa(u.take(k)),
        k == u.len() || (!is_ascii_digit(u[k]) && u[k] != '.'),
    ensures
        k == b,
        scanned_digits(a, b) > 0,
{
    let m = u.take(k);
    if m.len() > 0 && all_digits(m) {
        assert forall|i: int| 0 <= i < k implies is_ascii_digit(u[i]) by {
            assert(m[i] == u[i]);
        }
        if a < k {
            assert(is_ascii_digit(u[a]));
        }
        assert(a == k);
    } else {
        let j = choose|j: int|
            0 <= j < m.len() && m[j] == '.' && m.len() > 1 && all_digits(#[trigger] m.take(j))
                && all_digits(m.skip(j + 1));
        assert(u[j] == m[j]);
        assert forall|i: int| 0 <= i < j implies is_ascii_digit(u[i]) by {
            assert(m.take(j)[i] == u[i]);
        }
        if a < j {
            assert(is_ascii_digit(u[a]));
        }
        assert(a == j);
        assert forall|i: int| j < i < k implies is_ascii_digit(u[i]) by {
            assert(m.skip(j + 1)[i - j - 1] == u[i]);
        }
        if b < k {
            assert(is_ascii_digit(u[b]));
        }
        assert(b == k);
    }
}

/// Where the scan passed a digit, the text up to its stop is a mantissa.
proof fn lemma_stop_is_mantissa(u: Seq<char>, a: int, b: int)
    requires
        scan_stops(u, a, b),
        scanned_digits(a, b) > 0,
    ensures
        is_mantissa(u.take(b)),
{
    let m = u.take(b);
    if a < b {
        assert(m[a] == '.');
        assert(all_digits(m.take(a)));
        assert(all_digits(m.skip(a + 1)));
    } else {
        assert(all_digits(m));
    }
}

/// Scans `word[start..]` for a mantissa: digits, and after a decimal point
/// more digits. Returns where the first run of digits stops and where the scan
/// stops.
fn scan_mantissa(word: &[char], start: usize) -> (stops: (usize, usize))
    requires
        start <= word@.len(),
    ensures
        start <= stops.0 <= stops.1 <= word@.len(),
        scan_stops(word@.skip(start as int), stops.0 - start, stops.1 - start),
{
    let a = skip_digits(word, start);
    let b = if a < word.len() && word[a] == '.' {
        skip_digits(word, a + 1)
    } else {
        a
    };
    proof {
        let u = word@.skip(start as int);
        assert forall|i: int| 0 <= i < a - start implies is_ascii_digit(#[trigger] u[i]) by {
            assert(u[i] == word@[i + start]);
        }
        assert forall|i: int| a - start < i < b - start implies is_ascii_digit(
            #[trigger] u[i],
        ) by {
            assert(u[i] == word@[i + start]);
        }
    }
    (a, b)
}

/// Whether `word[from..]` is an exponent.
fn is_exponent_at(word: &[char], from: usize) -> (r: bool)
    requires
        from <= word@.len(),
    ensures
        r == is_exponent(word@.skip(from as int)),
{
    let n = word.len();
    if from >= n || (word[from] != 'e' && word[from] != 'E') {
        return false;
    }
    let c: usize = if from + 1 < n && (word[from + 1] == '+' || word[from + 1] == '-') {
        from + 2
    } else {
        from + 1
    };
    let ghost tail = word@.skip(from as int).skip(1);
    assert(tail == word@.skip(from + 1));
    assert(unsigned_part(tail) == word@.skip(c as int));
    if c >= n {
        return false;
    }
    let end = skip_digits(word, c);
    proof {
        let d = word@.skip(c as int);
        if end == n {
            assert forall|i: int| 0 <= i < d.len() implies is_ascii_digit(#[trigger] d[i]) by {
                assert(d[i] == word@[i + c]);
            }
        } else {
            assert(d[end - c] == word@[end as int]);
        }
    }
    end == n
}

/// A text is a decimal number exactly when the scan passed a digit and
/// stopped at the end of the text or at the start of an exponent.
proof fn lemma_decimal_by_scan(u: Seq<char>, a: int, b: int)
    requires
        scan_stops(u, a, b),
    ensures
        is_decimal(u) == (scanned_digits(a, b) > 0 && (b == u.len() || is_exponent(u.skip(b)))),
{
    let accepted = scanned_digits(a, b) > 0 && (b == u.len() || is_exponent(u.skip(b)));
    assert(u.take(u.len() as int) == u);
    if is_mantissa(u) {
        lemma_mantissa_ends_at_stop(u, a, b, u.len() as int);
        assert(accepted);
    } else if is_decimal(u) {
        let k = choose|k: int|
            0 < k < u.len() && is_mantissa(#[trigger] u.take(k)) && is_exponent(u.skip(k));
        assert(u.skip(k)[0] == u[k]);
        lemma_mantissa_ends_at_stop(u, a, b, k);
        assert(accepted);
    }
    if accepted {
        lemma_stop_is_mantissa(u, a, b);
        if b < u.len() {
            assert(is_mantissa(u.take(b)) && is_exponent(u.skip(b)));
            assert(0 < b);
            assert(is_decimal(u));
        }
    }
}

/// Whether `word[start..]` is a decimal number.
fn is_decimal_from(word: &[char], start: usize) -> (r: bool)
    requires
        start <= word@.len(),
    ensures
        r == is_decimal(word@.skip(start as int)),
{
    let (a, b) = scan_mantissa(word, start);
    let digits = if a < b {
        b - start - 1
    } else {
        a - start
    };
    proof {
        lemma_decimal_by_scan(word@.skip(start as int), a - start, b - start);
        assert(word@.skip(start as int).skip(b - start) == word@.skip(b as int));
    }
    digits > 0 && (b == word.len() || is_exponent_at(word, b))
}

/// Whether `word` is a numeric literal.
pub fn is_float_text(word: &[char]) -> (r: bool)
    ensures
        r == is_float_literal(word@),
{
    let start: usize = if word.len() > 0 && (word[0] == '+' || word[0] == '-') {
        1
    } else {
        0
    };
    assert(unsigned_part(word@) == word@.skip(start as int));
    spells_ignoring_case(word, start, "inf") || spells_ignoring_case(word, start, "infinity")
        || spells_ignoring_case(word, start, "nan") || is_decimal_from(word, start)
}

/// Every numeric literal holds a digit or a letter.
pub proof fn lemma_float_literal_has_digit_or_letter(s: Seq<char>)
    requires
        is_float_literal(s),
    ensures
        exists|i: int| 0 <= i < s.len() && (is_ascii_digit(#[trigger] s[i]) || is_ascii_letter(s[i])),
{
    let u = unsigned_part(s);
    let shift: int = if s.len() > 0 && is_sign(s[0]) {
        1
    } else {
        0
    };
    assert(forall|i: int| 0 <= i < u.len() ==> u[i] == s[i + shift]);
    if is_special(u) {
        reveal_strlit("inf");
        reveal_strlit("infinity");
        reveal_strlit("nan");
        let l = ascii_lowercase(u);
        assert(l.len() >= 3);
        assert(l[0] == ascii_lower(u[0]));
        assert(is_ascii_letter(u[0]));
        assert(u[0] == s[shift]);
    } else {
        let m = if is_mantissa(u) {
            u
        } else {
            let k = choose|k: int|
                0 < k < u.len() && is_mantissa(#[trigger] u.take(k)) && is_exponent(u.skip(k));
            u.take(k)
        };
        assert(is_mantissa(m));
        assert(forall|i: int| 0 <= i < m.len() ==> m[i] == u[i]);
        if m.len() > 0 && all_digits(m) {
            assert(is_ascii_digit(m[0]));
            assert(m[0] == s[shift]);
        } else {
            let j = choose|j: int|
                0 <= j < m.len() && m[j] == '.' && m.len() > 1 && all_digits(#[trigger] m.take(j))
                    && all_digits(m.skip(j + 1));
            if j > 0 {
                assert(is_ascii_digit(m.take(j)[0]));
                assert(m[0] == s[shift]);
            } else {
                assert(is_ascii_digit(m.skip(j + 1)[0]));
                assert(m[1] == s[1 + shift]);
            }
        }
    }
}

} // verus!
