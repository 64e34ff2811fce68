//! The lexer: one forward pass over the source text that produces the token
//! sequence, or the first lexical error.
//!
//! At each position the scan takes the first of these steps that applies:
//!
//! 1. `//` starts a line comment, which runs up to the end of the line;
//! 2. `/*` starts a block comment, which runs up to the matching `*/`;
//! 3. `"` starts a string literal;
//! 4. `&&` and `||` are logical connectives;
//! 5. `==`, `!=`, `>=` and `<=` are comparators;
//! 6. `!` is the logical negation;
//! 7. a newline starts the next line;
//! 8. any other white space is skipped;
//! 9. a punctuation symbol is a token of its own;
//! 10. a character that is not printable ASCII is an error;
//! 11. any other character starts a word, which runs up to the next position
//!     at which one of the steps above applies, and is then classified.

use vstd::prelude::*;
use crate::error::{LexError, LexErrorKind, LexErrorView};
use crate::grammar::{Comment, Comparator, Keyword, Logical, Operator, Symbol, Type};
use crate::number::{is_float_literal, is_float_text};
use crate::text::{
    char_is_alphanumeric, char_is_whitespace, collect_chars, is_alphanumeric, is_ascii_digit,
    is_ascii_graphic, is_whitespace, string_from_chars,
};
use crate::lexer_laws::{lemma_lex_from_ends_with_eof, lemma_lex_from_in_source_order};
use crate::token::{
    ends_with_only_eof, in_source_order, token_views, Token, TokenType, TokenView,
};

verus! {

/// Whether the character of `src` at index `i` exists and is `c`.
pub open spec fn char_is(src: Seq<char>, i: int, c: char) -> bool {
    0 <= i < src.len() && src[i] == c
}

/// Whether `//` stands at index `i`.
pub open spec fn starts_line_comment(src: Seq<char>, i: int) -> bool {
    char_is(src, i, '/') && char_is(src, i + 1, '/')
}

/// Whether `/*` stands at index `i`.
pub open spec fn starts_block_comment(src: Seq<char>, i: int) -> bool {
    char_is(src, i, '/') && char_is(src, i + 1, '*')
}

/// The two-character logical connective at index `i`, if one stands there.
pub open spec fn double_logical_at(src: Seq<char>, i: int) -> Option<Logical> {
    if char_is(src, i, '&') && char_is(src, i + 1, '&') {
        Some(Logical::And)
    } else if char_is(src, i, '|') && char_is(src, i + 1, '|') {
        Some(Logical::Or)
    } else {
        None
    }
}

/// The two-character comparator at index `i`, if one stands there.
pub open spec fn double_comparator_at(src: Seq<char>, i: int) -> Option<Comparator> {
    if !char_is(src, i + 1, '=') {
        None
    } else if char_is(src, i, '=') {
        Some(Comparator::Equal)
    } else if char_is(src, i, '!') {
        Some(Comparator::NotEqual)
    } else if char_is(src, i, '>') {
        Some(Comparator::GreaterEqual)
    } else if char_is(src, i, '<') {
        Some(Comparator::LessEqual)
    } else {
        None
    }
}

/// Whether the character at index `i` belongs to a word: none of the steps
/// that end a word applies there.
pub open spec fn is_word_char_at(src: Seq<char>, i: int) -> bool {
    &&& 0 <= i < src.len()
    &&& !starts_line_comment(src, i)
    &&& !starts_block_comment(src, i)
    &&& src[i] != '"'
    &&& double_logical_at(src, i) is None
    &&& double_comparator_at(src, i) is None
    &&& src[i] != '!'
    &&& !is_whitespace(src[i])
    &&& Symbol::spec_from_char(src[i]) is None
    &&& is_ascii_graphic(src[i])
}

/// The index at which the line that holds index `pos` ends: that of the next
/// newline, or the length of the text.
pub open spec fn line_end(src: Seq<char>, pos: int) -> int
    decreases src.len() - pos,
{
    if 0 <= pos < src.len() && src[pos] != '\n' {
        line_end(src, pos + 1)
    } else {
        pos
    }
}

/// The index at which the word that holds index `pos` ends.
pub open spec fn word_end(src: Seq<char>, pos: int) -> int
    decreases src.len() - pos,
{
    if is_word_char_at(src, pos) {
        word_end(src, pos + 1)
    } else {
        pos
    }
}

/// A place in the source: an index with its line and column.
pub struct Cursor {
    pub pos: int,
    pub line: nat,
    pub column: nat,
}

/// Scans the inside of a block comment from `at` on. Gives the place just
/// after the closing `*/`, or `UnclosedComment` at the place where the text
/// ends.
pub open spec fn block_comment_end(src: Seq<char>, at: Cursor) -> Result<Cursor, LexErrorView>
    decreases src.len() - at.pos,
{
    if !(0 <= at.pos < src.len()) {
        Err(LexErrorView { kind: LexErrorKind::UnclosedComment, line: at.line, column: at.column })
    } else if src[at.pos] == '*' && char_is(src, at.pos + 1, '/') {
        Ok(Cursor { pos: at.pos + 2, line: at.line, column: at.column + 2 })
    } else if src[at.pos] == '\n' {
        block_comment_end(src, Cursor { pos: at.pos + 1, line: at.line + 1, column: 1 })
    } else {
        block_comment_end(src, Cursor { pos: at.pos + 1, line: at.line, column: at.column + 1 })
    }
}

/// The character that a backslash followed by `c` stands for.
pub open spec fn escape_of(c: char) -> Option<char> {
    if c == 'n' {
        Some('\n')
    } else if c == 't' {
        Some('\t')
    } else if c == '\\' {
        Some('\\')
    } else if c == '"' {
        Some('"')
    } else {
        None
    }
}

/// Scans the inside of a string literal from `at` on, with `decoded` holding
/// what was decoded so far. Gives the decoded text and the place just after
/// the closing quote. The line is not tracked inside a string: every
/// character, a newline too, moves the column by one.
pub open spec fn string_end(src: Seq<char>, at: Cursor, decoded: Seq<char>) -> Result<
    (Seq<char>, Cursor),
    LexErrorView,
>
    decreases src.len() - at.pos,
{
    if !(0 <= at.pos < src.len()) {
        Err(LexErrorView { kind: LexErrorKind::UnclosedString, line: at.line, column: at.column })
    } else if src[at.pos] == '"' {
        Ok((decoded, Cursor { pos: at.pos + 1, line: at.line, column: at.column + 1 }))
    } else if src[at.pos] == '\\' && at.pos + 1 < src.len() {
        match escape_of(src[at.pos + 1]) {
            Some(c) => string_end(
                src,
                Cursor { pos: at.pos + 2, line: at.line, column: at.column + 2 },
                decoded.push(c),
            ),
            None => Err(
                LexErrorView {
                    kind: LexErrorKind::InvalidEscape,
                    line: at.line,
                    column: at.column + 2,
                },
            ),
        }
    } else if src[at.pos] == '\\' {
        string_end(
            src,
            Cursor { pos: at.pos + 1, line: at.line, column: at.column + 1 },
            decoded,
        )
    } else {
        string_end(
            src,
            Cursor { pos: at.pos + 1, line: at.line, column: at.column + 1 },
            decoded.push(src[at.pos]),
        )
    }
}

/// `word` with every comma replaced by a point.
pub open spec fn commas_as_points(word: Seq<char>) -> Seq<char> {
    word.map_values(|c: char| if c == ',' { '.' } else { c })
}

/// Whether `word` consists of letters, digits and underscores only.
pub open spec fn is_identifier_text(word: Seq<char>) -> bool {
    forall|i: int| 0 <= i < word.len() ==> is_alphanumeric(#[trigger] word[i]) || word[i] == '_'
}

/// The kind of token that a word is. The first of these that fits decides: a
/// numeric literal (a comma may stand for the decimal point), a keyword, a
/// type name, an arithmetic operator, a comparator, a logical connective, a
/// comment marker; then a word that starts with a digit is `Unknown`, a word
/// of letters, digits and underscores is an identifier, and anything else is
/// `Unknown`.
pub open spec fn classify_kind(word: Seq<char>) -> TokenType {
    if is_float_literal(commas_as_points(word)) {
        TokenType::Number
    } else if let Some(k) = Keyword::spec_from_str(word) {
        TokenType::Keyword(k)
    } else if let Some(t) = Type::spec_from_str(word) {
        TokenType::Type(t)
    } else if let Some(o) = Operator::spec_from_str(word) {
        TokenType::Operator(o)
    } else if let Some(c) = Comparator::spec_from_str(word) {
        TokenType::Comparator(c)
    } else if let Some(l) = Logical::spec_from_str(word) {
        TokenType::Logical(l)
    } else if let Some(m) = Comment::spec_from_str(word) {
        TokenType::Comment(m)
    } else if word.len() > 0 && is_ascii_digit(word[0]) {
        TokenType::Unknown
    } else if is_identifier_text(word) {
        TokenType::Identifier
    } else {
        TokenType::Unknown
    }
}

/// The token for a word that starts at the given line and column.
pub open spec fn classify_word(word: Seq<char>, line: nat, column: nat) -> TokenView {
    TokenView { token_type: classify_kind(word), value: word, line, column }
}

/// The token that ends every token sequence.
pub open spec fn eof_token(line: nat, column: nat) -> TokenView {
    TokenView { token_type: TokenType::EOF, value: "<EOF>"@, line, column }
}

/// What a scan gives: the tokens, or the first error.
pub type LexResult = Result<Seq<TokenView>, LexErrorView>;

/// `tokens` followed by what `rest` gives.
pub open spec fn after(tokens: Seq<TokenView>, rest: LexResult) -> LexResult {
    match rest {
        Ok(more) => Ok(tokens + more),
        Err(e) => Err(e),
    }
}

/// A line ends at or after the index it is asked for, within the text.
pub proof fn lemma_line_end_bounds(src: Seq<char>, pos: int)
    requires
        0 <= pos <= src.len(),
    ensures
        pos <= line_end(src, pos) <= src.len(),
        forall|i: int| pos <= i < line_end(src, pos) ==> src[i] != '\n',
        line_end(src, pos) < src.len() ==> src[line_end(src, pos)] == '\n',
    decreases src.len() - pos,
{
    if pos < src.len() && src[pos] != '\n' {
        lemma_line_end_bounds(src, pos + 1);
    }
}

/// A word ends at or after the index it is asked for, within the text.
pub proof fn lemma_word_end_bounds(src: Seq<char>, pos: int)
    requires
        0 <= pos <= src.len(),
    ensures
        pos <= word_end(src, pos) <= src.len(),
        forall|i: int| pos <= i < word_end(src, pos) ==> is_word_char_at(src, i),
        !is_word_char_at(src, word_end(src, pos)),
    decreases src.len() - pos,
{
    if is_word_char_at(src, pos) {
        lemma_word_end_bounds(src, pos + 1);
    }
}

/// A block comment that closes does so after the place where its scan began.
/// However the scan ends, line and column together grow by no more than the
/// index does.
pub proof fn lemma_block_comment_end_bounds(src: Seq<char>, at: Cursor)
    requires
        0 <= at.pos <= src.len(),
        at.column >= 1,
    ensures
        match block_comment_end(src, at) {
            Ok(end) => at.pos + 2 <= end.pos <= src.len() && end.line >= at.line && end.column >= 1
                && end.line + end.column <= at.line + at.column + (end.pos - at.pos) && (end.line
                == at.line ==> end.column >= at.column + 2),
            Err(e) => e.kind == LexErrorKind::UnclosedComment && e.line >= at.line && e.column >= 1
                && e.line + e.column <= at.line + at.column + (src.len() - at.pos),
        },
    decreases src.len() - at.pos,
{
    if at.pos < src.len() {
        if src[at.pos] == '*' && char_is(src, at.pos + 1, '/') {
        } else if src[at.pos] == '\n' {
            lemma_block_comment_end_bounds(
                src,
                Cursor { pos: at.pos + 1, line: at.line + 1, column: 1 },
            );
        } else {
            lemma_block_comment_end_bounds(
                src,
                Cursor { pos: at.pos + 1, line: at.line, column: at.column + 1 },
            );
        }
    }
}

/// A string literal that closes does so after the place where its scan began,
/// on the same line. However the scan ends, the column grows as the index
/// does, and an error lies on the line of the opening quote.
pub proof fn lemma_string_end_bounds(src: Seq<char>, at: Cursor, decoded: Seq<char>)
    requires
        0 <= at.pos <= src.len(),
    ensures
        match string_end(src, at, decoded) {
            Ok((_, end)) => at.pos < end.pos <= src.len() && end.line == at.line && end.column
                == at.column + (end.pos - at.pos),
            Err(e) => e.line == at.line && at.column <= e.column <= at.column + (src.len()
                - at.pos) && (e.kind == LexErrorKind::UnclosedString || e.kind
                == LexErrorKind::InvalidEscape),
        },
    decreases src.len() - at.pos,
{
    if at.pos < src.len() {
        let c = src[at.pos];
        if c == '"' {
        } else if c == '\\' && at.pos + 1 < src.len() {
            match escape_of(src[at.pos + 1]) {
                Some(d) => {
                    lemma_string_end_bounds(
                        src,
                        Cursor { pos: at.pos + 2, line: at.line, column: at.column + 2 },
                        decoded.push(d),
                    );
                },
                None => {},
            }
        } else if c == '\\' {
            lemma_string_end_bounds(
                src,
                Cursor { pos: at.pos + 1, line: at.line, column: at.column + 1 },
                decoded,
            );
        } else {
            lemma_string_end_bounds(
                src,
                Cursor { pos: at.pos + 1, line: at.line, column: at.column + 1 },
                decoded.push(c),
            );
        }
    }
}

/// The tokens of `src` from `at` on, or the first error found from there.
pub open spec fn lex_from(src: Seq<char>, at: Cursor) -> LexResult
    decreases src.len() - at.pos,
{
    let Cursor { pos, line, column } = at;
    if !(0 <= pos < src.len()) {
        Ok(seq![eof_token(line, column)])
    } else if starts_line_comment(src, pos) {
        let end = line_end(src, pos + 2);
        proof {
            lemma_line_end_bounds(src, pos + 2);
        }
        lex_from(src, Cursor { pos: end, line, column: (column + (end - pos)) as nat })
    } else if starts_block_comment(src, pos) {
        proof {
            lemma_block_comment_end_bounds(src, Cursor { pos: pos + 2, line, column: column + 2 });
        }
        match block_comment_end(src, Cursor { pos: pos + 2, line, column: column + 2 }) {
            Ok(end) => lex_from(src, end),
            Err(e) => Err(e),
        }
    } else if src[pos] == '"' {
        proof {
            lemma_string_end_bounds(
                src,
                Cursor { pos: pos + 1, line, column: column + 1 },
                Seq::empty(),
            );
        }
        match string_end(src, Cursor { pos: pos + 1, line, column: column + 1 }, Seq::empty()) {
            Ok((value, end)) => after(
                seq![TokenView { token_type: TokenType::StringLiteral, value, line, column }],
                lex_from(src, end),
            ),
            Err(e) => Err(e),
        }
    } else if let Some(l) = double_logical_at(src, pos) {
        after(
            seq![TokenView { token_type: TokenType::Logical(l), value: l.text(), line, column }],
            lex_from(src, Cursor { pos: pos + 2, line, column: column + 2 }),
        )
    } else if let Some(c) = double_comparator_at(src, pos) {
        after(
            seq![TokenView { token_type: TokenType::Comparator(c), value: c.text(), line, column }],
            lex_from(src, Cursor { pos: pos + 2, line, column: column + 2 }),
        )
    } else if src[pos] == '!' {
        after(
            seq![
                TokenView {
                    token_type: TokenType::Logical(Logical::Not),
                    value: Logical::Not.text(),
                    line,
                    column,
                },
            ],
            lex_from(src, Cursor { pos: pos + 1, line, column: column + 1 }),
        )
    } else if src[pos] == '\n' {
        lex_from(src, Cursor { pos: pos + 1, line: line + 1, column: 1 })
    } else if is_whitespace(src[pos]) {
        lex_from(src, Cursor { pos: pos + 1, line, column: column + 1 })
    } else if let Some(s) = Symbol::spec_from_char(src[pos]) {
        after(
            seq![
                TokenView { token_type: TokenType::Symbol(s), value: seq![src[pos]], line, column },
            ],
            lex_from(src, Cursor { pos: pos + 1, line, column: column + 1 }),
        )
    } else if !is_ascii_graphic(src[pos]) {
        Err(LexErrorView { kind: LexErrorKind::IllegalCharacter, line, column })
    } else {
        let end = word_end(src, pos + 1);
        proof {
            lemma_word_end_bounds(src, pos + 1);
        }
        after(
            seq![classify_word(src.subrange(pos, end), line, column)],
            lex_from(src, Cursor { pos: end, line, column: (column + (end - pos)) as nat }),
        )
    }
}

/// The tokens of `src`, or its first lexical error. Lines and columns are
/// counted from one.
pub open spec fn lex(src: Seq<char>) -> LexResult {
    lex_from(src, Cursor { pos: 0, line: 1, column: 1 })
}

/// `word` with every comma replaced by a point.
fn replace_commas(word: &[char]) -> (r: Vec<char>)
    ensures
        r@ == commas_as_points(word@),
{
    let mut r: Vec<char> = Vec::new();
    let mut i: usize = 0;
    while i < word.len()
        invariant
            i <= word@.len(),
            r@ == commas_as_points(word@).take(i as int),
        decreases word@.len() - i,
    {
        let c = word[i];
        r.push(if c == ',' { '.' } else { c });
        i += 1;
        assert(r@ == commas_as_points(word@).take(i as int));
    }
    assert(commas_as_points(word@).take(i as int) == commas_as_points(word@));
    r
}

/// Whether `word` consists of letters, digits and underscores only.
fn is_identifier_word(word: &[char]) -> (r: bool)
    ensures
        r == is_identifier_text(word@),
{
    let mut i: usize = 0;
    while i < word.len()
        invariant
            i <= word@.len(),
            forall|j: int| 0 <= j < i ==> is_alphanumeric(#[trigger] word@[j]) || word@[j] == '_',
        decreases word@.len() - i,
    {
        if !(char_is_alphanumeric(word[i]) || word[i] == '_') {
            return false;
        }
        i += 1;
    }
    true
}

/// The kind of token that a word is.
fn kind_of_word(word: &str) -> (kind: TokenType)
    ensures
        kind == classify_kind(word@),
{
    let chars = collect_chars(word);
    let with_points = replace_commas(chars.as_slice());
    if is_float_text(with_points.as_slice()) {
        return TokenType::Number;
    }
    if let Some(k) = Keyword::from_str(word) {
        return TokenType::Keyword(k);
    }
    if let Some(t) = Type::lookup(chars.as_slice()) {
        return TokenType::Type(t);
    }
    if let Some(o) = Operator::lookup(chars.as_slice()) {
        return TokenType::Operator(o);
    }
    if let Some(c) = Comparator::lookup(chars.as_slice()) {
        return TokenType::Comparator(c);
    }
    if let Some(l) = Logical::lookup(chars.as_slice()) {
        return TokenType::Logical(l);
    }
    if let Some(m) = Comment::lookup(chars.as_slice()) {
        return TokenType::Comment(m);
    }
    if chars.len() > 0 && '0' <= chars[0] && chars[0] <= '9' {
        return TokenType::Unknown;
    }
    if is_identifier_word(chars.as_slice()) {
        return TokenType::Identifier;
    }
    TokenType::Unknown
}

/// Classifies a word into the one token that it is, placed at the given line
/// and column.
pub fn classify(word: &str, line: usize, column: usize) -> (token: Token)
    ensures
        token@ == classify_word(word@, line as nat, column as nat),
{
    Token { token_type: kind_of_word(word), value: word.to_owned(), line, column }
}

/// The two-character logical connective at index `pos`, if one stands there.
/// The scanned text is `chars[..n]`; the NUL that follows it stands for "no
/// next character".
fn try_double_char_logical(chars: &[char], n: usize, pos: usize) -> (r: Option<Logical>)
    requires
        pos < n < chars@.len(),
        chars@[n as int] == '\0',
    ensures
        r == double_logical_at(chars@.take(n as int), pos as int),
{
    let c = chars[pos];
    let next = chars[pos + 1];
    let ghost src = chars@.take(n as int);
    assert(src[pos as int] == c);
    assert(pos + 1 < n ==> src[pos + 1] == next);
    if c == '&' && next == '&' {
        Some(Logical::And)
    } else if c == '|' && next == '|' {
        Some(Logical::Or)
    } else {
        None
    }
}

/// The two-character comparator at index `pos`, if one stands there.
fn try_double_char_comparator(chars: &[char], n: usize, pos: usize) -> (r: Option<Comparator>)
    requires
        pos < n < chars@.len(),
        chars@[n as int] == '\0',
    ensures
        r == double_comparator_at(chars@.take(n as int), pos as int),
{
    let c = chars[pos];
    let next = chars[pos + 1];
    let ghost src = chars@.take(n as int);
    assert(src[pos as int] == c);
    assert(pos + 1 < n ==> src[pos + 1] == next);
    if next != '=' {
        None
    } else if c == '=' {
        Some(Comparator::Equal)
    } else if c == '!' {
        Some(Comparator::NotEqual)
    } else if c == '>' {
        Some(Comparator::GreaterEqual)
    } else if c == '<' {
        Some(Comparator::LessEqual)
    } else {
        None
    }
}

/// Whether the character at index `i` belongs to a word.
fn is_word_char(chars: &[char], n: usize, i: usize) -> (r: bool)
    requires
        i < n < chars@.len(),
        chars@[n as int] == '\0',
    ensures
        r == is_word_char_at(chars@.take(n as int), i as int),
{
    let c = chars[i];
    let next = chars[i + 1];
    let ghost src = chars@.take(n as int);
    assert(src[i as int] == c);
    assert(i + 1 < n ==> src[i + 1] == next);
    if c == '/' && (next == '/' || next == '*') {
        return false;
    }
    if c == '"' || c == '!' {
        return false;
    }
    if try_double_char_logical(chars, n, i).is_some() {
        return false;
    }
    if try_double_char_comparator(chars, n, i).is_some() {
        return false;
    }
    if char_is_whitespace(c) {
        return false;
    }
    if Symbol::from_char(c).is_some() {
        return false;
    }
    '!' <= c && c <= '~'
}

/// The index at which the line that holds index `from` ends.
fn scan_line(chars: &[char], n: usize, from: usize) -> (end: usize)
    requires
        from <= n < chars@.len(),
    ensures
        from <= end <= n,
        end == line_end(chars@.take(n as int), from as int),
{
    let ghost src = chars@.take(n as int);
    let mut i: usize = from;
    while i < n && chars[i] != '\n'
        invariant
            from <= i <= n < chars@.len(),
            src == chars@.take(n as int),
            line_end(src, i as int) == line_end(src, from as int),
        decreases n - i,
    {
        assert(src[i as int] == chars@[i as int]);
        i += 1;
    }
    assert(i < n ==> src[i as int] == chars@[i as int]);
    i
}

/// The index at which the word that holds index `from` ends.
fn scan_word(chars: &[char], n: usize, from: usize) -> (end: usize)
    requires
        from <= n < chars@.len(),
        chars@[n as int] == '\0',
    ensures
        from <= end <= n,
        end == word_end(chars@.take(n as int), from as int),
{
    let ghost src = chars@.take(n as int);
    let mut i: usize = from;
    while i < n && is_word_char(chars, n, i)
        invariant
            from <= i <= n < chars@.len(),
            chars@[n as int] == '\0',
            src == chars@.take(n as int),
            word_end(src, i as int) == word_end(src, from as int),
        decreases n - i,
    {
        i += 1;
    }
    i
}

/// Scans the inside of a block comment from index `from` on. Gives the index,
/// line and column just after the closing `*/`.
fn scan_block_comment(chars: &[char], n: usize, from: usize, line: usize, column: usize) -> (r:
    Result<(usize, usize, usize), LexError>)
    requires
        from <= n < chars@.len(),
        chars@[n as int] == '\0',
        1 <= line,
        1 <= column,
        line + column <= from + 2,
    ensures
        block_comment_end(
            chars@.take(n as int),
            Cursor { pos: from as int, line: line as nat, column: column as nat },
        ) == (match r {
            Ok((p, l, c)) => Ok(Cursor { pos: p as int, line: l as nat, column: c as nat }),
            Err(e) => Err(e@),
        }),
        r matches Ok((p, l, c)) ==> from < p <= n && 1 <= l && 1 <= c && l + c <= p + 2,
{
    let ghost src = chars@.take(n as int);
    let ghost start = Cursor { pos: from as int, line: line as nat, column: column as nat };
    let mut i: usize = from;
    let mut l: usize = line;
    let mut c: usize = column;
    while i < n
        invariant
            from <= i <= n < chars@.len(),
            chars@[n as int] == '\0',
            src == chars@.take(n as int),
            1 <= l,
            1 <= c,
            l + c <= i + 2,
            start == (Cursor { pos: from as int, line: line as nat, column: column as nat }),
            block_comment_end(src, Cursor { pos: i as int, line: l as nat, column: c as nat })
                == block_comment_end(src, start),
        decreases n - i,
    {
        let ch = chars[i];
        assert(src[i as int] == ch);
        assert(i + 1 < n ==> src[i + 1] == chars@[i + 1]);
        if ch == '*' && chars[i + 1] == '/' {
            return Ok((i + 2, l, c + 2));
        }
        if ch == '\n' {
            l += 1;
            c = 1;
        } else {
            c += 1;
        }
        i += 1;
    }
    Err(LexError { kind: LexErrorKind::UnclosedComment, line: l, column: c })
}

/// The character that a backslash followed by `c` stands for.
fn decode_escape(c: char) -> (r: Option<char>)
    ensures
        r == escape_of(c),
{
    match c {
        'n' => Some('\n'),
        't' => Some('\t'),
        '\\' => Some('\\'),
        '"' => Some('"'),
        _ => None,
    }
}

/// Scans the inside of a string literal from index `from` on. Gives the
/// decoded text with the index and column just after the closing quote.
fn scan_string(chars: &[char], n: usize, from: usize, line: usize, column: usize) -> (r: Result<
    (String, usize, usize),
    LexError,
>)
    requires
        from <= n < chars@.len(),
        chars@[n as int] == '\0',
        1 <= column <= from + 1,
    ensures
        string_end(
            chars@.take(n as int),
            Cursor { pos: from as int, line: line as nat, column: column as nat },
            Seq::empty(),
        ) == (match r {
            Ok((value, p, c)) => Ok(
                (value@, Cursor { pos: p as int, line: line as nat, column: c as nat }),
            ),
            Err(e) => Err(e@),
        }),
        r matches Ok((_, p, c)) ==> from < p <= n && 1 <= c <= p + 1,
{
    let ghost src = chars@.take(n as int);
    let ghost start = Cursor { pos: from as int, line: line as nat, column: column as nat };
    let mut value = String::new();
    let mut i: usize = from;
    let mut c: usize = column;
    while i < n
        invariant
            from <= i <= n < chars@.len(),
            chars@[n as int] == '\0',
            src == chars@.take(n as int),
            1 <= c <= i + 1,
            start == (Cursor { pos: from as int, line: line as nat, column: column as nat }),
            string_end(
                src,
                Cursor { pos: i as int, line: line as nat, column: c as nat },
                value@,
            ) == string_end(src, start, Seq::empty()),
        decreases n - i,
    {
        let ch = chars[i];
        assert(src[i as int] == ch);
        assert(i + 1 < n ==> src[i + 1] == chars@[i + 1]);
        if ch == '"' {
            return Ok((value, i + 1, c + 1));
        }
        if ch == '\\' && i + 1 < n {
            match decode_escape(chars[i + 1]) {
                Some(d) => {
                    value.push(d);
                    i += 2;
                    c += 2;
                },
                None => {
                    return Err(
                        LexError { kind: LexErrorKind::InvalidEscape, line, column: c + 2 },
                    );
                },
            }
        } else {
            if ch != '\\' {
                value.push(ch);
            }
            i += 1;
            c += 1;
        }
    }
    Err(LexError { kind: LexErrorKind::UnclosedString, line, column: c })
}

/// What a run of the lexer gives, as a mathematical value.
pub open spec fn lex_outcome(r: Result<Vec<Token>, LexError>) -> LexResult {
    match r {
        Ok(tokens) => Ok(token_views(tokens@)),
        Err(e) => Err(e@),
    }
}

/// A token placed after a prefix may as well join the prefix.
proof fn lemma_after_token(prefix: Seq<Token>, token: Token, rest: LexResult)
    ensures
        after(token_views(prefix), after(seq![token@], rest)) == after(
            token_views(prefix.push(token)),
            rest,
        ),
{
    assert(token_views(prefix.push(token)) == token_views(prefix).push(token@));
    if let Ok(more) = rest {
        assert(token_views(prefix) + (seq![token@] + more) == token_views(prefix).push(token@)
            + more);
    }
}

/// Converts the source text into its tokens, ending with the `EOF` token, or
/// reports the first lexical error.
pub fn tokenize(code: &str) -> (r: Result<Vec<Token>, LexError>)
    ensures
        lex_outcome(r) == lex(code@),
        r matches Ok(tokens) ==> ends_with_only_eof(token_views(tokens@)),
        r matches Ok(tokens) ==> in_source_order(token_views(tokens@)),
{
    let ghost src = code@;
    proof {
        lemma_lex_from_ends_with_eof(src, Cursor { pos: 0, line: 1, column: 1 });
        lemma_lex_from_in_source_order(src, Cursor { pos: 0, line: 1, column: 1 });
    }
    let mut chars = collect_chars(code);
    // A NUL after the last character stands for "no next character", so that
    // looking one character ahead never leaves the vector.
    chars.push('\0');
    let n = chars.len() - 1;
    assert(chars@.take(n as int) == src);
    let mut tokens: Vec<Token> = Vec::new();
    let mut pos: usize = 0;
    let mut line: usize = 1;
    let mut column: usize = 1;
    assert(token_views(tokens@) + lex(src)->Ok_0 == lex(src)->Ok_0);
    while pos < n
        invariant
            src == code@,
            pos <= n < usize::MAX,
            n + 1 == chars@.len(),
            chars@[n as int] == '\0',
            chars@.take(n as int) == src,
            1 <= line,
            1 <= column,
            line + column <= pos + 2,
            lex(src) == after(
                token_views(tokens@),
                lex_from(src, Cursor { pos: pos as int, line: line as nat, column: column as nat }),
            ),
        decreases n - pos,
    {
        let c = chars[pos];
        let next = chars[pos + 1];
        let ghost at = Cursor { pos: pos as int, line: line as nat, column: column as nat };
        assert(src[pos as int] == c);
        assert(pos + 1 < n ==> src[pos + 1] == next);
        if c == '/' && next == '/' {
            let end = scan_line(chars.as_slice(), n, pos + 2);
            column += end - pos;
            pos = end;
        } else if c == '/' && next == '*' {
            match scan_block_comment(chars.as_slice(), n, pos + 2, line, column + 2) {
                Ok((p, l, cc)) => {
                    pos = p;
                    line = l;
                    column = cc;
                },
                Err(e) => {
                    return Err(e);
                },
            }
        } else if c == '"' {
            proof {
                lemma_string_end_bounds(
                    src,
                    Cursor { pos: pos + 1, line: line as nat, column: (column + 1) as nat },
                    Seq::empty(),
                );
            }
            match scan_string(chars.as_slice(), n, pos + 1, line, column + 1) {
                Ok((value, p, cc)) => {
                    let token = Token { token_type: TokenType::StringLiteral, value, line, column };
                    proof {
                        lemma_after_token(
                            tokens@,
                            token,
                            lex_from(
                                src,
                                Cursor { pos: p as int, line: line as nat, column: cc as nat },
                            ),
                        );
                    }
                    tokens.push(token);
                    pos = p;
                    column = cc;
                },
                Err(e) => {
                    return Err(e);
                },
            }
        } else if let Some(l) = try_double_char_logical(chars.as_slice(), n, pos) {
            let token = Token {
                token_type: TokenType::Logical(l),
                value: l.to_string(),
                line,
                column,
            };
            proof {
                lemma_after_token(
                    tokens@,
                    token,
                    lex_from(src, Cursor { pos: pos + 2, line: at.line, column: at.column + 2 }),
                );
            }
            tokens.push(token);
            pos += 2;
            column += 2;
        } else if let Some(comparator) = try_double_char_comparator(chars.as_slice(), n, pos) {
            let token = Token {
                token_type: TokenType::Comparator(comparator),
                value: comparator.as_str().to_owned(),
                line,
                column,
            };
            proof {
                lemma_after_token(
                    tokens@,
                    token,
                    lex_from(src, Cursor { pos: pos + 2, line: at.line, column: at.column + 2 }),
                );
            }
            tokens.push(token);
            pos += 2;
            column += 2;
        } else if c == '!' {
            let token = Token {
                token_type: TokenType::Logical(Logical::Not),
                value: Logical::Not.to_string(),
                line,
                column,
            };
            proof {
                lemma_after_token(
                    tokens@,
                    token,
                    lex_from(src, Cursor { pos: pos + 1, line: at.line, column: at.column + 1 }),
                );
            }
            tokens.push(token);
            pos += 1;
            column += 1;
        } else if c == '\n' {
            pos += 1;
            line += 1;
            column = 1;
        } else if char_is_whitespace(c) {
            pos += 1;
            column += 1;
        } else if let Some(symbol) = Symbol::from_char(c) {
            let mut value = String::new();
            value.push(c);
            assert(value@ == seq![c]);
            let token = Token { token_type: TokenType::Symbol(symbol), value, line, column };
            proof {
                lemma_after_token(
                    tokens@,
                    token,
                    lex_from(src, Cursor { pos: pos + 1, line: at.line, column: at.column + 1 }),
                );
            }
            tokens.push(token);
            pos += 1;
            column += 1;
        } else if !('!' <= c && c <= '~') {
            return Err(LexError { kind: LexErrorKind::IllegalCharacter, line, column });
        } else {
            let end = scan_word(chars.as_slice(), n, pos + 1);
            let word = string_from_chars(chars.as_slice(), pos, end);
            assert(word@ == src.subrange(pos as int, end as int));
            let token = classify(word.as_str(), line, column);
            proof {
                lemma_after_token(
                    tokens@,
                    token,
                    lex_from(
                        src,
                        Cursor {
                            pos: end as int,
                            line: at.line,
                            column: (at.column + (end - pos)) as nat,
                        },
                    ),
                );
            }
            tokens.push(token);
            column += end - pos;
            pos = end;
        }
    }
    let token = Token { token_type: TokenType::EOF, value: "<EOF>".to_owned(), line, column };
    proof {
        assert(token_views(tokens@.push(token)) == token_views(tokens@) + seq![token@]);
    }
    tokens.push(token);
    Ok(tokens)
}

} // verus!
