//! What holds of every run of the lexer.

use vstd::prelude::*;
use crate::error::{LexError, LexErrorKind, LexErrorView};
use crate::grammar::{Comparator, Keyword, Logical, Operator, Symbol, Type};
use crate::lexer::{
    after, block_comment_end, classify_kind, classify_word, commas_as_points,
    double_comparator_at, double_logical_at, eof_token, is_word_char_at,
    lemma_block_comment_end_bounds, lemma_line_end_bounds, lemma_string_end_bounds,
    lemma_word_end_bounds, lex, lex_from, lex_outcome, line_end, starts_block_comment,
    starts_line_comment, string_end, word_end, Cursor, LexResult,
};
use crate::number::{is_float_literal, lemma_float_literal_has_digit_or_letter};
use crate::text::{
    ascii_lower, ascii_lowercase, is_ascii_digit, is_ascii_graphic, is_ascii_letter,
    is_ascii_text, is_whitespace,
};
use crate::token::{
    comes_before, ends_with_only_eof, in_source_order, Token, TokenType, TokenView,
};

verus! {

/// A token that is not `EOF`, put before a sequence that ends with the only
/// `EOF`, gives such a sequence again.
proof fn lemma_token_before_eof(token: TokenView, rest: LexResult)
    requires
        token.token_type != TokenType::EOF,
        rest matches Ok(tokens) ==> ends_with_only_eof(tokens),
    ensures
        after(seq![token], rest) matches Ok(tokens) ==> ends_with_only_eof(tokens),
{
    if let Ok(more) = rest {
        let all = seq![token] + more;
        assert(all.last() == more.last());
        assert forall|i: int| 0 <= i < all.len() - 1 implies (#[trigger] all[i]).token_type
            != TokenType::EOF by {
            if i > 0 {
                assert(all[i] == more[i - 1]);
            }
        }
    }
}

/// Every token sequence that the lexer gives ends with the `EOF` token, and
/// holds no other `EOF` token.
pub proof fn lemma_lex_from_ends_with_eof(src: Seq<char>, at: Cursor)
    ensures
        lex_from(src, at) matches Ok(tokens) ==> ends_with_only_eof(tokens),
    decreases src.len() - at.pos,
{
    let Cursor { pos, line, column } = at;
    if !(0 <= pos < src.len()) {
    } else if starts_line_comment(src, pos) {
        lemma_line_end_bounds(src, pos + 2);
        let end = line_end(src, pos + 2);
        lemma_lex_from_ends_with_eof(
            src,
            Cursor { pos: end, line, column: (column + (end - pos)) as nat },
        );
    } else if starts_block_comment(src, pos) {
        lemma_block_comment_end_bounds(src, Cursor { pos: pos + 2, line, column: column + 2 });
        if let Ok(end) = block_comment_end(src, Cursor { pos: pos + 2, line, column: column + 2 }) {
            lemma_lex_from_ends_with_eof(src, end);
        }
    } else if src[pos] == '"' {
        lemma_string_end_bounds(
            src,
            Cursor { pos: pos + 1, line, column: column + 1 },
            Seq::empty(),
        );
        if let Ok((value, end)) = string_end(
            src,
            Cursor { pos: pos + 1, line, column: column + 1 },
            Seq::empty(),
        ) {
            lemma_lex_from_ends_with_eof(src, end);
            lemma_token_before_eof(
                TokenView { token_type: TokenType::StringLiteral, value, line, column },
                lex_from(src, end),
            );
        }
    } else if let Some(l) = double_logical_at(src, pos) {
        let next = Cursor { pos: pos + 2, line, column: column + 2 };
        lemma_lex_from_ends_with_eof(src, next);
        lemma_token_before_eof(
            TokenView { token_type: TokenType::Logical(l), value: l.text(), line, column },
            lex_from(src, next),
        );
    } else if let Some(c) = double_comparator_at(src, pos) {
        let next = Cursor { pos: pos + 2, line, column: column + 2 };
        lemma_lex_from_ends_with_eof(src, next);
        lemma_token_before_eof(
            TokenView { token_type: TokenType::Comparator(c), value: c.text(), line, column },
            lex_from(src, next),
        );
    } else if src[pos] == '!' {
        let next = Cursor { pos: pos + 1, line, column: column + 1 };
        lemma_lex_from_ends_with_eof(src, next);
        lemma_token_before_eof(
            TokenView {
                token_type: TokenType::Logical(Logical::Not),
                value: Logical::Not.text(),
                line,
                column,
            },
            lex_from(src, next),
        );
    } else if src[pos] == '\n' {
        lemma_lex_from_ends_with_eof(src, Cursor { pos: pos + 1, line: line + 1, column: 1 });
    } else if is_whitespace(src[pos]) {
        lemma_lex_from_ends_with_eof(src, Cursor { pos: pos + 1, line, column: column + 1 });
    } else if let Some(s) = Symbol::spec_from_char(src[pos]) {
        let next = Cursor { pos: pos + 1, line, column: column + 1 };
        lemma_lex_from_ends_with_eof(src, next);
        lemma_token_before_eof(
            TokenView { token_type: TokenType::Symbol(s), value: seq![src[pos]], line, column },
            lex_from(src, next),
        );
    } else if !is_ascii_graphic(src[pos]) {
    } else {
        lemma_word_end_bounds(src, pos + 1);
        let end = word_end(src, pos + 1);
        let next = Cursor { pos: end, line, column: (column + (end - pos)) as nat };
        lemma_lex_from_ends_with_eof(src, next);
        lemma_token_before_eof(
            classify_word(src.subrange(pos, end), line, column),
            lex_from(src, next),
        );
    }
}

/// Scanning the same text twice gives the same outcome: whatever two runs of
/// the lexer over one text return, tokens or error, is equal.
pub proof fn lemma_tokenize_is_deterministic(
    code: Seq<char>,
    first: Result<Vec<Token>, LexError>,
    second: Result<Vec<Token>, LexError>,
)
    requires
        lex_outcome(first) == lex(code),
        lex_outcome(second) == lex(code),
    ensures
        lex_outcome(first) == lex_outcome(second),
{
}

/// An unclosed string literal, or a wrong escape in one, is reported on the
/// line of the opening quote.
pub proof fn lemma_string_error_on_opening_line(src: Seq<char>, at: Cursor)
    requires
        0 <= at.pos < src.len(),
        src[at.pos] == '"',
    ensures
        string_end(
            src,
            Cursor { pos: at.pos + 1, line: at.line, column: at.column + 1 },
            Seq::empty(),
        ) matches Err(e) ==> lex_from(src, at) == Err::<Seq<TokenView>, _>(e) && e.line == at.line
            && (e.kind == LexErrorKind::UnclosedString || e.kind == LexErrorKind::InvalidEscape),
{
    lemma_string_end_bounds(
        src,
        Cursor { pos: at.pos + 1, line: at.line, column: at.column + 1 },
        Seq::empty(),
    );
}

/// Where the two characters at `at` spell a comparator, the lexer gives that
/// comparator as one token, never a token for the first character alone.
pub proof fn lemma_two_character_comparator_wins(src: Seq<char>, at: Cursor, c: Comparator)
    requires
        0 <= at.pos,
        at.pos + 2 <= src.len(),
        src.subrange(at.pos, at.pos + 2) == c.text(),
    ensures
        lex_from(src, at) == after(
            seq![
                TokenView {
                    token_type: TokenType::Comparator(c),
                    value: c.text(),
                    line: at.line,
                    column: at.column,
                },
            ],
            lex_from(src, Cursor { pos: at.pos + 2, line: at.line, column: at.column + 2 }),
        ),
{
    reveal_strlit("==");
    reveal_strlit("!=");
    reveal_strlit(">");
    reveal_strlit("<");
    reveal_strlit(">=");
    reveal_strlit("<=");
    let pair = src.subrange(at.pos, at.pos + 2);
    assert(pair.len() == 2);
    assert(pair[0] == src[at.pos] && pair[1] == src[at.pos + 1]);
}

/// Where the two characters at `at` are `&&` or `||`, the lexer gives that
/// connective as one token.
pub proof fn lemma_two_character_logical_wins(src: Seq<char>, at: Cursor, l: Logical)
    requires
        0 <= at.pos,
        at.pos + 2 <= src.len(),
        src.subrange(at.pos, at.pos + 2) == l.text(),
    ensures
        lex_from(src, at) == after(
            seq![
                TokenView {
                    token_type: TokenType::Logical(l),
                    value: l.text(),
                    line: at.line,
                    column: at.column,
                },
            ],
            lex_from(src, Cursor { pos: at.pos + 2, line: at.line, column: at.column + 2 }),
        ),
{
    reveal_strlit("&&");
    reveal_strlit("||");
    reveal_strlit("!");
    let pair = src.subrange(at.pos, at.pos + 2);
    assert(pair.len() == 2);
    assert(pair[0] == src[at.pos] && pair[1] == src[at.pos + 1]);
}

/// The tokens of a text that holds nothing but one token: the token at line
/// one, column one, and the `EOF` token after it.
pub open spec fn single_token(kind: TokenType, text: Seq<char>) -> LexResult {
    Ok(
        seq![
            TokenView { token_type: kind, value: text, line: 1, column: 1 },
            eof_token(1, 1 + text.len()),
        ],
    )
}

/// The text of a symbol, scanned, gives the symbol back.
pub proof fn lemma_symbol_round_trip(s: Symbol)
    ensures
        lex(seq![s.spec_to_char()]) == single_token(TokenType::Symbol(s), seq![s.spec_to_char()]),
{
    let src = seq![s.spec_to_char()];
    let start = Cursor { pos: 0, line: 1, column: 1 };
    let end = Cursor { pos: 1, line: 1, column: 2 };
    assert(Symbol::spec_from_char(src[0]) == Some(s));
    assert(lex_from(src, end) == Ok::<_, LexErrorView>(seq![eof_token(1, 2)]));
    assert(seq![TokenView { token_type: TokenType::Symbol(s), value: src, line: 1, column: 1 }]
        + seq![eof_token(1, 2)] == single_token(TokenType::Symbol(s), src)->Ok_0);
}

/// A word without digits and letters is no numeric literal, keyword or type
/// name.
proof fn lemma_sign_word_is_no_name(word: Seq<char>)
    requires
        is_ascii_text(word),
        forall|i: int|
            0 <= i < word.len() ==> !is_ascii_digit(#[trigger] word[i])
                && !is_ascii_letter(word[i]),
        word.len() > 0,
    ensures
        !is_float_literal(commas_as_points(word)),
        Keyword::spec_from_str(word) is None,
        Type::spec_from_str(word) is None,
{
    let pointed = commas_as_points(word);
    if is_float_literal(pointed) {
        lemma_float_literal_has_digit_or_letter(pointed);
        let i = choose|i: int|
            0 <= i < pointed.len() && (is_ascii_digit(#[trigger] pointed[i])
                || is_ascii_letter(pointed[i]));
        assert(pointed[i] == if word[i] == ',' {
            '.'
        } else {
            word[i]
        });
    }
    let lower = ascii_lowercase(word);
    assert(lower[0] == ascii_lower(word[0]));
    if Keyword::of_word(lower) is Some {
        Keyword::lemma_words_are_lowercase(lower);
        assert('a' <= lower[0] <= 'z');
    }
    if Type::spec_from_str(word) is Some {
        Type::lemma_spellings_are_lowercase(word);
        assert('a' <= word[0] <= 'z');
    }
}

/// A text that is one word gives the token of that word and the `EOF` token.
proof fn lemma_lex_single_word(word: Seq<char>)
    requires
        word.len() > 0,
        forall|i: int| 0 <= i < word.len() ==> is_word_char_at(word, i),
    ensures
        lex(word) == single_token(classify_kind(word), word),
{
    let start = Cursor { pos: 0, line: 1, column: 1 };
    lemma_word_end_bounds(word, 1);
    let end = word_end(word, 1);
    if end < word.len() {
        assert(is_word_char_at(word, end));
    }
    assert(end == word.len());
    assert(word.subrange(0, end) == word);
    let rest = Cursor { pos: end, line: 1, column: (1 + (end - 0)) as nat };
    assert(lex_from(word, rest) == Ok::<_, LexErrorView>(
        seq![eof_token(1, 1 + word.len())],
    ));
    assert(is_word_char_at(word, 0));
    assert(lex_from(word, start) == after(
        seq![classify_word(word.subrange(0, end), 1, 1)],
        lex_from(word, rest),
    ));
    assert(seq![classify_word(word, 1, 1)] + seq![eof_token(1, 1 + word.len())] == single_token(
        classify_kind(word),
        word,
    )->Ok_0);
}

/// The canonical text of an operator, scanned, gives the operator back.
pub proof fn lemma_operator_round_trip(o: Operator)
    ensures
        lex(o.text()) == single_token(TokenType::Operator(o), o.text()),
{
    reveal_strlit("+");
    reveal_strlit("-");
    reveal_strlit("*");
    reveal_strlit("/");
    reveal_strlit("%");
    reveal_strlit("^");
    let word = o.text();
    assert(word.len() == 1);
    lemma_sign_word_is_no_name(word);
    Operator::text_round_trip(o);
    lemma_lex_single_word(word);
}

/// The canonical text of a comparator, scanned, gives the comparator back.
pub proof fn lemma_comparator_round_trip(c: Comparator)
    ensures
        lex(c.text()) == single_token(TokenType::Comparator(c), c.text()),
{
    reveal_strlit("==");
    reveal_strlit("!=");
    reveal_strlit(">");
    reveal_strlit("<");
    reveal_strlit(">=");
    reveal_strlit("<=");
    reveal_strlit("+");
    reveal_strlit("-");
    reveal_strlit("*");
    reveal_strlit("/");
    reveal_strlit("%");
    reveal_strlit("^");
    let word = c.text();
    if word.len() == 1 {
        lemma_sign_word_is_no_name(word);
        Comparator::text_round_trip(c);
        lemma_lex_single_word(word);
    } else {
        let start = Cursor { pos: 0, line: 1, column: 1 };
        assert(word.subrange(0, 2) == word);
        lemma_two_character_comparator_wins(word, start, c);
        let end = Cursor { pos: 2, line: 1, column: 3 };
        assert(lex_from(word, end) == Ok::<_, LexErrorView>(seq![eof_token(1, 3)]));
        assert(seq![
            TokenView { token_type: TokenType::Comparator(c), value: word, line: 1, column: 1 },
        ] + seq![eof_token(1, 3)] == single_token(TokenType::Comparator(c), word)->Ok_0);
    }
}

/// Whether token `t` starts at the place `at` or after it.
pub open spec fn not_before(at: Cursor, t: TokenView) -> bool {
    at.line < t.line || (at.line == t.line && at.column <= t.column)
}

/// Whether the tokens are in source order and none starts before `at`.
pub open spec fn ordered_from(at: Cursor, tokens: Seq<TokenView>) -> bool {
    &&& in_source_order(tokens)
    &&& forall|i: int| 0 <= i < tokens.len() ==> not_before(at, #[trigger] tokens[i])
}

/// Tokens that are ordered from a place are ordered from every earlier place.
proof fn lemma_ordered_from_earlier(earlier: Cursor, at: Cursor, rest: LexResult)
    requires
        earlier.line < at.line || (earlier.line == at.line && earlier.column <= at.column),
        rest matches Ok(tokens) ==> ordered_from(at, tokens),
    ensures
        rest matches Ok(tokens) ==> ordered_from(earlier, tokens),
{
}

/// A token at `at`, put before tokens that are ordered from a later place,
/// gives tokens that are ordered from `at`.
proof fn lemma_token_then_ordered(at: Cursor, token: TokenView, next: Cursor, rest: LexResult)
    requires
        token.line == at.line,
        token.column == at.column,
        at.line < next.line || (at.line == next.line && at.column < next.column),
        rest matches Ok(tokens) ==> ordered_from(next, tokens),
    ensures
        after(seq![token], rest) matches Ok(tokens) ==> ordered_from(at, tokens),
{
    if let Ok(more) = rest {
        let all = seq![token] + more;
        assert forall|i: int, j: int| 0 <= i < j < all.len() implies comes_before(
            #[trigger] all[i],
            #[trigger] all[j],
        ) by {
            assert(all[j] == more[j - 1]);
            if i > 0 {
                assert(all[i] == more[i - 1]);
            }
        }
        assert forall|i: int| 0 <= i < all.len() implies not_before(at, #[trigger] all[i]) by {
            if i > 0 {
                assert(all[i] == more[i - 1]);
            }
        }
    }
}

/// The tokens that the lexer gives stand in the order of their places in the
/// source, and none starts before the place where the scan began.
pub proof fn lemma_lex_from_in_source_order(src: Seq<char>, at: Cursor)
    requires
        at.column >= 1,
    ensures
        lex_from(src, at) matches Ok(tokens) ==> ordered_from(at, tokens),
    decreases src.len() - at.pos,
{
    let Cursor { pos, line, column } = at;
    if !(0 <= pos < src.len()) {
    } else if starts_line_comment(src, pos) {
        lemma_line_end_bounds(src, pos + 2);
        let end = line_end(src, pos + 2);
        let next = Cursor { pos: end, line, column: (column + (end - pos)) as nat };
        lemma_lex_from_in_source_order(src, next);
        lemma_ordered_from_earlier(at, next, lex_from(src, next));
    } else if starts_block_comment(src, pos) {
        lemma_block_comment_end_bounds(src, Cursor { pos: pos + 2, line, column: column + 2 });
        if let Ok(end) = block_comment_end(src, Cursor { pos: pos + 2, line, column: column + 2 }) {
            lemma_lex_from_in_source_order(src, end);
            lemma_ordered_from_earlier(at, end, lex_from(src, end));
        }
    } else if src[pos] == '"' {
        lemma_string_end_bounds(
            src,
            Cursor { pos: pos + 1, line, column: column + 1 },
            Seq::empty(),
        );
        if let Ok((value, end)) = string_end(
            src,
            Cursor { pos: pos + 1, line, column: column + 1 },
            Seq::empty(),
        ) {
            lemma_lex_from_in_source_order(src, end);
            lemma_token_then_ordered(
                at,
                TokenView { token_type: TokenType::StringLiteral, value, line, column },
                end,
                lex_from(src, end),
            );
        }
    } else if let Some(l) = double_logical_at(src, pos) {
        let next = Cursor { pos: pos + 2, line, column: column + 2 };
        lemma_lex_from_in_source_order(src, next);
        lemma_token_then_ordered(
            at,
            TokenView { token_type: TokenType::Logical(l), value: l.text(), line, column },
            next,
            lex_from(src, next),
        );
    } else if let Some(c) = double_comparator_at(src, pos) {
        let next = Cursor { pos: pos + 2, line, column: column + 2 };
        lemma_lex_from_in_source_order(src, next);
        lemma_token_then_ordered(
            at,
            TokenView { token_type: TokenType::Comparator(c), value: c.text(), line, column },
            next,
            lex_from(src, next),
        );
    } else if src[pos] == '!' {
        let next = Cursor { pos: pos + 1, line, column: column + 1 };
        lemma_lex_from_in_source_order(src, next);
        lemma_token_then_ordered(
            at,
            TokenView {
                token_type: TokenType::Logical(Logical::Not),
                value: Logical::Not.text(),
                line,
                column,
            },
            next,
            lex_from(src, next),
        );
    } else if src[pos] == '\n' {
        let next = Cursor { pos: pos + 1, line: line + 1, column: 1 };
        lemma_lex_from_in_source_order(src, next);
        lemma_ordered_from_earlier(at, next, lex_from(src, next));
    } else if is_whitespace(src[pos]) {
        let next = Cursor { pos: pos + 1, line, column: column + 1 };
        lemma_lex_from_in_source_order(src, next);
        lemma_ordered_from_earlier(at, next, lex_from(src, next));
    } else if let Some(s) = Symbol::spec_from_char(src[pos]) {
        let next = Cursor { pos: pos + 1, line, column: column + 1 };
        lemma_lex_from_in_source_order(src, next);
        lemma_token_then_ordered(
            at,
            TokenView { token_type: TokenType::Symbol(s), value: seq![src[pos]], line, column },
            next,
            lex_from(src, next),
        );
    } else if !is_ascii_graphic(src[pos]) {
    } else {
        lemma_word_end_bounds(src, pos + 1);
        let end = word_end(src, pos + 1);
        let next = Cursor { pos: end, line, column: (column + (end - pos)) as nat };
        lemma_lex_from_in_source_order(src, next);
        lemma_token_then_ordered(
            at,
            classify_word(src.subrange(pos, end), line, column),
            next,
            lex_from(src, next),
        );
    }
}

} // verus!
