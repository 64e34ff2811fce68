use lemon_core::grammar::{Comment, Comparator, Keyword, Logical, Operator, Symbol, Type};

#[test]
fn keywords_are_recognised() {
    assert_eq!(Keyword::from_str("while"), Some(Keyword::While));
    assert_eq!(Keyword::from_str("if"), Some(Keyword::If));
    assert_eq!(Keyword::from_str("back"), Some(Keyword::Back));
    assert_eq!(Keyword::from_str("none"), Some(Keyword::NoneKw));
    assert_eq!(Keyword::from_str("canvas"), Some(Keyword::Canvas));
    assert_eq!(Keyword::from_str("wait"), Some(Keyword::Wait));
    assert_eq!(Keyword::from_str("xyz"), None);
    assert_eq!(Keyword::from_str(""), None);
    assert_eq!(Keyword::from_str("whil"), None);
    assert_eq!(Keyword::from_str("whiles"), None);
}

#[test]
fn keywords_ignore_letter_case() {
    assert_eq!(Keyword::from_str("WHILE"), Some(Keyword::While));
    assert_eq!(Keyword::from_str("If"), Some(Keyword::If));
    assert_eq!(Keyword::from_str("ConTinue"), Some(Keyword::Continue));
}

#[test]
fn keywords_follow_unicode_lower_case() {
    // U+212A KELVIN SIGN lowers to an ordinary `k`.
    assert_eq!(Keyword::from_str("brea\u{212A}"), Some(Keyword::Break));
    assert_eq!(Keyword::from_str("bre\u{e4}k"), None);
}

#[test]
fn every_keyword_reads_back_from_its_spelling() {
    let all = [
        Keyword::If, Keyword::Elif, Keyword::Else, Keyword::Do, Keyword::While, Keyword::For,
        Keyword::When, Keyword::In, Keyword::Try, Keyword::Fail, Keyword::End, Keyword::Break,
        Keyword::Continue, Keyword::Return, Keyword::Exit, Keyword::Let, Keyword::Fn,
        Keyword::From, Keyword::As, Keyword::NoneKw, Keyword::Back, Keyword::Send, Keyword::Del,
        Keyword::Run, Keyword::Log, Keyword::Box, Keyword::Wrap, Keyword::True, Keyword::False,
        Keyword::Sure, Keyword::Stay, Keyword::Fast, Keyword::Flat, Keyword::Old, Keyword::Print,
        Keyword::Ask, Keyword::Read, Keyword::Save, Keyword::Ui, Keyword::Btn, Keyword::Txt,
        Keyword::Img, Keyword::Vid, Keyword::Canvas, Keyword::Div, Keyword::Click,
        Keyword::Window, Keyword::Tick, Keyword::Wait,
    ];
    assert_eq!(all.len(), 49);
    for keyword in all {
        assert_eq!(Keyword::from_str(keyword.as_str()), Some(keyword));
    }
}

#[test]
fn symbols_map_to_characters_and_back() {
    let all = [
        (Symbol::Define, '='),
        (Symbol::OpenParen, '('),
        (Symbol::CloseParen, ')'),
        (Symbol::OpenBrace, '{'),
        (Symbol::CloseBrace, '}'),
        (Symbol::OpenBraket, '['),
        (Symbol::CloseBraket, ']'),
        (Symbol::Semicolon, ';'),
        (Symbol::Comma, ','),
        (Symbol::Dot, '.'),
        (Symbol::Question, '?'),
        (Symbol::Colon, ':'),
    ];
    for (symbol, c) in all {
        assert_eq!(symbol.to_char(), c);
        assert_eq!(Symbol::from_char(c), Some(symbol));
    }
    assert_eq!(Symbol::from_char('x'), None);
    assert_eq!(Symbol::from_char('+'), None);
    assert_eq!(Symbol::from_char('!'), None);
}

#[test]
fn operators_are_recognised() {
    assert_eq!(Operator::from_str("+"), Some(Operator::Add));
    assert_eq!(Operator::from_str("-"), Some(Operator::Subtract));
    assert_eq!(Operator::from_str("*"), Some(Operator::Multiply));
    assert_eq!(Operator::from_str("/"), Some(Operator::Divide));
    assert_eq!(Operator::from_str("%"), Some(Operator::Modulus));
    assert_eq!(Operator::from_str("^"), Some(Operator::Power));
    assert_eq!(Operator::from_str("++"), None);
    assert_eq!(Operator::from_str(""), None);
    assert_eq!(Operator::from_str("="), None);
}

#[test]
fn operators_render_their_symbol() {
    assert_eq!(Operator::Add.to_string(), "+");
    assert_eq!(Operator::Subtract.to_string(), "-");
    assert_eq!(Operator::Multiply.to_string(), "*");
    assert_eq!(Operator::Divide.to_string(), "/");
    assert_eq!(Operator::Modulus.to_string(), "%");
    assert_eq!(Operator::Power.to_string(), "^");
    assert_eq!(Operator::Power.as_str(), "^");
}

#[test]
fn comparators_are_recognised() {
    assert_eq!(Comparator::from_str("=="), Some(Comparator::Equal));
    assert_eq!(Comparator::from_str("!="), Some(Comparator::NotEqual));
    assert_eq!(Comparator::from_str(">"), Some(Comparator::Greater));
    assert_eq!(Comparator::from_str("<"), Some(Comparator::Less));
    assert_eq!(Comparator::from_str(">="), Some(Comparator::GreaterEqual));
    assert_eq!(Comparator::from_str("<="), Some(Comparator::LessEqual));
    assert_eq!(Comparator::from_str("="), None);
    assert_eq!(Comparator::from_str("=>"), None);
    assert_eq!(Comparator::from_str("==="), None);
}

#[test]
fn comparators_read_back_from_their_spelling() {
    let all = [
        Comparator::Equal,
        Comparator::NotEqual,
        Comparator::Greater,
        Comparator::Less,
        Comparator::GreaterEqual,
        Comparator::LessEqual,
    ];
    for comparator in all {
        assert_eq!(Comparator::from_str(comparator.as_str()), Some(comparator));
    }
    assert_eq!(Comparator::GreaterEqual.as_str(), ">=");
}

#[test]
fn logicals_accept_symbols_and_words() {
    assert_eq!(Logical::from_str("and"), Some(Logical::And));
    assert_eq!(Logical::from_str("&&"), Some(Logical::And));
    assert_eq!(Logical::from_str("or"), Some(Logical::Or));
    assert_eq!(Logical::from_str("||"), Some(Logical::Or));
    assert_eq!(Logical::from_str("not"), Some(Logical::Not));
    assert_eq!(Logical::from_str("!"), Some(Logical::Not));
    assert_eq!(Logical::from_str("&"), None);
    assert_eq!(Logical::from_str("xor"), None);
}

#[test]
fn logicals_are_case_sensitive() {
    assert_eq!(Logical::from_str("AND"), None);
    assert_eq!(Logical::from_str("Or"), None);
}

#[test]
fn logicals_render_their_symbol() {
    assert_eq!(Logical::And.to_string(), "&&");
    assert_eq!(Logical::Or.to_string(), "||");
    assert_eq!(Logical::Not.to_string(), "!");
    for logical in [Logical::And, Logical::Or, Logical::Not] {
        assert_eq!(Logical::from_str(logical.as_str()), Some(logical));
    }
}

#[test]
fn types_are_recognised() {
    assert_eq!(Type::from_str("int"), Some(Type::Int));
    assert_eq!(Type::from_str("float"), Some(Type::Float));
    assert_eq!(Type::from_str("string"), Some(Type::String));
    assert_eq!(Type::from_str("bool"), Some(Type::Bool));
    assert_eq!(Type::from_str("null"), Some(Type::Null));
    assert_eq!(Type::from_str("list"), Some(Type::List));
    assert_eq!(Type::from_str("matrix"), Some(Type::Matrix));
    assert_eq!(Type::from_str("map"), Some(Type::Dictionary));
    assert_eq!(Type::from_str("char"), None);
    assert_eq!(Type::Dictionary.as_str(), "map");
}

#[test]
fn types_are_case_sensitive() {
    assert_eq!(Type::from_str("Float"), None);
    assert_eq!(Type::from_str("INT"), None);
}

#[test]
fn comment_markers_are_recognised() {
    assert_eq!(Comment::from_str("//"), Some(Comment::LineComment));
    assert_eq!(Comment::from_str("/*"), Some(Comment::BlockCommentOpen));
    assert_eq!(Comment::from_str("*/"), Some(Comment::BlockCommentClose));
    assert_eq!(Comment::from_str("/"), None);
    assert_eq!(Comment::from_str("#"), None);
    assert_eq!(Comment::BlockCommentOpen.as_str(), "/*");
}
