use lemon_core::number::{is_float_text, to_ascii_lower};

fn accepts(text: &str) -> bool {
    let chars: Vec<char> = text.chars().collect();
    is_float_text(&chars)
}

#[test]
fn plain_integers_are_numbers() {
    assert!(accepts("0"));
    assert!(accepts("7"));
    assert!(accepts("1234567890"));
    assert!(accepts("007"));
}

#[test]
fn decimal_points_are_accepted_once() {
    assert!(accepts("3.14"));
    assert!(accepts(".5"));
    assert!(accepts("5."));
    assert!(!accepts("."));
    assert!(!accepts("1.2.3"));
    assert!(!accepts("1..2"));
}

#[test]
fn signs_are_accepted_in_front_only() {
    assert!(accepts("+1"));
    assert!(accepts("-1.5"));
    assert!(!accepts("+"));
    assert!(!accepts("-"));
    assert!(!accepts("+-1"));
    assert!(!accepts("1-"));
    assert!(!accepts("1+2"));
}

#[test]
fn exponents_need_digits() {
    assert!(accepts("1e5"));
    assert!(accepts("1E5"));
    assert!(accepts("1e+5"));
    assert!(accepts("1.5e-10"));
    assert!(accepts(".5e3"));
    assert!(accepts("5.e3"));
    assert!(!accepts("1e"));
    assert!(!accepts("1e+"));
    assert!(!accepts("e5"));
    assert!(!accepts(".e5"));
    assert!(!accepts("1e5.0"));
    assert!(!accepts("1e5e5"));
}

#[test]
fn special_values_are_numbers_in_any_case() {
    for text in ["inf", "INF", "Infinity", "infinity", "nan", "NaN", "+inf", "-nan", "-Infinity"] {
        assert!(accepts(text), "{}", text);
    }
    assert!(!accepts("in"));
    assert!(!accepts("infinit"));
    assert!(!accepts("nano"));
    assert!(!accepts("++inf"));
}

#[test]
fn other_texts_are_not_numbers() {
    assert!(!accepts(""));
    assert!(!accepts("abc"));
    assert!(!accepts("12abc"));
    assert!(!accepts("1,5"));
    assert!(!accepts(" 1"));
    assert!(!accepts("1 "));
    assert!(!accepts("0x10"));
    assert!(!accepts("1_000"));
    assert!(!accepts("\u{0661}"));
}

#[test]
fn the_recogniser_agrees_with_the_standard_parser() {
    let samples = [
        "", "0", "1", "-1", "+1", "1.", ".1", ".", "1e1", "1e", "e1", "1e+1", "1e-1", "1e+",
        "inf", "+inf", "-inf", "infinity", "nan", "NAN", "Inf", "iNfInItY", "infinit", "in",
        "1.5.5", "1,5", "abc", "1a", "a1", "--1", "1e1.5", "١", "1 ", " 1", "+", "-", "+.",
        "+.e1", "0e0", "00.00e00", "1E10", "1e١",
    ];
    for text in samples {
        assert_eq!(accepts(text), text.parse::<f64>().is_ok(), "{:?}", text);
    }
}

#[test]
fn ascii_letters_lower() {
    assert_eq!(to_ascii_lower('A'), 'a');
    assert_eq!(to_ascii_lower('Z'), 'z');
    assert_eq!(to_ascii_lower('m'), 'm');
    assert_eq!(to_ascii_lower('@'), '@');
    assert_eq!(to_ascii_lower('['), '[');
    assert_eq!(to_ascii_lower('\u{c9}'), '\u{c9}');
}
