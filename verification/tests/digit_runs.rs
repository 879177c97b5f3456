use countmedown::digits::{is_ascii_digit, push_decimal, push_two_digits};
use countmedown::fields::to_chars;

#[test]
fn only_the_ten_ascii_digits_are_digits() {
    for c in '0'..='9' {
        assert!(is_ascii_digit(c));
    }
    assert!(!is_ascii_digit('/'));
    assert!(!is_ascii_digit(':'));
    assert!(!is_ascii_digit('a'));
    assert!(!is_ascii_digit('+'));
    assert!(!is_ascii_digit('-'));
    assert!(!is_ascii_digit(' '));
    assert!(!is_ascii_digit('\u{0661}'));
    assert!(!is_ascii_digit('\u{ff11}'));
}

#[test]
fn a_numeral_has_no_leading_zeros() {
    let numeral = |n: u64| {
        let mut out = String::new();
        push_decimal(&mut out, n);
        out
    };
    assert_eq!(numeral(0), "0");
    assert_eq!(numeral(7), "7");
    assert_eq!(numeral(10), "10");
    assert_eq!(numeral(1_234_567_890), "1234567890");
    assert_eq!(numeral(u64::MAX), "18446744073709551615");
}

#[test]
fn a_numeral_is_appended_to_what_is_there() {
    let mut out = String::from("x=");
    push_decimal(&mut out, 42);
    push_two_digits(&mut out, 7);
    push_two_digits(&mut out, -7);
    assert_eq!(out, "x=4207-7");
}

#[test]
fn a_width_of_two_counts_the_sign() {
    let padded = |v: i64| {
        let mut out = String::new();
        push_two_digits(&mut out, v);
        out
    };
    assert_eq!(padded(0), "00");
    assert_eq!(padded(9), "09");
    assert_eq!(padded(10), "10");
    assert_eq!(padded(99), "99");
    assert_eq!(padded(100), "100");
    assert_eq!(padded(-1), "-1");
    assert_eq!(padded(-9), "-9");
    assert_eq!(padded(-10), "-10");
    assert_eq!(padded(i64::MAX), "9223372036854775807");
    assert_eq!(padded(i64::MIN), "-9223372036854775808");
    let samples: [i64; 7] = [0, 5, 12, 345, -3, -45, -678];
    for v in samples {
        assert_eq!(padded(v), format!("{:02}", v));
    }
}

#[test]
fn the_characters_of_a_text_come_in_order() {
    assert_eq!(to_chars(""), Vec::<char>::new());
    assert_eq!(to_chars("1:02"), vec!['1', ':', '0', '2']);
    assert_eq!(to_chars("\u{00e4}\u{1f980}z"), vec!['\u{00e4}', '\u{1f980}', 'z']);
}
