use fuji::number::{
    is_digit_char, parse_i32, parse_i64, parse_tenths, push_int, push_nat, push_tenths,
    read_digits, ConversionError,
};
use fuji::text::{
    chars_eq, chars_of, labelled_pair, lowered_chars, split_at_char, str_eq, strip_prefix,
    to_ascii_lower,
};

fn chars(text: &str) -> Vec<char> {
    text.chars().collect()
}

fn written_int(value: i64) -> String {
    let mut out = String::new();
    push_int(&mut out, value);
    out
}

fn written_tenths(value: i64) -> String {
    let mut out = String::new();
    push_tenths(&mut out, value);
    out
}

#[test]
fn integers_are_read_with_an_optional_sign() {
    assert_eq!(parse_i64(&chars("3")), Ok(3));
    assert_eq!(parse_i64(&chars("-3")), Ok(-3));
    assert_eq!(parse_i64(&chars("+3")), Ok(3));
    assert_eq!(parse_i64(&chars("0")), Ok(0));
    assert_eq!(parse_i64(&chars("-0")), Ok(0));
    assert_eq!(parse_i64(&chars("0042")), Ok(42));
    assert_eq!(parse_i64(&chars("9223372036854775807")), Ok(i64::MAX));
    assert_eq!(parse_i64(&chars("-9223372036854775808")), Ok(i64::MIN));
}

#[test]
fn integers_out_of_range_are_told_from_malformed_ones() {
    assert_eq!(parse_i64(&chars("9223372036854775808")), Err(ConversionError::OutOfRange));
    assert_eq!(parse_i64(&chars("-9223372036854775809")), Err(ConversionError::OutOfRange));
    assert_eq!(parse_i64(&chars("18446744073709551615")), Err(ConversionError::OutOfRange));
    assert_eq!(parse_i64(&chars("18446744073709551616")), Err(ConversionError::OutOfRange));
    assert_eq!(
        parse_i64(&chars("999999999999999999999999999999")),
        Err(ConversionError::OutOfRange)
    );
    assert_eq!(
        parse_i64(&chars("99999999999999999999999999999x")),
        Err(ConversionError::Malformed)
    );
    assert_eq!(parse_i64(&chars("")), Err(ConversionError::Malformed));
    assert_eq!(parse_i64(&chars("-")), Err(ConversionError::Malformed));
    assert_eq!(parse_i64(&chars("+")), Err(ConversionError::Malformed));
    assert_eq!(parse_i64(&chars("1-")), Err(ConversionError::Malformed));
    assert_eq!(parse_i64(&chars("1 ")), Err(ConversionError::Malformed));
    assert_eq!(parse_i64(&chars("0x10")), Err(ConversionError::Malformed));
}

#[test]
fn integers_of_32_bits_have_their_own_range() {
    assert_eq!(parse_i32(&chars("2147483647")), Ok(i32::MAX));
    assert_eq!(parse_i32(&chars("-2147483648")), Ok(i32::MIN));
    assert_eq!(parse_i32(&chars("2147483648")), Err(ConversionError::OutOfRange));
    assert_eq!(parse_i32(&chars("-2147483649")), Err(ConversionError::OutOfRange));
    assert_eq!(parse_i32(&chars("99999999999999999999")), Err(ConversionError::OutOfRange));
    assert_eq!(parse_i32(&chars("12a")), Err(ConversionError::Malformed));
}

#[test]
fn tenths_are_read_with_at_most_one_digit_after_the_point() {
    assert_eq!(parse_tenths(&chars("2")), Ok(20));
    assert_eq!(parse_tenths(&chars("1.5")), Ok(15));
    assert_eq!(parse_tenths(&chars("-3.5")), Ok(-35));
    assert_eq!(parse_tenths(&chars("+0.5")), Ok(5));
    assert_eq!(parse_tenths(&chars("2.0")), Ok(20));
    assert_eq!(parse_tenths(&chars("922337203685477580.7")), Ok(i64::MAX));
    assert_eq!(parse_tenths(&chars("-922337203685477580.8")), Ok(i64::MIN));
    assert_eq!(parse_tenths(&chars("922337203685477580.8")), Err(ConversionError::OutOfRange));
    assert_eq!(parse_tenths(&chars("922337203685477581")), Err(ConversionError::OutOfRange));
    assert_eq!(parse_tenths(&chars("-922337203685477580.9")), Err(ConversionError::OutOfRange));
    assert_eq!(
        parse_tenths(&chars("99999999999999999999999.9")),
        Err(ConversionError::OutOfRange)
    );
    assert_eq!(parse_tenths(&chars("1.")), Err(ConversionError::Malformed));
    assert_eq!(parse_tenths(&chars(".5")), Err(ConversionError::Malformed));
    assert_eq!(parse_tenths(&chars("1.50")), Err(ConversionError::Malformed));
    assert_eq!(parse_tenths(&chars("1..5")), Err(ConversionError::Malformed));
    assert_eq!(parse_tenths(&chars("1.a")), Err(ConversionError::Malformed));
    assert_eq!(parse_tenths(&chars("")), Err(ConversionError::Malformed));
}

#[test]
fn runs_of_digits_are_read_and_held_at_the_largest_value() {
    let text = chars("ab123cd");
    assert_eq!(read_digits(&text, 2, 5), Some(123));
    assert_eq!(read_digits(&text, 2, 2), None);
    assert_eq!(read_digits(&text, 1, 5), None);
    assert_eq!(read_digits(&text, 2, 6), None);
    let large = chars("18446744073709551615");
    assert_eq!(read_digits(&large, 0, large.len()), Some(u64::MAX));
    let larger = chars("18446744073709551616");
    assert_eq!(read_digits(&larger, 0, larger.len()), Some(u64::MAX));
    let below = chars("18446744073709551614");
    assert_eq!(read_digits(&below, 0, below.len()), Some(u64::MAX - 1));
    assert!(is_digit_char('0') && is_digit_char('9'));
    assert!(!is_digit_char('/') && !is_digit_char(':') && !is_digit_char('a'));
}

#[test]
fn integers_are_written_without_a_plus() {
    assert_eq!(written_int(0), "0");
    assert_eq!(written_int(7), "7");
    assert_eq!(written_int(-7), "-7");
    assert_eq!(written_int(10), "10");
    assert_eq!(written_int(1234567890), "1234567890");
    assert_eq!(written_int(i64::MAX), "9223372036854775807");
    assert_eq!(written_int(i64::MIN), "-9223372036854775808");
    let mut out = String::from("n=");
    push_nat(&mut out, u64::MAX);
    assert_eq!(out, "n=18446744073709551615");
}

#[test]
fn tenths_are_written_without_a_trailing_zero() {
    assert_eq!(written_tenths(20), "2");
    assert_eq!(written_tenths(15), "1.5");
    assert_eq!(written_tenths(-20), "-2");
    assert_eq!(written_tenths(-35), "-3.5");
    assert_eq!(written_tenths(0), "0");
    assert_eq!(written_tenths(1), "0.1");
    assert_eq!(written_tenths(-9), "-0.9");
    assert_eq!(written_tenths(1000), "100");
}

#[test]
fn written_numbers_read_back() {
    for value in [i64::MIN, -1000, -11, -10, -1, 0, 1, 10, 11, 1000, i64::MAX] {
        assert_eq!(parse_i64(&chars(&written_int(value))), Ok(value));
        assert_eq!(parse_tenths(&chars(&written_tenths(value))), Ok(value));
    }
}

#[test]
fn texts_are_compared_by_their_characters() {
    assert!(str_eq("Make", "Make"));
    assert!(!str_eq("Make", "make"));
    assert!(!str_eq("Make", "Maker"));
    assert!(str_eq("", ""));
    assert!(str_eq("é✓", "é✓"));
    assert!(!str_eq("é", "e"));
    assert_eq!(chars_of("aé✓"), vec!['a', 'é', '✓']);
    assert!(chars_eq(&chars("Auto"), "Auto"));
    assert!(!chars_eq(&chars("Auto"), "Aut"));
    assert!(!chars_eq(&chars("Auto"), "Auth"));
}

#[test]
fn texts_are_taken_apart() {
    let text = chars("R4 B-2");
    assert_eq!(strip_prefix(&text, "R"), Some(&text[1..]));
    assert_eq!(strip_prefix(&text, "R4 B-2"), Some(&text[6..]));
    assert_eq!(strip_prefix(&text, ""), Some(&text[..]));
    assert_eq!(strip_prefix(&text, "B"), None);
    assert_eq!(strip_prefix(&text, "R4 B-2 "), None);
    assert_eq!(split_at_char(&text, ' '), Some((&text[..2], &text[3..])));
    assert_eq!(split_at_char(&text, 'R'), Some((&text[..0], &text[1..])));
    assert_eq!(split_at_char(&text, '2'), Some((&text[..5], &text[6..])));
    assert_eq!(split_at_char(&text, ','), None);
    let twice = chars("a b c");
    assert_eq!(split_at_char(&twice, ' '), Some((&twice[..1], &twice[2..])));
    assert_eq!(labelled_pair(&text, "R", "B"), Some((&text[1..2], &text[4..])));
    assert_eq!(labelled_pair(&text, "R", "G"), None);
    assert_eq!(labelled_pair(&text, "H", "B"), None);
    assert_eq!(labelled_pair(&chars("R4B2"), "R", "B"), None);
}

#[test]
fn capital_letters_are_made_small() {
    assert_eq!(to_ascii_lower('A'), 'a');
    assert_eq!(to_ascii_lower('Z'), 'z');
    assert_eq!(to_ascii_lower('a'), 'a');
    assert_eq!(to_ascii_lower('@'), '@');
    assert_eq!(to_ascii_lower('['), '[');
    assert_eq!(to_ascii_lower('É'), 'É');
    assert_eq!(lowered_chars(&chars("FujiFILM 5")), chars("fujifilm 5"));
}
