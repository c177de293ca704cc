use primer::guessing::{parse_guess, secret_number, HIGHEST_SECRET, LOWEST_SECRET};
use primer::text::decimal_text;

#[test]
fn secret_number_lies_between_1_and_100() {
    assert_eq!(LOWEST_SECRET, 1);
    assert_eq!(HIGHEST_SECRET, 100);
    for _ in 0..2000 {
        let secret = secret_number();
        assert!(1 <= secret && secret <= 100);
    }
}

#[test]
fn secret_number_varies() {
    let first = secret_number();
    let mut differs = false;
    for _ in 0..400 {
        let next = secret_number();
        if next != first {
            differs = true;
        }
    }
    assert!(differs);
}

#[test]
fn secret_number_is_not_always_a_bound() {
    let mut inside = false;
    for _ in 0..400 {
        let secret = secret_number();
        if secret != LOWEST_SECRET && secret != HIGHEST_SECRET {
            inside = true;
        }
    }
    assert!(inside);
}

#[test]
fn guess_is_read_from_a_line() {
    assert_eq!(parse_guess("42\n"), Some(42));
    assert_eq!(parse_guess("42\r\n"), Some(42));
    assert_eq!(parse_guess("  7  "), Some(7));
    assert_eq!(parse_guess("0"), Some(0));
    assert_eq!(parse_guess("\t100 \n"), Some(100));
}

#[test]
fn guess_may_carry_a_plus_sign_and_leading_zeros() {
    assert_eq!(parse_guess("+5"), Some(5));
    assert_eq!(parse_guess("0007"), Some(7));
    assert_eq!(parse_guess("+000"), Some(0));
    assert_eq!(parse_guess("00000000000000000000000000000012"), Some(12));
}

#[test]
fn guess_must_fit_in_32_bits() {
    assert_eq!(parse_guess("4294967295"), Some(4294967295));
    assert_eq!(parse_guess("4294967296"), None);
    assert_eq!(parse_guess("99999999999999999999999999"), None);
    assert_eq!(parse_guess("18446744073709551616"), None);
}

#[test]
fn line_without_a_number_holds_no_guess() {
    assert_eq!(parse_guess(""), None);
    assert_eq!(parse_guess("   "), None);
    assert_eq!(parse_guess("\n"), None);
    assert_eq!(parse_guess("abc"), None);
    assert_eq!(parse_guess("-5"), None);
    assert_eq!(parse_guess("+"), None);
    assert_eq!(parse_guess("++5"), None);
    assert_eq!(parse_guess("+ 5"), None);
    assert_eq!(parse_guess("1 2"), None);
    assert_eq!(parse_guess("12a"), None);
    assert_eq!(parse_guess("1_000"), None);
    assert_eq!(parse_guess("3.0"), None);
    assert_eq!(parse_guess("٣"), None);
}

#[test]
fn every_kind_of_white_space_is_trimmed() {
    assert_eq!(parse_guess("\u{3000}12\u{a0}"), Some(12));
    assert_eq!(parse_guess("\u{2003}\u{85}9\u{2028}\u{2029}"), Some(9));
    assert_eq!(parse_guess("\u{200b}9"), None);
}

#[test]
fn guess_agrees_with_the_standard_parser_around_every_character() {
    let mut code: u32 = 0;
    while code <= 0x10ffff {
        if let Some(c) = char::from_u32(code) {
            let before = format!("{}31", c);
            assert_eq!(parse_guess(&before), before.trim().parse::<u32>().ok());
            let after = format!("31{}", c);
            assert_eq!(parse_guess(&after), after.trim().parse::<u32>().ok());
        }
        code += 1;
    }
}

#[test]
fn written_guess_is_read_back() {
    let mut n: u32 = 0;
    for _ in 0..200 {
        assert_eq!(parse_guess(&decimal_text(n)), Some(n));
        n = n.wrapping_mul(2654435761).wrapping_add(97);
    }
    assert_eq!(parse_guess(&decimal_text(u32::MAX)), Some(u32::MAX));
}
