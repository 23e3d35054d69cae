use lmah_inventory_rs::money::format_cents;
use lmah_inventory_rs::text::{
    is_blank, parse_i64, push_signed_decimal, signed_decimal_string, starts_with, str_equals,
    text_before,
};

#[test]
fn format_cents_renders_dollars_and_cents() {
    assert_eq!(format_cents(1150), "11.50");
    assert_eq!(format_cents(7), "0.07");
    assert_eq!(format_cents(0), "0.00");
    assert_eq!(format_cents(-500), "-5.00");
    assert_eq!(format_cents(123456), "1234.56");
}

#[test]
fn signed_decimal_string_renders_integers() {
    assert_eq!(signed_decimal_string(0), "0");
    assert_eq!(signed_decimal_string(-42), "-42");
    assert_eq!(signed_decimal_string(i64::MAX), "9223372036854775807");
    assert_eq!(signed_decimal_string(i64::MIN), "-9223372036854775808");
}

#[test]
fn parse_i64_reads_like_str_parse() {
    for s in ["0", "12", "+12", "-12", "007", "-9223372036854775808", "9223372036854775807"] {
        assert_eq!(parse_i64(s), s.parse::<i64>().ok(), "{}", s);
    }
    for s in ["", "-", "+", "1a", " 1", "1 ", "9223372036854775808", "-9223372036854775809", "1.5"] {
        assert_eq!(parse_i64(s), None, "{}", s);
        assert!(s.parse::<i64>().is_err());
    }
}

#[test]
fn parse_i64_undoes_signed_decimal_string() {
    for n in [0, 1, -1, 42, -1234567, i64::MAX, i64::MIN] {
        assert_eq!(parse_i64(&signed_decimal_string(n)), Some(n));
    }
}

#[test]
fn blank_text_is_white_space_only() {
    assert!(is_blank(""));
    assert!(is_blank("  \t\n"));
    assert!(is_blank("\u{a0}\u{2003}"));
    assert!(!is_blank(" a "));
}

#[test]
fn text_before_cuts_at_the_first_separator() {
    assert_eq!(text_before("2024-01-01T12:00:00.000Z", 'T'), "2024-01-01");
    assert_eq!(text_before("2024-01-01", 'T'), "2024-01-01");
    assert_eq!(text_before("TT", 'T'), "");
}

#[test]
fn comparisons_of_text() {
    assert!(str_equals("Robe", "Robe"));
    assert!(!str_equals("Robe", "robe"));
    assert!(starts_with("formule-type-robes", "formule-type"));
    assert!(!starts_with("formule", "formule-type"));
}

#[test]
fn pushing_a_number_appends_its_characters() {
    let mut s = String::from("ab");
    push_signed_decimal(&mut s, -70);
    assert_eq!(s, "ab-70");
}
