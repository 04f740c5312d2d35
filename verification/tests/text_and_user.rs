use freemd::http::Status;
use freemd::text::{byte_length, contains, preview, str_eq, trim};
use freemd::user::{current_user_id, format_user_id, from_request, parse_user_id};

#[test]
fn trim_strips_unicode_whitespace() {
    assert_eq!(trim("  hello world \t\n"), "hello world");
    assert_eq!(trim("\u{3000}\u{a0}x\u{2028}"), "x");
    assert_eq!(trim(" \t \n "), "");
    assert_eq!(trim(""), "");
    assert_eq!(trim("a b"), "a b");
}

#[test]
fn byte_length_counts_utf8_bytes() {
    assert_eq!(byte_length("abc"), 3);
    assert_eq!(byte_length("é"), 2);
    assert_eq!(byte_length("日本"), 6);
    assert_eq!(byte_length("😀"), 4);
}

#[test]
fn str_eq_and_contains() {
    assert!(str_eq("public", "public"));
    assert!(!str_eq("public", "Public"));
    assert!(!str_eq("pub", "public"));
    assert!(contains("UNIQUE constraint failed: users.username", "UNIQUE"));
    assert!(!contains("unique constraint failed", "UNIQUE"));
    assert!(contains("abc", ""));
    assert!(!contains("", "a"));
}

#[test]
fn preview_keeps_short_content() {
    let short = "a".repeat(100);
    assert_eq!(preview(&short), short);
    assert_eq!(preview("hello"), "hello");
}

#[test]
fn preview_cuts_long_content() {
    let long = "b".repeat(150);
    assert_eq!(preview(&long), format!("{}...", "b".repeat(100)));
    let long101 = "c".repeat(101);
    assert_eq!(preview(&long101), format!("{}...", "c".repeat(100)));
}

#[test]
fn preview_counts_bytes_then_takes_chars() {
    // 60 two-byte characters: 120 bytes, so it is cut, but all 60 characters fit.
    let s = "é".repeat(60);
    assert_eq!(preview(&s), format!("{}...", s));
    // 50 two-byte characters: exactly 100 bytes, kept whole.
    let t = "é".repeat(50);
    assert_eq!(preview(&t), t);
    // 150 two-byte characters: the first 100 characters.
    let u = "é".repeat(150);
    assert_eq!(preview(&u), format!("{}...", "é".repeat(100)));
}

#[test]
fn parse_user_id_accepts_signed_decimals() {
    assert_eq!(parse_user_id("42"), Some(42));
    assert_eq!(parse_user_id("-42"), Some(-42));
    assert_eq!(parse_user_id("+7"), Some(7));
    assert_eq!(parse_user_id("0007"), Some(7));
    assert_eq!(parse_user_id("-0"), Some(0));
    assert_eq!(parse_user_id("9223372036854775807"), Some(i64::MAX));
    assert_eq!(parse_user_id("-9223372036854775808"), Some(i64::MIN));
}

#[test]
fn parse_user_id_refuses_other_text() {
    assert_eq!(parse_user_id(""), None);
    assert_eq!(parse_user_id("-"), None);
    assert_eq!(parse_user_id("+"), None);
    assert_eq!(parse_user_id("12a"), None);
    assert_eq!(parse_user_id(" 1"), None);
    assert_eq!(parse_user_id("1 "), None);
    assert_eq!(parse_user_id("+-5"), None);
    assert_eq!(parse_user_id("٣"), None);
    assert_eq!(parse_user_id("9223372036854775808"), None);
    assert_eq!(parse_user_id("-9223372036854775809"), None);
    assert_eq!(parse_user_id("99999999999999999999999999999999999"), None);
}

#[test]
fn parse_user_id_agrees_with_std() {
    for s in ["17", "-3", "+12", "", "x", "00", "123456789012345678901", "-1e3", "1_000"] {
        assert_eq!(parse_user_id(s), s.parse::<i64>().ok(), "input {:?}", s);
    }
}

#[test]
fn format_user_id_writes_decimal() {
    assert_eq!(format_user_id(0), "0");
    assert_eq!(format_user_id(17), "17");
    assert_eq!(format_user_id(-5), "-5");
    assert_eq!(format_user_id(i64::MAX), "9223372036854775807");
    assert_eq!(format_user_id(i64::MIN), "-9223372036854775808");
}

#[test]
fn cookie_round_trip_on_values() {
    for id in [0i64, 1, -1, 42, 1000000, i64::MAX, i64::MIN, -987654321] {
        assert_eq!(parse_user_id(&format_user_id(id)), Some(id));
        assert_eq!(format_user_id(id), id.to_string());
    }
}

#[test]
fn from_request_reads_the_cookie() {
    assert_eq!(from_request(Some("12")).map(|u| u.id), Ok(12));
    assert_eq!(from_request(Some("abc")).map(|u| u.id), Err(Status::Unauthorized));
    assert_eq!(from_request(None).map(|u| u.id), Err(Status::Unauthorized));
    assert_eq!(current_user_id(Some("5")), Some(5));
    assert_eq!(current_user_id(Some("five")), None);
    assert_eq!(current_user_id(None), None);
}

#[test]
fn status_codes() {
    assert_eq!(Status::BadRequest.code(), 400);
    assert_eq!(Status::Unauthorized.code(), 401);
    assert_eq!(Status::Forbidden.code(), 403);
    assert_eq!(Status::NotFound.code(), 404);
    assert_eq!(Status::InternalServerError.code(), 500);
}
