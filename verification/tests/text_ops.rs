use yaddak::errors::{YaddakError, YaddakErrorKind};
use yaddak::headers::auth_handler;
use yaddak::monsters::{challenge_convert, challenge_to_text};
use yaddak::text::{eq_verbatim, head_before_first, tail_after_last, u32_to_dec};

#[test]
fn bearer_token_is_extracted_after_scheme() {
    let header = String::from("Bearer abc123");
    let token = auth_handler(Some(&header)).unwrap();
    assert_eq!(token, "abc123");
}

#[test]
fn bare_token_is_returned_whole() {
    let header = String::from("abc123");
    let token = auth_handler(Some(&header)).unwrap();
    assert_eq!(token, "abc123");
}

#[test]
fn missing_header_is_refused() {
    let err = auth_handler(None).unwrap_err();
    assert!(matches!(err.kind, YaddakErrorKind::AuthError));
    assert_eq!(err.message, "No Authorization Header");
}

#[test]
fn empty_header_is_refused() {
    let header = String::new();
    let err = auth_handler(Some(&header)).unwrap_err();
    assert!(matches!(err.kind, YaddakErrorKind::AuthError));
    assert_eq!(err.message, "Authorization Header is empty");
}

#[test]
fn trailing_space_leaves_empty_token() {
    let header = String::from("Bearer ");
    assert!(auth_handler(Some(&header)).is_err());
}

#[test]
fn last_segment_wins() {
    let header = String::from("a b c");
    assert_eq!(auth_handler(Some(&header)).unwrap(), "c");
}

#[test]
fn tail_after_last_splits_on_dollar() {
    assert_eq!(tail_after_last("$argon2i$v=19$m=65536$abc$HASH", '$'), "HASH");
    assert_eq!(tail_after_last("nodollar", '$'), "nodollar");
    assert_eq!(tail_after_last("", '$'), "");
}

#[test]
fn head_before_first_takes_leading_token() {
    assert_eq!(head_before_first("5 (1,800 XP)", ' '), "5");
    assert_eq!(head_before_first("1/2", ' '), "1/2");
    assert_eq!(head_before_first("", ' '), "");
}

#[test]
fn challenge_fractions_convert_exactly() {
    assert_eq!(challenge_convert("1/8"), 125);
    assert_eq!(challenge_convert("1/4"), 250);
    assert_eq!(challenge_convert("1/2"), 500);
}

#[test]
fn challenge_whole_numbers_convert_to_thousandths() {
    assert_eq!(challenge_convert("0"), 0);
    assert_eq!(challenge_convert("5"), 5000);
    assert_eq!(challenge_convert("30"), 30000);
}

#[test]
fn challenge_junk_converts_to_zero() {
    assert_eq!(challenge_convert(""), 0);
    assert_eq!(challenge_convert("x"), 0);
    assert_eq!(challenge_convert("2.5"), 0);
    assert_eq!(challenge_convert("1/3"), 0);
}

#[test]
fn challenge_renders_like_a_float() {
    assert_eq!(challenge_to_text(125), "0.125");
    assert_eq!(challenge_to_text(250), "0.25");
    assert_eq!(challenge_to_text(500), "0.5");
    assert_eq!(challenge_to_text(0), "0");
    assert_eq!(challenge_to_text(5000), "5");
    assert_eq!(challenge_to_text(1500), "1.5");
    assert_eq!(challenge_to_text(30000), "30");
}

#[test]
fn decimal_renderings() {
    assert_eq!(u32_to_dec(0), "0");
    assert_eq!(u32_to_dec(7), "7");
    assert_eq!(u32_to_dec(12345), "12345");
    assert_eq!(u32_to_dec(u32::MAX), "4294967295");
}

#[test]
fn verbatim_comparison_is_exact() {
    assert!(eq_verbatim("abc", "abc"));
    assert!(!eq_verbatim("abc", "abd"));
    assert!(!eq_verbatim("abc", "abcd"));
    assert!(!eq_verbatim("abc", "ABC"));
    assert!(eq_verbatim("", ""));
}

#[test]
fn error_renderings_carry_the_coded_prefix() {
    let e = YaddakError::authorize_error(String::from("nope"));
    assert_eq!(e.render(), "[E003] Authentication Error: nope");
    let copy = e.duplicate();
    assert!(matches!(copy.kind, YaddakErrorKind::AuthError));
    assert_eq!(copy.message, "nope");
    let e = YaddakError::database_error(String::from("down"));
    assert_eq!(e.render(), "[E004] Database Error:  down");
    let e = YaddakError::environment_error(String::from("unset"));
    assert_eq!(e.render(), "[E001] Environment Variable Error: unset");
    let e = YaddakError::internal_error(String::from("boom"));
    assert_eq!(e.render(), "[E002] Internal Error: boom");
}
