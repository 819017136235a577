use torrent_throttle::monitor::match_patterns;
use torrent_throttle::http::HttpStatus;
use torrent_throttle::text::{
    join_strings, parse_u64_str, str_contains, str_ends_with, trim,
    trim_end_matches_char, u64_to_decimal, IntErrorKind,
};

#[test]
fn trims_unicode_whitespace() {
    assert_eq!(trim("\u{3000}\t  steam \r\n\u{a0}"), "steam");
    assert_eq!(trim("   "), "");
    assert_eq!(trim("a b"), "a b");
}

#[test]
fn trims_trailing_slashes() {
    assert_eq!(trim_end_matches_char("http://x:1///", '/'), "http://x:1");
    assert_eq!(trim_end_matches_char("///", '/'), "");
}

#[test]
fn substring_and_suffix() {
    assert!(str_contains("Fails.", "Fails"));
    assert!(!str_contains("Ok.", "Fails"));
    assert!(str_contains("abc", ""));
    assert!(str_ends_with("http://x/tr/rpc", "/rpc"));
    assert!(!str_ends_with("rpc", "/rpc"));
}

#[test]
fn decimal_round_trip() {
    assert_eq!(u64_to_decimal(0), "0");
    assert_eq!(u64_to_decimal(1_048_576), "1048576");
    assert_eq!(u64_to_decimal(u64::MAX), "18446744073709551615");
    assert_eq!(parse_u64_str("18446744073709551615"), Ok(u64::MAX));
}

#[test]
fn parse_errors_match_std() {
    for s in ["", "+", "-1", "1 2", "abc", "18446744073709551616", "99999999999999999999x", "+7", "007"] {
        let expected = s.parse::<u64>().map_err(|e| e.to_string());
        let ours = parse_u64_str(s).map_err(|k| k.message());
        assert_eq!(ours, expected, "input {s:?}");
    }
    assert_eq!(parse_u64_str("+"), Err(IntErrorKind::InvalidDigit));
}

#[test]
fn matching_folds_unicode_case() {
    let names = vec!["SteamWebHelper".to_string(), "ÄÖÜ-Spiel".to_string(), "bash".to_string()];
    let patterns = vec!["steam".to_string(), "äöü".to_string()];
    assert_eq!(match_patterns(&names, &patterns), vec!["SteamWebHelper".to_string(), "ÄÖÜ-Spiel".to_string()]);
}

#[test]
fn join_with_separator() {
    let v = vec!["a".to_string(), "b".to_string(), "c".to_string()];
    assert_eq!(join_strings(&v, ", "), "a, b, c");
    assert_eq!(join_strings(&Vec::new(), ", "), "");
}

#[test]
fn status_text_matches_http_display() {
    for code in [200u16, 404, 409, 418, 500, 599, 999] {
        let ours = HttpStatus::from_code(code).unwrap().text();
        let theirs = reqwest::StatusCode::from_u16(code).unwrap().to_string();
        assert_eq!(ours, theirs);
    }
    assert!(HttpStatus::from_code(99).is_none());
    assert!(HttpStatus::from_code(1000).is_none());
}
