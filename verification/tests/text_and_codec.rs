use simadmin::codec::{encode, hmac_base64, hmac_hex};
use simadmin::json::is_json;
use simadmin::notify::channel::ChannelType;
use simadmin::notify::delivery::validate_provider_response;
use simadmin::notify::error::NotifyError;
use simadmin::text::{
    compact, eq_ignore_ascii_case, is_blank_str, parse_i64, split_list, to_ascii_lowercase,
    trim_end_slashes_str, trim_str, u128_to_decimal, u64_to_decimal,
};

#[test]
fn hmac_hex_matches_the_published_sha256_vector() {
    assert_eq!(
        hmac_hex("key", b"The quick brown fox jumps over the lazy dog"),
        "f7bc83f430538424b13298e6aa6fb143ef4d59a14946175997479dbc2d1a3cd8"
    );
}

#[test]
fn hmac_base64_encodes_the_same_digest() {
    assert_eq!(
        hmac_base64("key", b"The quick brown fox jumps over the lazy dog"),
        "97yD9DBThCSxMpjmqm+xQ+9NWaFJRhdZl0edvC0aPNg="
    );
}

#[test]
fn hmac_of_empty_secret_and_body_is_defined() {
    assert_eq!(hmac_hex("", b"").len(), 64);
    assert_eq!(hmac_base64("", b"").len(), 44);
}

#[test]
fn encode_trims_and_escapes_everything_but_unreserved_bytes() {
    assert_eq!(encode("  a b/é  "), "a%20b%2F%C3%A9");
    assert_eq!(encode("-._~AZaz09"), "-._~AZaz09");
    assert_eq!(encode("+="), "%2B%3D");
    assert_eq!(encode("   "), "");
}

#[test]
fn encode_output_is_url_safe() {
    let out = encode("设备 key?&=/#%");
    assert!(out
        .chars()
        .all(|c| c.is_ascii_alphanumeric() || "-._~%".contains(c)));
}

#[test]
fn compact_collapses_whitespace() {
    assert_eq!(compact("  a \n b\t\tc  ", 240), "a b c");
    assert_eq!(compact("", 240), "");
    assert_eq!(compact(" \u{3000} ", 240), "");
}

#[test]
fn compact_truncates_with_ellipsis() {
    assert_eq!(compact("abcdef", 3), "abc...");
    assert_eq!(compact("abc", 3), "abc");
    assert_eq!(compact("设备告警信号", 2), "设备...");
}

#[test]
fn compact_result_is_bounded() {
    let long = "word ".repeat(200);
    let out = compact(&long, 240);
    assert!(out.chars().count() <= 243);
    assert!(out.ends_with("..."));
}

#[test]
fn trim_is_idempotent_on_samples() {
    for s in ["  x  ", "\t\ny z\r\n", "", "   ", "\u{3000}a\u{3000}"] {
        let once = trim_str(s);
        assert_eq!(trim_str(once), once);
        assert_eq!(once, s.trim());
    }
}

#[test]
fn blank_means_only_whitespace() {
    assert!(is_blank_str(""));
    assert!(is_blank_str(" \t\n"));
    assert!(!is_blank_str(" a "));
}

#[test]
fn trailing_slashes_are_removed() {
    assert_eq!(trim_end_slashes_str("https://x.test///"), "https://x.test");
    assert_eq!(trim_end_slashes_str("abc"), "abc");
    assert_eq!(trim_end_slashes_str("///"), "");
}

#[test]
fn split_list_drops_blank_items_and_trims() {
    let items = split_list(" a , b;;c\n ,", &[',', ';', '\n']);
    assert_eq!(items, vec!["a".to_string(), "b".to_string(), "c".to_string()]);
    assert!(split_list("", &[',']).is_empty());
}

#[test]
fn ascii_case_helpers() {
    assert_eq!(to_ascii_lowercase("HTML Ä"), "html Ä");
    assert!(eq_ignore_ascii_case("Content-Type", "content-type"));
    assert!(!eq_ignore_ascii_case("content-type", "content-typ"));
}

#[test]
fn decimal_rendering() {
    assert_eq!(u64_to_decimal(0), "0");
    assert_eq!(u64_to_decimal(1_700_000_000), "1700000000");
    assert_eq!(u64_to_decimal(u64::MAX), "18446744073709551615");
    assert_eq!(u128_to_decimal(1_700_000_000_123), "1700000000123");
}

#[test]
fn parse_i64_accepts_what_rust_accepts() {
    assert_eq!(parse_i64("42"), Some(42));
    assert_eq!(parse_i64("+7"), Some(7));
    assert_eq!(parse_i64("-9223372036854775808"), Some(i64::MIN));
    assert_eq!(parse_i64("9223372036854775807"), Some(i64::MAX));
    assert_eq!(parse_i64("9223372036854775808"), None);
    assert_eq!(parse_i64(""), None);
    assert_eq!(parse_i64("-"), None);
    assert_eq!(parse_i64("1.0"), None);
    assert_eq!(parse_i64(" 1"), None);
}

#[test]
fn is_json_follows_serde_json() {
    assert!(is_json("{\"a\":1}"));
    assert!(is_json(" [1, 2] "));
    assert!(is_json("\"text\""));
    assert!(!is_json("not json"));
    assert!(!is_json("{"));
}

fn provider_error(channel: ChannelType, body: &str) -> Option<String> {
    match validate_provider_response(channel, body) {
        Ok(()) => None,
        Err(NotifyError::Provider(m)) => Some(m),
        Err(other) => panic!("unexpected error {:?}", other),
    }
}

#[test]
fn provider_refusals_per_channel() {
    assert_eq!(provider_error(ChannelType::Bark, "{\"code\":400,\"message\":\"bad\"}"),
        Some("{\"code\":400,\"message\":\"bad\"}".to_string()));
    assert_eq!(provider_error(ChannelType::Bark, "{\"code\":200}"), None);
    assert_eq!(provider_error(ChannelType::Pushplus, "{\"code\":0}"), None);
    assert_eq!(provider_error(ChannelType::Pushplus, "{\"code\":200}"), None);
    assert!(provider_error(ChannelType::Pushplus, "{\"code\":999}").is_some());
    assert!(provider_error(ChannelType::Serverchan3, "{\"code\":40001}").is_some());
    assert!(provider_error(ChannelType::WecomApp, "{\"errcode\":40001}").is_some());
    assert!(provider_error(ChannelType::WecomRobot, "{\"errcode\":1}").is_some());
    assert!(provider_error(ChannelType::DingtalkRobot, "{\"errcode\":310000}").is_some());
    assert_eq!(provider_error(ChannelType::DingtalkRobot, "{\"errcode\":0}"), None);
    assert!(provider_error(ChannelType::FeishuRobot, "{\"StatusCode\":1}").is_some());
    assert_eq!(provider_error(ChannelType::FeishuRobot, "{\"code\":0,\"StatusCode\":1}"), None);
    assert!(provider_error(ChannelType::Telegram, "{\"ok\":false}").is_some());
    assert_eq!(provider_error(ChannelType::Telegram, "{\"ok\":true}"), None);
    assert!(provider_error(ChannelType::DingtalkApp, "{\"code\":\"InvalidToken\"}").is_some());
    assert_eq!(provider_error(ChannelType::DingtalkApp, "{\"code\":\"\"}"), None);
    assert_eq!(provider_error(ChannelType::Webhook, "{\"code\":500}"), None);
    assert_eq!(provider_error(ChannelType::Email, "{\"errcode\":5}"), None);
}

#[test]
fn provider_fields_of_another_kind_count_as_acceptance() {
    assert_eq!(provider_error(ChannelType::Bark, "{\"code\":\"400\"}"), None);
    assert_eq!(provider_error(ChannelType::Telegram, "{\"ok\":\"no\"}"), None);
    assert_eq!(provider_error(ChannelType::DingtalkApp, "{\"code\":5}"), None);
    assert_eq!(provider_error(ChannelType::Bark, "[{\"code\":400}]"), None);
    assert_eq!(provider_error(ChannelType::Bark, "{\"code\":1.5}"), None);
}

#[test]
fn non_json_answers_are_accepted() {
    for channel in ChannelType::ALL {
        assert_eq!(provider_error(channel, "<html>busy</html>"), None);
    }
}

#[test]
fn provider_refusal_is_summarized() {
    let body = format!("{{\"code\": 500,   \"msg\": \"{}\"}}", "x".repeat(300));
    let m = provider_error(ChannelType::Bark, &body).unwrap();
    assert!(m.starts_with("{\"code\": 500, \"msg\""));
    assert_eq!(m.chars().count(), 243);
    assert!(m.ends_with("..."));
}
