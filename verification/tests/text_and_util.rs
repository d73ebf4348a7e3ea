use lorelei::discord::channel_mention;
use lorelei::modules::util::EmbedColor;
use lorelei::text::{contains, parse_u64, starts_with, starts_with_char, str_eq, u64_to_decimal};

#[test]
fn embed_colors_have_their_rgb_values() {
    assert_eq!(EmbedColor::Success.hex(), 0xb4f050);
    assert_eq!(EmbedColor::Failure.hex(), 0xff1a1a);
    assert_eq!(EmbedColor::Pending.hex(), 0x1aa3ff);
}

#[test]
fn str_eq_compares_characters() {
    assert!(str_eq("play", "play"));
    assert!(!str_eq("play", "pla"));
    assert!(!str_eq("play", "Play"));
    assert!(str_eq("", ""));
    assert!(str_eq("\u{1F50A}lorelei", "🔊lorelei"));
}

#[test]
fn starts_with_checks_prefixes() {
    assert!(starts_with("https://x", "http"));
    assert!(starts_with("http", "http"));
    assert!(!starts_with("htt", "http"));
    assert!(!starts_with("ftp://x", "http"));
    assert!(starts_with("anything", ""));
    assert!(starts_with_char("➕ New", '➕'));
    assert!(!starts_with_char("", '➕'));
    assert!(!starts_with_char("New ➕", '➕'));
}

#[test]
fn contains_finds_inner_text() {
    assert!(contains("https://youtube.com/playlist?list=abc", "/playlist?list="));
    assert!(!contains("https://youtube.com/watch?v=abc", "/playlist?list="));
    assert!(contains("abc", ""));
    assert!(!contains("ab", "abc"));
    assert!(contains("abc", "abc"));
    assert!(contains("xxabc", "abc"));
}

#[test]
fn channel_mention_is_decimal_in_brackets() {
    assert_eq!(channel_mention(0), "<#0>");
    assert_eq!(channel_mention(42), "<#42>");
    assert_eq!(channel_mention(u64::MAX), "<#18446744073709551615>");
}

#[test]
fn decimals_have_no_leading_zeros() {
    assert_eq!(u64_to_decimal(0), "0");
    assert_eq!(u64_to_decimal(7), "7");
    assert_eq!(u64_to_decimal(10), "10");
    assert_eq!(u64_to_decimal(907), "907");
    assert_eq!(u64_to_decimal(u64::MAX), "18446744073709551615");
}

#[test]
fn parse_u64_reads_plain_decimals() {
    assert_eq!(parse_u64("0"), Some(0));
    assert_eq!(parse_u64("0042"), Some(42));
    assert_eq!(parse_u64("+9"), Some(9));
    assert_eq!(parse_u64("18446744073709551615"), Some(u64::MAX));
    assert_eq!(parse_u64("18446744073709551616"), None);
    assert_eq!(parse_u64("99999999999999999999x"), None);
    assert_eq!(parse_u64("++1"), None);
    assert_eq!(parse_u64("1+"), None);
    assert_eq!(parse_u64("١"), None);
}
