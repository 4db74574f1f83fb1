use osx::format::{bytes_to_human, format_bytes, u64_to_string};
use osx::textutil::{str_contains, str_contains_ci, str_ends_with, str_eq, trim_str};

#[test]
fn bytes_below_one_kilobyte_are_plain() {
    assert_eq!(bytes_to_human(0), "0 bytes");
    assert_eq!(bytes_to_human(1), "1 bytes");
    assert_eq!(bytes_to_human(512), "512 bytes");
    assert_eq!(bytes_to_human(1023), "1023 bytes");
}

#[test]
fn bytes_scale_to_kilobytes() {
    assert_eq!(bytes_to_human(1024), "1.00 KB");
    assert_eq!(bytes_to_human(1536), "1.50 KB");
    assert_eq!(bytes_to_human(2048), "2.00 KB");
}

#[test]
fn bytes_scale_to_megabytes_and_gigabytes() {
    assert_eq!(bytes_to_human(1024 * 1024), "1.00 MB");
    assert_eq!(bytes_to_human(2 * 1024 * 1024), "2.00 MB");
    assert_eq!(bytes_to_human(1024 * 1024 * 1024), "1.00 GB");
    assert_eq!(bytes_to_human(5 * 1024 * 1024 * 1024 + 512 * 1024 * 1024), "5.50 GB");
}

#[test]
fn bytes_round_half_up_to_two_decimals() {
    // 1588 bytes = 1.5507... KB, truncated by rounding to 1.55
    assert_eq!(bytes_to_human(1588), "1.55 KB");
    // 1029 bytes = 1.00488... KB
    assert_eq!(bytes_to_human(1029), "1.00 KB");
    // 1034 bytes = 1.00976... KB, rounds to 1.01
    assert_eq!(bytes_to_human(1034), "1.01 KB");
}

#[test]
fn format_bytes_matches_bytes_to_human() {
    for n in [0u64, 999, 1024, 123_456_789, 9_876_543_210] {
        assert_eq!(format_bytes(n), bytes_to_human(n));
    }
}

#[test]
fn u64_renders_decimal_digits() {
    assert_eq!(u64_to_string(0), "0");
    assert_eq!(u64_to_string(7), "7");
    assert_eq!(u64_to_string(10), "10");
    assert_eq!(u64_to_string(90210), "90210");
    assert_eq!(u64_to_string(u64::MAX), "18446744073709551615");
}

#[test]
fn contains_finds_substrings() {
    assert!(str_contains("/Users/me/Library/Caches", "Library"));
    assert!(str_contains("abc", ""));
    assert!(!str_contains("abc", "abcd"));
    assert!(!str_contains("Library", "library"));
}

#[test]
fn contains_ci_ignores_ascii_case() {
    assert!(str_contains_ci("com.Example.Agent.plist", "example"));
    assert!(str_contains_ci("GOOGLE", "goo"));
    assert!(!str_contains_ci("chrome", "firefox"));
}

#[test]
fn ends_with_checks_suffix() {
    assert!(str_ends_with("agent.plist", ".plist"));
    assert!(!str_ends_with("agent.plist.bak", ".plist"));
    assert!(!str_ends_with("ist", ".plist"));
}

#[test]
fn trim_removes_surrounding_whitespace() {
    assert_eq!(trim_str("  /tmp/a \t"), "/tmp/a");
    assert_eq!(trim_str("no-change"), "no-change");
    assert_eq!(trim_str(" \n "), "");
}

#[test]
fn str_eq_compares_contents() {
    assert!(str_eq("same", "same"));
    assert!(!str_eq("same", "Same"));
    assert!(!str_eq("same", "same "));
}
