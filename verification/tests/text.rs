use fluidsiren::single::to_single;
use fluidsiren::text::{
    contains, parse_i32, same, strip_prefix, strip_trailing, to_ascii_lower, to_ascii_upper,
    to_decimal, trim,
};

#[test]
fn trimming_follows_unicode_white_space() {
    for code in 0..=0x10ffffu32 {
        if let Some(c) = char::from_u32(code) {
            let padded: String = [c, 'x', c].iter().collect();
            if c.is_whitespace() || code < 0x3100 {
                assert_eq!(trim(&padded), padded.trim(), "{code:x}");
            }
        }
    }
    assert_eq!(trim(" \t\n"), "");
    assert_eq!(trim("a b"), "a b");
    assert_eq!(trim(&trim("  a ")), "a");
}

#[test]
fn ascii_case_leaves_other_letters_alone() {
    assert_eq!(to_ascii_lower("A-Z \u{c9}[`{@"), "a-z \u{c9}[`{@");
    assert_eq!(to_ascii_upper("a-z \u{e9}[`{@"), "A-Z \u{e9}[`{@");
}

#[test]
fn prefixes_and_parts() {
    assert_eq!(strip_prefix("KEY_F1", "KEY_"), Some("F1".to_string()));
    assert_eq!(strip_prefix("KEY", "KEY_"), None);
    assert_eq!(strip_prefix("abc", ""), Some("abc".to_string()));
    assert_eq!(strip_prefix("abc", "ab"), Some("c".to_string()));
    assert_eq!(strip_prefix("abc", "ac"), None);
    for (s, part) in [("", ""), ("a", ""), ("", "a"), ("aab", "ab"), ("aac", "ab"), ("ab", "abc")] {
        assert_eq!(contains(s, part), s.contains(part), "{s} {part}");
    }
    assert_eq!(strip_trailing("http://h//", '/'), "http://h");
    assert_eq!(strip_trailing("///", '/'), "");
    assert_eq!(strip_trailing("h", '/'), "h");
    assert!(same("a\u{e9}", "a\u{e9}"));
    assert!(!same("a", "ab"));
    assert!(!same("b", "a"));
}

#[test]
fn decimal_numbers_read_back() {
    for n in [0u64, 7, 10, 42, 999, 1000, 2147483647] {
        assert_eq!(to_decimal(n), format!("{n}"));
        assert_eq!(parse_i32(&to_decimal(n)), Some(n as i32));
    }
    assert_eq!(to_decimal(u64::MAX), "18446744073709551615");
}

#[test]
fn integers_are_read_as_rust_reads_them() {
    for s in [
        "", "+", "-", "0", "+0", "-0", "12", "+12", "-12", "012", "2147483647", "2147483648",
        "-2147483648", "-2147483649", "1x", "x1", " 1", "1 ", "++1", "+-1", "99999999999999999999",
        "00000000000000000000001", "\u{0661}",
    ] {
        assert_eq!(parse_i32(s), s.parse::<i32>().ok(), "{s}");
    }
}

#[test]
fn counts_round_as_single_precision_does() {
    assert_eq!(to_single(0), 0);
    assert_eq!(to_single(16777215), 16777215);
    assert_eq!(to_single(16777217), 16777216);
    assert_eq!(to_single(16777219), 16777220);
    assert_eq!(to_single(u64::MAX as u128), 18446744073709551616);
    let mut n: u64 = 1;
    while n < u64::MAX / 3 {
        for near in [n - 1, n, n + 1, n + n / 3] {
            assert_eq!(to_single(near as u128), (near as f32) as u128);
        }
        n = n * 2 + 1;
    }
}

#[test]
fn limits_agree_with_single_precision() {
    let mut n: u64 = 1;
    while n < 1 << 60 {
        for count in [n, n + 1, n + n / 3, n + n / 2] {
            let limit = (to_single(to_single(count as u128) * 3) + 1) / 2 + 4;
            assert_eq!(limit, (count as f32 * 1.5).ceil() as u128 + 4);
            for fresh in [count / 10 * 3, count / 10 * 3 + 1, (count as f64 * 0.3) as u64, count] {
                let low = to_single(fresh as u128) * 67108864
                    <= 20132661 * to_single(count as u128);
                assert_eq!(low, fresh as f32 / count as f32 <= 0.3);
            }
        }
        n = n * 2 + n % 3;
    }
}
