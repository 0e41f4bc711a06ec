use nixos_installer::text::{
    chars_of, comes_before, contains, decimal_string, is_ascii_digit, is_whitespace, join, lines,
    parse_u64, parse_u8, path_join, replace_char, same_text, starts_with, string_of, trim,
};

#[test]
fn whitespace_agrees_with_the_standard_library() {
    let mut code: u32 = 0;
    while code <= 0x10ffff {
        if let Some(c) = char::from_u32(code) {
            assert_eq!(is_whitespace(c), c.is_whitespace(), "U+{:04X}", code);
            assert_eq!(is_ascii_digit(c), c.is_ascii_digit(), "U+{:04X}", code);
        }
        code += 1;
    }
}

#[test]
fn trim_removes_surrounding_white_space() {
    assert_eq!(trim("  alice \t\n"), "alice");
    assert_eq!(trim("\u{3000}a b\u{a0}"), "a b");
    assert_eq!(trim(" \r\n "), "");
    assert_eq!(trim(""), "");
    for s in ["x", " x", "x ", "  x  y  ", "\n\n", "\u{85}é\u{2028}"] {
        assert_eq!(trim(s), s.trim(), "{:?}", s);
    }
}

#[test]
fn characters_round_trip_through_strings() {
    let v = chars_of("héllo\u{1f600}");
    assert_eq!(v, vec!['h', 'é', 'l', 'l', 'o', '\u{1f600}']);
    assert_eq!(string_of(&v), "héllo\u{1f600}");
    assert!(same_text("abc", "abc"));
    assert!(!same_text("abc", "abd"));
    assert!(!same_text("abc", "ab"));
}

#[test]
fn parse_u64_reads_what_the_standard_library_reads() {
    for s in [
        "0", "4", "007", "+5", "18446744073709551615", "18446744073709551616",
        "99999999999999999999999", "", "+", "-1", "-0", "1.5", " 4", "4 ", "١", "++1", "1+",
        "0x10", "1_000",
    ] {
        assert_eq!(parse_u64(s), s.parse::<u64>().ok(), "{:?}", s);
    }
    assert_eq!(parse_u64("4"), Some(4));
    assert_eq!(parse_u64("18446744073709551615"), Some(u64::MAX));
    assert_eq!(parse_u64("18446744073709551616"), None);
}

#[test]
fn parse_u8_reads_what_the_standard_library_reads() {
    for s in ["0", "42", "100", "255", "256", "0255", "+7", "", "1000", "a"] {
        assert_eq!(parse_u8(s), s.parse::<u8>().ok(), "{:?}", s);
    }
}

#[test]
fn decimal_string_writes_base_ten() {
    assert_eq!(decimal_string(0), "0");
    assert_eq!(decimal_string(7), "7");
    assert_eq!(decimal_string(10), "10");
    assert_eq!(decimal_string(513), "513");
    assert_eq!(decimal_string(u64::MAX), "18446744073709551615");
    for n in [1u64, 9, 99, 100, 1024, 4096, 999_999, 1 << 40] {
        assert_eq!(decimal_string(n), n.to_string());
        assert_eq!(parse_u64(&decimal_string(n)), Some(n));
    }
}

#[test]
fn lines_agree_with_the_standard_library() {
    for s in [
        "", "a", "a\n", "a\nb", "a\r\nb\r\n", "a\rb\n", "\n", "\n\n", "a\n\nb", "tail\r",
        "x\r\n\r\ny", "\r\n", "one\ntwo\nthree",
    ] {
        let expected: Vec<String> = s.lines().map(|l| l.to_string()).collect();
        assert_eq!(lines(s), expected, "{:?}", s);
    }
    assert_eq!(lines("a\r\nb\n"), vec!["a".to_string(), "b".to_string()]);
}

#[test]
fn join_puts_the_separator_between_parts() {
    let none: Vec<String> = Vec::new();
    assert_eq!(join(&none, ", "), "");
    assert_eq!(join(&vec!["a".to_string()], ", "), "a");
    assert_eq!(join(&vec!["a".to_string(), "b".to_string(), "".to_string()], ", "), "a, b, ");
}

#[test]
fn prefixes_and_infixes_are_found() {
    let v = chars_of("/dev/nvme0n1");
    assert!(starts_with(&v, &chars_of("/dev")));
    assert!(starts_with(&v, &chars_of("")));
    assert!(!starts_with(&v, &chars_of("dev")));
    assert!(!starts_with(&chars_of("ab"), &chars_of("abc")));
    assert!(contains(&v, &chars_of("nvme")));
    assert!(contains(&v, &chars_of("n1")));
    assert!(contains(&v, &chars_of("")));
    assert!(!contains(&v, &chars_of("mmcblk")));
    assert!(!contains(&chars_of("ab"), &chars_of("abc")));
    assert!(contains(&chars_of(""), &chars_of("")));
}

#[test]
fn replace_char_replaces_every_occurrence() {
    assert_eq!(replace_char("tokyo_night_", '_', '-'), "tokyo-night-");
    assert_eq!(replace_char("", '_', '-'), "");
    assert_eq!(replace_char("abc", '_', '-'), "abc");
}

#[test]
fn path_join_agrees_with_the_standard_library() {
    for (base, part) in [
        ("/tmp/repo", "modules"), ("/tmp/repo/", "modules"), ("", "modules"), ("/", "hosts"),
        ("repo", "a/b"), ("/tmp/repo", "/abs"), ("/tmp/repo", ""), ("rel/", "x.nix"),
    ] {
        let expected = std::path::Path::new(base).join(part);
        assert_eq!(path_join(base, part), expected.to_string_lossy(), "{:?} {:?}", base, part);
    }
    assert_eq!(path_join("/tmp/repo", "modules"), "/tmp/repo/modules");
}

#[test]
fn comes_before_is_the_order_of_strings() {
    let samples = ["", "a", "ab", "abc", "b", "B", "home", "home-", "packages-x", "é", "z", "zz"];
    for a in samples {
        for b in samples {
            assert_eq!(comes_before(a, b), a < b, "{:?} {:?}", a, b);
        }
    }
}
