use verge_config::help::{
    elevator_from_probe, get_last_part_and_decode, get_uid, parse_str, parse_u64_str, uid_from_bytes,
    with_header,
};
use verge_config::text::{
    chars_of, decimal_string, is_white_space_char, replace_str, split_char, str_eq, string_from_chars, trim,
};

#[test]
fn parse_str_reads_the_named_number() {
    assert_eq!(parse_str("upload=12; total=30", "total"), Some(30));
    assert_eq!(parse_str("upload=12; total=30", "upload"), Some(12));
}

#[test]
fn parse_str_subscription_header() {
    let header = "upload=1234; download=5678; total=1073741824; expire=1700000000";
    assert_eq!(parse_str(header, "download"), Some(5678));
    assert_eq!(parse_str(header, "total"), Some(1073741824));
    assert_eq!(parse_str(header, "expire"), Some(1700000000));
}

#[test]
fn parse_str_missing_key_or_bad_value() {
    assert_eq!(parse_str("upload=12; total=30", "expire"), None);
    assert_eq!(parse_str("total=abc", "total"), None);
    assert_eq!(parse_str("total", "total"), None);
    assert_eq!(parse_str("", "total"), None);
}

#[test]
fn parse_str_takes_first_piece_that_parses() {
    assert_eq!(parse_str("total=x; total=7", "total"), Some(7));
    assert_eq!(parse_str("total=3; total=7", "total"), Some(3));
}

#[test]
fn parse_u64_like_from_str() {
    assert_eq!(parse_u64_str("0"), Some(0));
    assert_eq!(parse_u64_str("+42"), Some(42));
    assert_eq!(parse_u64_str("18446744073709551615"), Some(u64::MAX));
    assert_eq!(parse_u64_str("18446744073709551616"), None);
    assert_eq!(parse_u64_str(""), None);
    assert_eq!(parse_u64_str("+"), None);
    assert_eq!(parse_u64_str("-1"), None);
    assert_eq!(parse_u64_str(" 1"), None);
}

#[test]
fn last_part_is_decoded() {
    assert_eq!(
        get_last_part_and_decode("https://example.com/sub/my%20profile.yaml?token=abc"),
        Some("my profile.yaml".to_string())
    );
    assert_eq!(get_last_part_and_decode("https://example.com/dir/"), Some(String::new()));
    assert_eq!(get_last_part_and_decode("plain"), Some("plain".to_string()));
}

#[test]
fn uid_has_prefix_and_eleven_alphanumerics() {
    let uid = get_uid("R").unwrap();
    assert_eq!(uid.len(), 12);
    assert!(uid.starts_with('R'));
    assert!(uid[1..].chars().all(|c| c.is_ascii_alphanumeric()));
    let other = get_uid("R").unwrap();
    assert_ne!(uid, other);
}

#[test]
fn header_precedes_data() {
    assert_eq!(with_header("a: 1", Some("# head")), "# head\n\na: 1");
    assert_eq!(with_header("a: 1", None), "a: 1");
}

#[test]
fn elevator_choice() {
    assert_eq!(elevator_from_probe(Some(&[])), "");
    assert_eq!(elevator_from_probe(Some(b"/usr/bin/pkexec\n")), "sudo");
    assert_eq!(elevator_from_probe(None), "sudo");
}

#[test]
fn split_keeps_empty_pieces() {
    assert_eq!(split_char("a;;b;", ';'), vec!["a", "", "b", ""]);
    assert_eq!(split_char("", ';'), vec![""]);
}

#[test]
fn decimal_strings() {
    assert_eq!(decimal_string(0), "0");
    assert_eq!(decimal_string(7897), "7897");
    assert_eq!(decimal_string(u64::MAX), "18446744073709551615");
}

#[test]
fn replace_every_occurrence() {
    assert_eq!(replace_str("a%p%b%p%", "%p%", "1"), "a1b1");
    assert_eq!(replace_str("none here", "%p%", "1"), "none here");
    assert_eq!(replace_str("aaa", "aa", "b"), "ba");
}

#[test]
fn chars_round_trip() {
    let v = chars_of("héllo");
    assert_eq!(v.len(), 5);
    assert_eq!(string_from_chars(&v), "héllo");
    assert!(str_eq("x", "x"));
    assert!(!str_eq("x", "y"));
}

#[test]
fn trim_removes_outer_white_space() {
    assert_eq!(trim("  a b \t\n"), "a b");
    assert_eq!(trim("   "), "");
    assert_eq!(trim(""), "");
    assert_eq!(trim("\u{3000}x\u{a0}\u{2003}"), "x");
}

#[test]
fn trim_agrees_with_std() {
    let samples = [
        " \u{85}mid dle\u{2028}",
        "\u{1680}\u{200a}\u{202f}\u{205f}k\u{2029}",
        "\u{b}\u{c}\r v \u{200b}",
        "no-space",
        "\u{feff}bom\u{feff}",
    ];
    for s in samples {
        assert_eq!(trim(s), s.trim());
    }
    for code in 0u32..=0x10FFFF {
        if let Some(c) = char::from_u32(code) {
            assert_eq!(is_white_space_char(c), c.is_whitespace(), "code point {code:#x}");
        }
    }
}

#[test]
fn replace_with_empty_pattern_as_std() {
    assert_eq!(replace_str("abc", "", "x"), "xaxbxcx");
    assert_eq!(replace_str("", "", "x"), "x");
    for (s, p, w) in [("a-b-c", "-", "+"), ("héé", "", "|"), ("aaaa", "aa", "b"), ("", "x", "y")] {
        assert_eq!(replace_str(s, p, w), s.replace(p, w));
    }
}

#[test]
fn uid_from_given_bytes() {
    // Low six bits 0..=61 index the alphabet; 62 and 63 are skipped.
    let bytes: Vec<u8> = vec![0, 62, 10, 63, 36, 61, 65, 2, 3, 4, 5, 6, 7, 8, 9];
    assert_eq!(uid_from_bytes("R", &bytes), Some("R0aAZ1234567".to_string()));
    assert_eq!(uid_from_bytes("d", &bytes[..10]), None);
    assert_eq!(uid_from_bytes("", &[255u8; 30]), None);
}
