use tello_link::text::{
    char_is_space, decimal, decode, find, is_ok, is_ok_ignoring_case, parse_i32, read_reply,
    to_chars, trim,
};

#[test]
fn trim_removes_white_space_at_both_ends() {
    assert_eq!(trim("  ok\r\n"), "ok");
    assert_eq!(trim("\t 12 34 \u{a0}"), "12 34");
    assert_eq!(trim(""), "");
    assert_eq!(trim(" \n "), "");
    assert_eq!(trim("ok"), "ok");
    assert_eq!(trim("\u{3000}a\u{2003}"), "a");
}

#[test]
fn ok_is_matched_letter_for_letter() {
    assert!(is_ok("ok"));
    assert!(!is_ok("OK"));
    assert!(!is_ok("Ok"));
    assert!(!is_ok("ok "));
    assert!(!is_ok(""));
    assert!(!is_ok("okay"));
}

#[test]
fn ok_is_matched_in_any_case() {
    assert!(is_ok_ignoring_case("ok"));
    assert!(is_ok_ignoring_case("OK"));
    assert!(is_ok_ignoring_case("oK"));
    assert!(is_ok_ignoring_case("Ok"));
    assert!(!is_ok_ignoring_case("o"));
    assert!(!is_ok_ignoring_case("okk"));
    assert!(!is_ok_ignoring_case("ox"));
}

#[test]
fn parse_reads_signed_decimals() {
    assert_eq!(parse_i32("0"), Some(0));
    assert_eq!(parse_i32("87"), Some(87));
    assert_eq!(parse_i32("-12"), Some(-12));
    assert_eq!(parse_i32("+7"), Some(7));
    assert_eq!(parse_i32("007"), Some(7));
    assert_eq!(parse_i32("-0"), Some(0));
    assert_eq!(parse_i32("2147483647"), Some(i32::MAX));
    assert_eq!(parse_i32("-2147483648"), Some(i32::MIN));
    assert_eq!(parse_i32("00000000000000000000000000000000042"), Some(42));
}

#[test]
fn parse_rejects_what_is_no_i32() {
    assert_eq!(parse_i32(""), None);
    assert_eq!(parse_i32("-"), None);
    assert_eq!(parse_i32("+"), None);
    assert_eq!(parse_i32("12a"), None);
    assert_eq!(parse_i32(" 12"), None);
    assert_eq!(parse_i32("1 2"), None);
    assert_eq!(parse_i32("--1"), None);
    assert_eq!(parse_i32("2147483648"), None);
    assert_eq!(parse_i32("-2147483649"), None);
    assert_eq!(parse_i32("99999999999999999999999999"), None);
    assert_eq!(parse_i32("ok"), None);
    assert_eq!(parse_i32("\u{663}"), None);
}

#[test]
fn parse_agrees_with_std() {
    let samples = [
        "", "0", "-0", "+0", "1", "-1", "10", "0010", "2147483647", "2147483648", "-2147483648",
        "-2147483649", "4294967296", "x", "1x", "+-1", "-+1", "١٢", "1_000", "0x10", "1.5",
    ];
    for s in samples {
        assert_eq!(parse_i32(s), s.parse::<i32>().ok(), "{s:?}");
    }
}

#[test]
fn trim_agrees_with_std() {
    let samples = [
        "", " ", "a", " a", "a ", " a b ", "\u{85}x\u{85}", "\u{1680}y\u{2028}\u{2029}",
        "\u{200b}z\u{200b}", "\u{202f}\u{205f}w\u{feff}", "\u{b}\u{c}v\u{1c}",
    ];
    for s in samples {
        assert_eq!(trim(s), s.trim(), "{s:?}");
    }
}

#[test]
fn decimal_writes_base_ten() {
    assert_eq!(decimal(0), "0");
    assert_eq!(decimal(7), "7");
    assert_eq!(decimal(50), "50");
    assert_eq!(decimal(-100), "-100");
    assert_eq!(decimal(i32::MAX), "2147483647");
    assert_eq!(decimal(i32::MIN), "-2147483648");
}

#[test]
fn decimal_is_read_back_by_parse() {
    for n in [0, 1, -1, 9, 10, 99, 100, -100, 12345, i32::MAX, i32::MIN] {
        assert_eq!(parse_i32(&decimal(n)), Some(n));
        assert_eq!(decimal(n), n.to_string());
    }
}

#[test]
fn find_searches_for_a_substring() {
    assert!(find("IPv4 Address. . . : 192.168.10.2", "192.168.10."));
    assert!(!find("IPv4 Address. . . : 192.168.1.10", "192.168.10."));
    assert!(find("192.168.10.", "192.168.10."));
    assert!(!find("192.168.10", "192.168.10."));
    assert!(find("abc", ""));
    assert!(find("", ""));
    assert!(!find("", "a"));
    assert!(find("aab", "ab"));
}

#[test]
fn read_reply_decodes_and_trims() {
    assert_eq!(read_reply(b"ok\r\n"), "ok");
    assert_eq!(read_reply(b"  error Not joystick "), "error Not joystick");
    assert_eq!(read_reply(b""), "");
    assert_eq!(read_reply(&[0x6f, 0x6b, 0xff]), "ok\u{fffd}");
    assert_eq!(read_reply(&[0xc2, 0xa0, b'8', b'7', 0xc2, 0xa0]), "87");
}

#[test]
fn white_space_is_what_std_calls_white_space() {
    for code in 0..=0x10ffffu32 {
        if let Some(c) = char::from_u32(code) {
            assert_eq!(char_is_space(c), c.is_whitespace(), "U+{code:04X}");
        }
    }
}

#[test]
fn to_chars_lists_the_characters() {
    assert_eq!(to_chars(""), Vec::<char>::new());
    assert_eq!(to_chars("a\u{e9}\u{1f681}"), vec!['a', '\u{e9}', '\u{1f681}']);
}

#[test]
fn decode_keeps_well_formed_text_and_replaces_the_rest() {
    assert_eq!(decode(b"battery?"), "battery?");
    assert_eq!(decode("h\u{e9}\u{1f681}".as_bytes()), "h\u{e9}\u{1f681}");
    assert_eq!(decode(&[b'a', 0x80, b'b']), "a\u{fffd}b");
    assert_eq!(decode(&[0xe2, 0x82]), "\u{fffd}");
    assert_eq!(decode(b""), "");
}
