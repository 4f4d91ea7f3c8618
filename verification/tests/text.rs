use egrul_parser::text::{
    bytes_eq, char_is_space, concat2, concat3, is_blank, owned, str_eq, str_parse_i64,
    str_parse_usize, trim,
};

#[test]
fn trimming_agrees_with_the_standard_library() {
    let samples = [
        "",
        " ",
        "a",
        " a",
        "a ",
        "  a  b  ",
        "\t\r\n a \u{a0}\u{2003}",
        "\u{85}\u{1680}\u{2028}\u{2029}\u{202f}\u{205f}\u{3000}x\u{3000}",
        "\u{200b}zero width is no space\u{200b}",
        "  кириллица и  пробелы ",
        "\u{feff} bom",
    ];
    for s in samples {
        assert_eq!(trim(s), s.trim(), "{:?}", s);
        assert_eq!(is_blank(s), s.trim().is_empty(), "{:?}", s);
    }
}

#[test]
fn whitespace_is_what_the_standard_library_says() {
    for code in 0u32..0x3100 {
        if let Some(c) = char::from_u32(code) {
            assert_eq!(char_is_space(c), c.is_whitespace(), "{:x}", code);
        }
    }
    assert!(!char_is_space('\u{1F600}'));
}

#[test]
fn integers_are_read_as_the_standard_library_reads_them() {
    let samples = [
        "0", "7", "-7", "+7", "007", "-0", "+0", "", "+", "-", "--1", "+-1", "1 ", " 1", "1_0",
        "9223372036854775807", "9223372036854775808", "-9223372036854775808",
        "-9223372036854775809", "18446744073709551615", "18446744073709551616",
        "99999999999999999999999999999999999999999", "١٢", "1.0", "1e3", "0x1",
    ];
    for s in samples {
        assert_eq!(str_parse_i64(s), s.parse::<i64>().ok(), "{:?}", s);
        assert_eq!(str_parse_usize(s), s.parse::<usize>().ok(), "{:?}", s);
    }
}

#[test]
fn comparing_and_joining_texts() {
    assert!(str_eq("да", "да"));
    assert!(!str_eq("да", "Да"));
    assert!(!str_eq("да", "д"));
    assert!(str_eq("", ""));
    assert!(bytes_eq(b"abc", b"abc"));
    assert!(!bytes_eq(b"abc", b"abd"));
    assert!(!bytes_eq(b"abc", b"ab"));
    assert_eq!(owned("текст"), "текст");
    assert_eq!(concat2("а", "б"), "аб");
    assert_eq!(concat3("а", "", "в"), "ав");
}
