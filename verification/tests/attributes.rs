use egrul_parser::date::Date;
use egrul_parser::parser::attributes::{is_yes, parse_decimal};
use egrul_parser::parser::numbers::is_float_literal;
use egrul_parser::parser::{normalize_string, parse_date, tag_matches, tag_name};
use egrul_parser::xml::{read_events, XmlEvent};

#[test]
fn test_parse_date_iso() {
    assert_eq!(parse_date("2023-05-15"), Some(Date { year: 2023, month: 5, day: 15 }));
}

#[test]
fn test_parse_date_russian() {
    assert_eq!(parse_date("15.05.2023"), Some(Date { year: 2023, month: 5, day: 15 }));
}

#[test]
fn test_parse_date_compact() {
    assert_eq!(parse_date("20230515"), Some(Date { year: 2023, month: 5, day: 15 }));
}

#[test]
fn test_normalize_string() {
    assert_eq!(normalize_string("  hello   world  "), "hello world");
}

#[test]
fn parse_date_reads_every_format() {
    let expected = Some(Date { year: 2021, month: 12, day: 3 });
    assert_eq!(parse_date("2021-12-03"), expected);
    assert_eq!(parse_date("03.12.2021"), expected);
    assert_eq!(parse_date("2021.12.03"), expected);
    assert_eq!(parse_date("03/12/2021"), expected);
    assert_eq!(parse_date("20211203"), expected);
    assert_eq!(parse_date("  2021-12-03 "), expected);
}

#[test]
fn parse_date_refuses_what_is_no_date() {
    assert_eq!(parse_date(""), None);
    assert_eq!(parse_date("   "), None);
    assert_eq!(parse_date("2021-02-30"), None);
    assert_eq!(parse_date("yesterday"), None);
    assert_eq!(parse_date("2021123"), None);
}

#[test]
fn normalize_string_collapses_every_kind_of_whitespace() {
    assert_eq!(normalize_string(""), "");
    assert_eq!(normalize_string(" \t\n "), "");
    assert_eq!(normalize_string("a"), "a");
    assert_eq!(normalize_string("ООО\u{a0}\u{a0}ТЕСТ"), "ООО ТЕСТ");
    assert_eq!(normalize_string("\tа\r\nб  в\u{2003}г "), "а б в г");
}

#[test]
fn tag_name_strips_the_prefix_up_to_the_first_colon() {
    assert_eq!(tag_name(b"ns:tag"), b"tag");
    assert_eq!(tag_name(b"tag"), b"tag");
    assert_eq!(tag_name(b"a:b:c"), b"b:c");
    assert_eq!(tag_name(b":tag"), b"tag");
    assert_eq!(tag_name(b"tag:"), b"");
    assert_eq!(tag_name(b""), b"");
}

#[test]
fn tag_matches_compares_local_names_byte_for_byte() {
    assert!(tag_matches("fns:СвЮЛ".as_bytes(), "СвЮЛ".as_bytes()));
    assert!(tag_matches("СвЮЛ".as_bytes(), "СвЮЛ".as_bytes()));
    assert!(!tag_matches("СвЮл".as_bytes(), "СвЮЛ".as_bytes()));
    assert!(!tag_matches("СвЮЛ".as_bytes(), "fns:СвЮЛ".as_bytes()));
}

fn first_element(xml: &str) -> egrul_parser::xml::XmlElement {
    for event in read_events(xml) {
        match event {
            XmlEvent::Start(e) | XmlEvent::Empty(e) => return e,
            _ => {}
        }
    }
    panic!("no element in {}", xml);
}

#[test]
fn get_attr_trims_and_drops_blank_values() {
    let e = first_element(r#"<t a="  x y  " b="   " c="" a2="1" a="second"/>"#);
    assert_eq!(e.get_attr("a"), Some("x y".to_string()));
    assert_eq!(e.get_attr("b"), None);
    assert_eq!(e.get_attr("c"), None);
    assert_eq!(e.get_attr("missing"), None);
    assert_eq!(e.get_attr2("b", "a2"), Some("1".to_string()));
    assert_eq!(e.get_attr3("b", "c", "a"), Some("x y".to_string()));
    assert_eq!(e.get_attr4("b", "c", "zzz", "a2"), Some("1".to_string()));
}

#[test]
fn require_attr_names_the_missing_field() {
    let e = first_element(r#"<t a="1"/>"#);
    assert_eq!(e.require_attr("a").unwrap(), "1");
    match e.require_attr("ОГРН") {
        Err(egrul_parser::Error::MissingField(field)) => assert_eq!(field, "ОГРН"),
        other => panic!("unexpected {:?}", other),
    }
}

#[test]
fn typed_attributes() {
    let e = first_element(
        r#"<t d="01.02.2003" bad="nope" n="-42" big="99999999999999999999" plus="+7" amount="10000,50" spaced="10 000,50" yes="ДА" no="0" t="True"/>"#,
    );
    assert_eq!(e.get_date_attr("d"), Some(Date { year: 2003, month: 2, day: 1 }));
    assert_eq!(e.get_date_attr("bad"), None);
    assert_eq!(e.get_date_attr2("bad", "d"), Some(Date { year: 2003, month: 2, day: 1 }));
    assert_eq!(e.get_date_attr3("bad", "missing", "d"), Some(Date { year: 2003, month: 2, day: 1 }));
    assert_eq!(e.get_i64_attr("n"), Some(-42));
    assert_eq!(e.get_i64_attr("plus"), Some(7));
    assert_eq!(e.get_i64_attr("big"), None);
    assert_eq!(e.get_i64_attr("bad"), None);
    assert_eq!(e.get_decimal_attr("amount"), Some("10000.50".to_string()));
    assert_eq!(e.get_decimal_attr("spaced"), None);
    assert_eq!(e.get_decimal_attr("bad"), None);
    assert_eq!(e.get_decimal_attr("n"), Some("-42".to_string()));
    assert_eq!(e.get_bool_attr("yes"), Some(true));
    assert_eq!(e.get_bool_attr("t"), Some(true));
    assert_eq!(e.get_bool_attr("no"), Some(false));
    assert_eq!(e.get_bool_attr("missing"), None);
}

#[test]
fn is_yes_knows_four_words() {
    assert!(is_yes("1"));
    assert!(is_yes("true"));
    assert!(is_yes("да"));
    assert!(is_yes("yes"));
    assert!(!is_yes("Yes"));
    assert!(!is_yes(""));
}

#[test]
fn is_tag_ignores_the_prefix() {
    let e = first_element(r#"<fns:СвЮЛ ОГРН="1"/>"#);
    assert!(e.is_tag("СвЮЛ"));
    assert!(!e.is_tag("СвИП"));
}

#[test]
fn float_literals() {
    for good in [
        "0", "10", "3.14", "-3.14", "+3.14", "2.5E10", "2.5e10", "2.5e-10", "2.5E+10", "5.", ".5",
        "0.0000001", "inf", "-inf", "+infinity", "NaN", "nan", "INFINITY", "1e5", "007", ".5e1",
        "5.e1",
    ] {
        assert!(is_float_literal(good), "{}", good);
        assert!(good.parse::<f64>().is_ok(), "{}", good);
    }
    for bad in [
        "", "+", "-", ".", "e5", ".e5", "1e", "1e+", "1 ", " 1", "1,5", "1.5.5", "1e5.5", "0x10",
        "1_000", "in", "infinit", "nanx", "--1", "+-1", "1e--5", "١", "1f", "e", "+.", "-.e1",
    ] {
        assert!(!is_float_literal(bad), "{}", bad);
        assert!(bad.parse::<f64>().is_err(), "{}", bad);
    }
}

#[test]
fn decimals_take_a_comma_or_a_point() {
    assert_eq!(parse_decimal("10000,5"), Some("10000.5".to_string()));
    assert_eq!(parse_decimal("10000.5"), Some("10000.5".to_string()));
    assert_eq!(parse_decimal("1,2,3"), None);
    assert_eq!(parse_decimal("десять"), None);
    assert_eq!(parse_decimal(""), None);
}
