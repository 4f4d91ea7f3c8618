use egrul_parser::parser::xml_reader::{contains_ignoring_case, rewrite_declaration, should_map};
use egrul_parser::{EgrulXmlParser, Error, XmlEncoding, XmlReader};

#[test]
fn test_encoding_detection_utf8() {
    let data = b"<?xml version=\"1.0\" encoding=\"UTF-8\"?><root></root>";
    let encoding = XmlReader::detect_encoding(data);
    assert_eq!(encoding, XmlEncoding::Utf8);
}

#[test]
fn test_encoding_detection_windows1251() {
    let data = b"<?xml version=\"1.0\" encoding=\"windows-1251\"?><root></root>";
    let encoding = XmlReader::detect_encoding(data);
    assert_eq!(encoding, XmlEncoding::Windows1251);
}

#[test]
fn test_encoding_detection_bom() {
    let data = b"\xEF\xBB\xBF<?xml version=\"1.0\"?><root></root>";
    let encoding = XmlReader::detect_encoding(data);
    assert_eq!(encoding, XmlEncoding::Utf8);
}

#[test]
fn test_windows1251_encoding_handling() {
    let xml_with_cyrillic = r#"<?xml version="1.0" encoding="windows-1251"?>
<Файл>
<Документ>
<СвЮЛ ОГРН="1234567890123" ИНН="7707083893">
    <СвНаимЮЛ НаимЮЛПолн="Тест кириллицы: АБВГДЕЁЖЗИЙКЛМНОПРСТУФХЦЧШЩЪЫЬЭЮЯ"/>
</СвЮЛ>
</Документ>
</Файл>"#;

    let encoded = encoding_rs::WINDOWS_1251.encode(xml_with_cyrillic).0.into_owned();
    let (decoded, _, _) = encoding_rs::WINDOWS_1251.decode(&encoded);

    let parser = EgrulXmlParser::new();
    let result = parser.parse(&decoded);

    assert!(result.is_ok());
    let records = result.unwrap();
    assert_eq!(records.len(), 1);

    let full_name = &records[0].full_name;
    assert!(full_name.contains("кириллицы"), "Should correctly decode cyrillic: {}", full_name);
    assert!(
        full_name.contains("АБВГДЕЁЖЗИЙКЛМНОПРСТУФХЦЧШЩЪЫЬЭЮЯ"),
        "Should contain full cyrillic alphabet"
    );
}

#[test]
fn encoding_autodetect() {
    let text = "<?xml version=\"1.0\" encoding=\"windows-1251\"?><ФАЙЛ><СвЮЛ ОГРН=\"1\" ИНН=\"2\"><СвНаим НаимПолн=\"Ромашка\"/></СвЮЛ></ФАЙЛ>";
    let bytes = encoding_rs::WINDOWS_1251.encode(text).0.into_owned();
    let reader = XmlReader::from_bytes(bytes.clone());
    assert_eq!(reader.encoding(), XmlEncoding::Windows1251);
    assert_eq!(reader.raw_data(), &bytes[..]);
    let decoded = reader.read_to_string().unwrap();
    assert!(decoded.starts_with("<?xml version=\"1.0\" encoding=\"UTF-8\"?>"));
    assert!(decoded.contains("Ромашка"));
    assert!(!decoded.contains("windows-1251"));
}

#[test]
fn decoding_then_encoding_gives_the_bytes_back() {
    let mut bytes: Vec<u8> = b"<?xml version=\"1.0\" encoding=\"cp-1251\"?><t a=\"".to_vec();
    for b in 0xC0u16..=0xFF {
        bytes.push(b as u8);
    }
    bytes.extend_from_slice(b"\"/>");
    let reader = XmlReader::from_bytes(bytes.clone());
    assert_eq!(reader.encoding(), XmlEncoding::Windows1251);
    let decoded = reader.read_to_string().unwrap();
    let encoded = encoding_rs::WINDOWS_1251.encode(&decoded).0.into_owned();
    assert_eq!(encoded, bytes);
}

#[test]
fn the_declaration_is_rewritten_in_every_spelling() {
    assert_eq!(rewrite_declaration("a windows-1251 b"), "a UTF-8 b");
    assert_eq!(rewrite_declaration("WINDOWS-1251"), "UTF-8");
    assert_eq!(rewrite_declaration("Windows-1251 windows-1251"), "UTF-8 UTF-8");
    assert_eq!(rewrite_declaration("wINDOWS-1251"), "wINDOWS-1251");
}

#[test]
fn the_heuristic_counts_high_bytes_against_lead_bytes() {
    // no declaration: three high bytes, no pair that starts with 0xD0 or 0xD1
    assert_eq!(XmlReader::detect_encoding(&[0xC0, 0xE0, 0xFF]), XmlEncoding::Windows1251);
    // "Привет" in UTF-8: six lead bytes, six high bytes
    assert_eq!(XmlReader::detect_encoding("Привет".as_bytes()), XmlEncoding::Utf8);
    // plain ASCII shows nothing
    assert_eq!(XmlReader::detect_encoding(b"plain"), XmlEncoding::Unknown);
    assert_eq!(XmlReader::detect_encoding(b""), XmlEncoding::Unknown);
    // a lead byte at the very end is part of no pair
    assert_eq!(XmlReader::detect_encoding(&[0x41, 0xD0]), XmlEncoding::Windows1251);
    // one pair, two high bytes: not more than twice
    assert_eq!(XmlReader::detect_encoding(&[0xD0, 0xC0]), XmlEncoding::Utf8);
}

#[test]
fn the_declaration_is_searched_only_up_to_200_bytes() {
    let mut data = vec![b' '; 195];
    data.extend_from_slice(b"windows-1251>");
    assert_eq!(XmlReader::detect_encoding(&data), XmlEncoding::Unknown);
    let mut data = vec![b' '; 188];
    data.extend_from_slice(b"WINDOWS-1251>");
    assert_eq!(XmlReader::detect_encoding(&data), XmlEncoding::Windows1251);
    // without a closing bracket there is no declaration
    assert_eq!(XmlReader::detect_encoding(b"encoding=utf-8"), XmlEncoding::Unknown);
}

#[test]
fn contains_ignoring_case_finds_lowercase_needles() {
    assert!(contains_ignoring_case(b"xx UTF-8 xx", b"utf-8"));
    assert!(contains_ignoring_case(b"utf-8", b"utf-8"));
    assert!(!contains_ignoring_case(b"utf-", b"utf-8"));
    assert!(contains_ignoring_case(b"abc", b""));
    assert!(!contains_ignoring_case(b"", b"a"));
}

#[test]
fn invalid_utf8_is_an_encoding_error() {
    let reader = XmlReader::from_bytes(b"\xEF\xBB\xBF<a>\xFF</a>".to_vec());
    assert_eq!(reader.encoding(), XmlEncoding::Utf8);
    match reader.read_to_string() {
        Err(Error::Encoding(_)) => {}
        other => panic!("unexpected {:?}", other),
    }
    let reader = XmlReader::from_bytes("<?xml encoding=\"utf-8\"?><a>я</a>".as_bytes().to_vec());
    assert_eq!(reader.read_to_string().unwrap(), "<?xml encoding=\"utf-8\"?><a>я</a>");
}

#[test]
fn large_files_are_mapped() {
    assert!(!should_map(0));
    assert!(!should_map(10 * 1024 * 1024));
    assert!(should_map(10 * 1024 * 1024 + 1));
    assert!(should_map(u64::MAX));
}

#[test]
fn input_that_had_to_be_patched_up_is_flagged() {
    // every byte of windows-1251 stands for a character
    let all: Vec<u8> = (0x80u16..=0xFF).map(|b| b as u8).collect();
    let reader = XmlReader::from_bytes(all);
    assert_eq!(reader.encoding(), XmlEncoding::Windows1251);
    let (text, patched) = reader.decode().unwrap();
    assert!(!patched);
    assert_eq!(text.chars().count(), 128);
    // a byte order mark of UTF-16 makes the decoder read UTF-16; a byte that is left over is replaced
    let reader = XmlReader::from_bytes(vec![0xFF, 0xFE, 0x3C, 0x00, 0x61]);
    assert_eq!(reader.encoding(), XmlEncoding::Windows1251);
    let (text, patched) = reader.decode().unwrap();
    assert!(patched);
    assert_eq!(text, "<\u{fffd}");
    let reader = XmlReader::from_bytes("<?xml encoding='utf-8'?><a>я</a>".as_bytes().to_vec());
    assert!(!reader.decode().unwrap().1);
}
