use egrul_parser::models::egrip::Gender;
use egrul_parser::models::{
    Activity, Address, Capital, CitizenshipType, EgripRecord, EgrulRecord, EntityStatus, Person,
    RegistryType, Share,
};
use egrul_parser::output::OutputFormat;
use egrul_parser::{info, Error, VERSION};

fn person(last: &str, first: &str, middle: Option<&str>) -> Person {
    Person {
        last_name: last.to_string(),
        first_name: first.to_string(),
        middle_name: middle.map(|m| m.to_string()),
        inn: None,
    }
}

#[test]
fn person_names() {
    let p = person("Иванов", "Иван", Some("Иванович"));
    assert_eq!(p.full_name(), "Иванов Иван Иванович");
    assert_eq!(p.short_name(), "Иванов И.И.");
    let p = person("Иванов", "Иван", None);
    assert_eq!(p.full_name(), "Иванов Иван");
    assert_eq!(p.short_name(), "Иванов И.");
    let p = person("Иванов", "", Some(""));
    assert_eq!(p.full_name(), "Иванов ");
    assert_eq!(p.short_name(), "Иванов  .");
    assert!(!p.is_empty());
    assert!(Person::new().is_empty());
    assert!(Person::default().is_empty());
}

#[test]
fn address_composition() {
    let mut a = Address::new();
    assert!(a.is_empty());
    assert_eq!(a.build_full_address(), "");
    a.complete();
    assert_eq!(a.full_address, None);
    a.district = Some("".to_string());
    a.complete();
    assert_eq!(a.full_address, None);
    a.house = Some("1".to_string());
    assert!(a.is_empty());
    assert_eq!(a.build_full_address(), "д. 1");
    assert_eq!(a.compose(), ("д. 1".to_string(), 1));
    a.postal_code = Some("101000".to_string());
    a.region = Some("МОСКВА".to_string());
    a.district = Some("".to_string());
    a.city = Some("Москва".to_string());
    a.locality = Some("Зеленоград".to_string());
    a.street = Some("Ленина".to_string());
    a.building = Some("2".to_string());
    a.flat = Some("3".to_string());
    assert_eq!(
        a.build_full_address(),
        "101000, МОСКВА, г. Москва, Зеленоград, ул. Ленина, д. 1, корп. 2, кв. 3"
    );
    a.locality = Some("Москва".to_string());
    assert_eq!(a.build_full_address(), "101000, МОСКВА, г. Москва, ул. Ленина, д. 1, корп. 2, кв. 3");
    a.complete();
    assert_eq!(
        a.full_address.as_deref(),
        Some("101000, МОСКВА, г. Москва, ул. Ленина, д. 1, корп. 2, кв. 3")
    );
    a.city = Some("Тверь".to_string());
    a.complete();
    assert_eq!(
        a.full_address.as_deref(),
        Some("101000, МОСКВА, г. Москва, ул. Ленина, д. 1, корп. 2, кв. 3")
    );
}

#[test]
fn status_from_text_code_and_back() {
    assert_eq!(EntityStatus::from_str("Действующее"), EntityStatus::Active);
    assert_eq!(EntityStatus::from_str("АКТИВНО"), EntityStatus::Active);
    assert_eq!(EntityStatus::from_str("ликвидировано"), EntityStatus::Liquidated);
    assert_eq!(EntityStatus::from_str("в процессе: ликвидируется"), EntityStatus::Liquidating);
    assert_eq!(EntityStatus::from_str("Реорганизовано"), EntityStatus::Reorganized);
    assert_eq!(EntityStatus::from_str("Процесс реорганизации"), EntityStatus::Reorganizing);
    assert_eq!(EntityStatus::from_str("исключено"), EntityStatus::Excluded);
    assert_eq!(EntityStatus::from_str("Банкрот"), EntityStatus::Bankrupt);
    assert_eq!(EntityStatus::from_str("несостоятельность"), EntityStatus::Bankrupt);
    assert_eq!(EntityStatus::from_str("прекращено"), EntityStatus::Ceased);
    assert_eq!(EntityStatus::from_str("?"), EntityStatus::Unknown);
    assert_eq!(EntityStatus::from_lowercase("АКТИВНО"), EntityStatus::Unknown);
    assert_eq!(EntityStatus::from_code(" 1 "), EntityStatus::Active);
    assert_eq!(EntityStatus::from_code("актив"), EntityStatus::Active);
    assert_eq!(EntityStatus::from_code("ликвид"), EntityStatus::Liquidated);
    assert_eq!(EntityStatus::from_code("3"), EntityStatus::Reorganized);
    assert_eq!(EntityStatus::from_code("исключ"), EntityStatus::Excluded);
    assert_eq!(EntityStatus::from_code("5"), EntityStatus::Bankrupt);
    assert_eq!(EntityStatus::from_code("104"), EntityStatus::Active);
    assert_eq!(EntityStatus::from_code("221"), EntityStatus::Ceased);
    assert_eq!(EntityStatus::from_code("114"), EntityStatus::Bankrupt);
    assert_eq!(EntityStatus::from_code("999"), EntityStatus::Unknown);
    assert_eq!(EntityStatus::Active.as_code(), "active");
    assert_eq!(EntityStatus::Liquidating.as_code(), "liquidating");
    assert_eq!(EntityStatus::Unknown.as_code(), "unknown");
    assert_eq!(EntityStatus::Ceased.to_string(), "Прекращена деятельность");
    assert_eq!(EntityStatus::default(), EntityStatus::Unknown);
}

#[test]
fn codes_of_gender_and_citizenship() {
    assert_eq!(Gender::from_code("1"), Gender::Male);
    assert_eq!(Gender::from_code("М"), Gender::Male);
    assert_eq!(Gender::from_code("male"), Gender::Male);
    assert_eq!(Gender::from_code("2"), Gender::Female);
    assert_eq!(Gender::from_code("ж"), Gender::Female);
    assert_eq!(Gender::from_code("3"), Gender::Unknown);
    assert_eq!(Gender::from_code(""), Gender::Unknown);
    assert_eq!(Gender::Male.to_string(), "Мужской");
    assert_eq!(Gender::Female.to_string(), "Женский");
    assert_eq!(Gender::Unknown.to_string(), "Не указан");
    assert_eq!(CitizenshipType::from_code("1"), CitizenshipType::Russian);
    assert_eq!(CitizenshipType::from_code("2"), CitizenshipType::Foreign);
    assert_eq!(CitizenshipType::from_code("3"), CitizenshipType::Stateless);
    assert_eq!(CitizenshipType::from_code("x"), CitizenshipType::Russian);
}

#[test]
fn registry_from_name_and_content() {
    assert_eq!(RegistryType::from_filename("VO_RUGFO_0000.xml"), Some(RegistryType::Egrul));
    assert_eq!(RegistryType::from_filename("egrul_2024.xml"), Some(RegistryType::Egrul));
    assert_eq!(RegistryType::from_filename("vo_rigfo.xml"), Some(RegistryType::Egrip));
    assert_eq!(RegistryType::from_filename("EGRIP.XML"), Some(RegistryType::Egrip));
    assert_eq!(RegistryType::from_filename("data.xml"), None);
    assert_eq!(RegistryType::from_uppercase_name("rugfo"), None);
    assert_eq!(RegistryType::from_content("<СвЮЛ ОГРН=\"1\">"), Some(RegistryType::Egrul));
    assert_eq!(RegistryType::from_content("<СвИП>"), Some(RegistryType::Egrip));
    assert_eq!(RegistryType::from_content("<СвИП><СвЮЛ>"), Some(RegistryType::Egrul));
    assert_eq!(RegistryType::from_content("RIGFO"), None);
    assert_eq!(RegistryType::from_content("<a/>"), None);
    assert_eq!(RegistryType::detect("<a/>", "egrip.xml"), Some(RegistryType::Egrip));
    assert_eq!(RegistryType::detect("<СвЮЛ/>", "egrip.xml"), Some(RegistryType::Egrul));
    assert_eq!(RegistryType::detect("<a/>", "a.xml"), None);
    assert_eq!(RegistryType::Egrul.to_string(), "ЕГРЮЛ");
    assert_eq!(RegistryType::Egrip.to_string(), "ЕГРИП");
    assert_eq!(RegistryType::Egrul.stream_label(), "le");
    assert_eq!(RegistryType::Egrip.stream_label(), "sp");
}

#[test]
fn output_formats() {
    assert_eq!(OutputFormat::Parquet.extension(), "parquet");
    assert_eq!(OutputFormat::JsonLines.extension(), "jsonl");
    assert_eq!(OutputFormat::Json.extension(), "json");
    assert_eq!(OutputFormat::from_extension("PQ"), Some(OutputFormat::Parquet));
    assert_eq!(OutputFormat::from_extension("parquet"), Some(OutputFormat::Parquet));
    assert_eq!(OutputFormat::from_extension("ndjson"), Some(OutputFormat::JsonLines));
    assert_eq!(OutputFormat::from_extension("Json"), Some(OutputFormat::Json));
    assert_eq!(OutputFormat::from_extension("jsonlines"), None);
    assert_eq!(OutputFormat::from_lowercase_extension("JSON"), None);
    assert_eq!(OutputFormat::from_str("JsonLines").unwrap(), OutputFormat::JsonLines);
    assert_eq!(OutputFormat::from_str("pq").unwrap(), OutputFormat::Parquet);
    match OutputFormat::from_str("CSV") {
        Err(Error::Config(message)) => assert_eq!(message, "Неизвестный формат вывода: CSV"),
        other => panic!("unexpected {:?}", other),
    }
}

#[test]
fn share_fraction() {
    let mut share = Share::new();
    assert_eq!(share.fraction(), None);
    share.numerator = Some(1);
    assert_eq!(share.fraction(), None);
    share.denominator = Some(0);
    assert_eq!(share.fraction(), None);
    share.denominator = Some(4);
    assert_eq!(share.fraction(), Some((1, 4)));
    let (n, d) = share.fraction().unwrap();
    assert_eq!(n as f64 / d as f64 * 100.0, 25.0);
}

#[test]
fn records_valid_and_active() {
    let mut r = EgrulRecord::new();
    assert!(!r.is_valid());
    r.ogrn = "1".to_string();
    r.inn = "2".to_string();
    r.full_name = "   ".to_string();
    assert!(!r.is_valid());
    r.full_name = "А".to_string();
    assert!(r.is_valid());
    assert!(!r.is_active());
    r.status = EntityStatus::Active;
    assert!(r.is_active());
    r.main_activity = Some(Activity { code: "1".into(), name: "".into(), version: None, is_main: true });
    r.additional_activities.push(Activity::new());
    let all = r.all_activities();
    assert_eq!(all.len(), 2);
    assert_eq!(all[0].code, "1");

    let mut r = EgripRecord::new();
    r.ogrnip = "1".to_string();
    r.inn = "2".to_string();
    r.person.last_name = "Б".to_string();
    assert!(!r.is_valid());
    r.person.first_name = "В".to_string();
    assert!(r.is_valid());
    assert_eq!(r.all_activities().len(), 0);
    let capital = Capital::new("10.5".to_string(), "рубль".to_string());
    assert_eq!(capital.amount, "10.5");
}

#[test]
fn error_messages() {
    assert_eq!(Error::encoding("x".to_string()).to_string(), "Ошибка декодирования: x");
    assert_eq!(Error::missing_field("ОГРН".to_string()).to_string(), "Отсутствует обязательное поле: ОГРН");
    assert_eq!(Error::date_parse("x".to_string()).to_string(), "Ошибка парсинга даты: x");
    assert_eq!(Error::config("x".to_string()).to_string(), "Ошибка конфигурации: x");
    assert_eq!(Error::other("x".to_string()).to_string(), "x");
    assert_eq!(Error::Io("x".to_string()).to_string(), "Ошибка чтения файла: x");
    assert_eq!(Error::Xml("x".to_string()).to_string(), "Ошибка парсинга XML: x");
    assert_eq!(Error::Json("x".to_string()).to_string(), "Ошибка JSON: x");
    assert_eq!(Error::Parquet("x".to_string()).to_string(), "Ошибка Parquet: x");
    assert_eq!(Error::Arrow("x".to_string()).to_string(), "Ошибка Arrow: x");
    assert_eq!(Error::UnknownRegistryType("f".to_string()).to_string(), "Неизвестный тип реестра: f");
}

#[test]
fn library_info() {
    assert_eq!(
        info(),
        format!("egrul-parser v{}\nВысокопроизводительный парсер XML файлов ЕГРЮЛ/ЕГРИП", VERSION)
    );
}

#[test]
fn an_address_with_a_house_alone_is_completed() {
    let mut a = Address::new();
    a.house = Some("1".to_string());
    assert!(a.is_empty());
    a.complete();
    assert_eq!(a.full_address.as_deref(), Some("д. 1"));
    let mut b = Address::new();
    b.district = Some("Северный".to_string());
    b.complete();
    assert_eq!(b.full_address.as_deref(), Some("р-н Северный"));
    let mut c = Address::new();
    c.region_code = Some("77".to_string());
    c.kladr_code = Some("7700000000000".to_string());
    c.complete();
    assert_eq!(c.full_address, None);
}

#[test]
fn a_given_address_line_is_never_replaced() {
    let mut a = Address::new();
    a.full_address = Some("  как  есть ".to_string());
    a.city = Some("Тверь".to_string());
    a.complete();
    assert_eq!(a.full_address.as_deref(), Some("  как  есть "));
}
