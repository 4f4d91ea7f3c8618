use egrul_parser::date::Date;
use egrul_parser::models::egrip::Gender;
use egrul_parser::models::{Founder, RegistryRecord, RegistryType};
use egrul_parser::parser::Parser;
use egrul_parser::xml::{element_end, read_events, EventReader, XmlEvent};
use egrul_parser::{EgripXmlParser, EgrulXmlParser, Error};

#[test]
fn le_minimal() {
    let xml = r#"<ФАЙЛ><Документ><СвЮЛ ОГРН="1234567890123" ИНН="1234567890" ДатаОГРН="2020-01-01" СтатусЮЛ="актив"><СвНаим НаимПолн="ООО ТЕСТ" НаимСокр="ТЕСТ"/></СвЮЛ></Документ></ФАЙЛ>"#;
    let records = EgrulXmlParser::new().parse(xml).unwrap();
    assert_eq!(records.len(), 1);
    let r = &records[0];
    assert_eq!(r.ogrn, "1234567890123");
    assert_eq!(r.inn, "1234567890");
    assert_eq!(r.full_name, "ООО ТЕСТ");
    assert_eq!(r.short_name.as_deref(), Some("ТЕСТ"));
    assert_eq!(r.status_code.as_deref(), Some("актив"));
    assert_eq!(r.ogrn_date, Some(Date { year: 2020, month: 1, day: 1 }));
    assert_eq!(r.registration_date, Some(Date { year: 2020, month: 1, day: 1 }));
    assert!(r.is_valid());
}

#[test]
fn sp_with_gender_on_the_person_block() {
    let xml = r#"<СвИП ОГРНИП="123456789012345" ИНН="123456789012"><СвФЛ Пол="1"><ФИОРус Фамилия="Иванов" Имя="Иван" Отчество="Иванович"/></СвФЛ></СвИП>"#;
    let records = EgripXmlParser::new().parse(xml).unwrap();
    assert_eq!(records.len(), 1);
    let r = &records[0];
    assert_eq!(r.gender, Some(Gender::Male));
    assert_eq!(r.person.last_name, "Иванов");
    assert_eq!(r.person.first_name, "Иван");
    assert_eq!(r.person.middle_name.as_deref(), Some("Иванович"));
    assert_eq!(r.ogrnip, "123456789012345");
    assert_eq!(r.inn, "123456789012");
}

#[test]
fn address_region_falls_back_to_the_tax_code() {
    let xml = r#"<СвЮЛ ОГРН="1" ИНН="2"><СвНаим НаимПолн="А"/><СвАдресЮЛ><АдресРФ Индекс="101000"/><Город НаименГор="МОСКВА"/></СвАдресЮЛ><СвРегОрг КодНО="77001" НаимНО="Инспекция"/></СвЮЛ>"#;
    let records = EgrulXmlParser::new().parse(xml).unwrap();
    assert_eq!(records.len(), 1);
    let address = records[0].address.as_ref().unwrap();
    assert_eq!(address.region_code.as_deref(), Some("77"));
    assert_eq!(address.postal_code.as_deref(), Some("101000"));
    let registration = records[0].registration.as_ref().unwrap();
    assert_eq!(registration.authority.as_ref().unwrap().code, "77001");
    assert_eq!(registration.authority.as_ref().unwrap().name, "Инспекция");
}

#[test]
fn region_fallback_holds_whichever_block_comes_first() {
    let xml = r#"<СвЮЛ ОГРН="1" ИНН="2"><СвНаим НаимПолн="А"/><СвРегОрг КодНО="50123"/><СвАдресЮЛ><АдресРФ Индекс="101000"/></СвАдресЮЛ></СвЮЛ>"#;
    let records = EgrulXmlParser::new().parse(xml).unwrap();
    let address = records[0].address.as_ref().unwrap();
    assert_eq!(address.region_code.as_deref(), Some("50"));
    assert_eq!(address.postal_code.as_deref(), Some("101000"));
}

#[test]
fn region_code_of_the_address_is_kept() {
    let xml = r#"<СвЮЛ ОГРН="1" ИНН="2"><СвНаим НаимПолн="А"/><СвАдресЮЛ><АдресРФ Индекс="101000" КодРегион="78"/></СвАдресЮЛ><СвРегОрг КодНО="77001"/></СвЮЛ>"#;
    let records = EgrulXmlParser::new().parse(xml).unwrap();
    assert_eq!(records[0].address.as_ref().unwrap().region_code.as_deref(), Some("78"));
}

#[test]
fn tax_code_without_two_leading_digits_gives_no_region() {
    assert_eq!(EgrulXmlParser::extract_region_code_from_tax_code("77001"), Some("77".to_string()));
    assert_eq!(EgrulXmlParser::extract_region_code_from_tax_code("05"), Some("05".to_string()));
    assert_eq!(EgrulXmlParser::extract_region_code_from_tax_code("7"), None);
    assert_eq!(EgrulXmlParser::extract_region_code_from_tax_code(""), None);
    assert_eq!(EgrulXmlParser::extract_region_code_from_tax_code("A7001"), None);
    assert_eq!(EgrulXmlParser::extract_region_code_from_tax_code("7я01"), None);
    assert_eq!(EgripXmlParser::extract_region_code_from_tax_code("aя"), None);
    assert_eq!(EgripXmlParser::extract_region_code_from_tax_code("16"), Some("16".to_string()));
}

#[test]
fn certificate_comes_from_the_history() {
    let xml = r#"<СвЮЛ ОГРН="1" ИНН="2"><СвНаим НаимПолн="А"/><СвРегОрг КодНО="77001"/><СвЗапЕГРЮЛ ГРН="100" ДатаЗап="2010-05-01"><ВидЗап КодСПВЗ="11201" НаимВидЗап="Создание"/><СвСвид Серия="77" Номер="000123" ДатаВыдСвид="2010-05-01"/></СвЗапЕГРЮЛ><СвЗапЕГРЮЛ ГРН="200"><СвСвид Серия="78" Номер="000999"/></СвЗапЕГРЮЛ></СвЮЛ>"#;
    let records = EgrulXmlParser::new().parse(xml).unwrap();
    assert_eq!(records.len(), 1);
    let registration = records[0].registration.as_ref().unwrap();
    assert_eq!(registration.certificate_series.as_deref(), Some("77"));
    assert_eq!(registration.certificate_number.as_deref(), Some("000123"));
    assert_eq!(registration.certificate_date, Some(Date { year: 2010, month: 5, day: 1 }));
    assert_eq!(records[0].history.len(), 2);
    assert_eq!(records[0].history[0].grn, "100");
    assert_eq!(records[0].history[0].reason_code.as_deref(), Some("11201"));
    assert_eq!(records[0].history[0].reason_description.as_deref(), Some("Создание"));
    assert_eq!(records[0].history[1].certificate_series.as_deref(), Some("78"));
}

#[test]
fn capital_needs_an_amount_that_is_a_number() {
    let xml = r#"<СвЮЛ ОГРН="1" ИНН="2"><СвНаим НаимПолн="А"/><СвУстКап СумКап="много" НаимВал="рубль"/></СвЮЛ>"#;
    let records = EgrulXmlParser::new().parse(xml).unwrap();
    assert!(records[0].capital.is_none());
    let xml = r#"<СвЮЛ ОГРН="1" ИНН="2"><СвНаим НаимПолн="А"/><СвУстКап СумКап="много"/><СвУстКап СумКап="12,5" НаимВал="евро"/></СвЮЛ>"#;
    let records = EgrulXmlParser::new().parse(xml).unwrap();
    let capital = records[0].capital.as_ref().unwrap();
    assert_eq!(capital.amount, "12.5");
    assert_eq!(capital.currency, "евро");
}

#[test]
fn founders_block_without_founders() {
    let xml = r#"<СвЮЛ ОГРН="1" ИНН="2"><СвНаим НаимПолн="А"/><СвУчредит><Прочее/></СвУчредит></СвЮЛ>"#;
    let records = EgrulXmlParser::new().parse(xml).unwrap();
    assert_eq!(records.len(), 1);
    assert_eq!(records[0].founders.len(), 0);
}

#[test]
fn founders_of_each_shape() {
    let xml = r#"<СвЮЛ ОГРН="1" ИНН="2"><СвНаим НаимПолн="А"/><СвУчредит>
      <УчрФЛ><СвФЛ Фамилия="Петров" Имя="Пётр" ИННФЛ="770000000000"/><ДоляУстКап НоминСтоим="5000,5" Процент="50"><РазмерДоли/></ДоляУстКап></УчрФЛ>
      <УчрЮЛРос ОГРН="1027700000000" ИНН="7700000000" НаимЮЛПолн="ООО Б"><ДоляУстКап Числит="1" Знамен="4"/></УчрЮЛРос>
      <УчрЮЛИн НаимЮЛПолн="Acme Ltd" НаимСтран="КИПР" РегНомер="HE1"></УчрЮЛИн>
    </СвУчредит><СвУстКап СумКап="10000" НаимВал="рубль"/></СвЮЛ>"#;
    let records = EgrulXmlParser::new().parse(xml).unwrap();
    assert_eq!(records.len(), 1);
    let founders = &records[0].founders;
    assert_eq!(founders.len(), 3);
    match &founders[0] {
        Founder::Person { person, share, citizenship } => {
            assert_eq!(person.last_name, "Петров");
            assert_eq!(person.inn.as_deref(), Some("770000000000"));
            let share = share.as_ref().unwrap();
            assert_eq!(share.nominal_value.as_deref(), Some("5000.5"));
            assert_eq!(share.percent.as_deref(), Some("50"));
            assert_eq!(share.fraction(), None);
            assert!(citizenship.is_none());
        }
        other => panic!("unexpected {:?}", other),
    }
    match &founders[1] {
        Founder::RussianLegalEntity { ogrn, inn, name, share } => {
            assert_eq!(ogrn, "1027700000000");
            assert_eq!(inn, "7700000000");
            assert_eq!(name, "ООО Б");
            assert_eq!(share.as_ref().unwrap().fraction(), Some((1, 4)));
        }
        other => panic!("unexpected {:?}", other),
    }
    match &founders[2] {
        Founder::ForeignLegalEntity { name, country, reg_number, share } => {
            assert_eq!(name, "Acme Ltd");
            assert_eq!(country.as_deref(), Some("КИПР"));
            assert_eq!(reg_number.as_deref(), Some("HE1"));
            assert!(share.is_none());
        }
        other => panic!("unexpected {:?}", other),
    }
    assert_eq!(founders[1].name(), "ООО Б");
    assert_eq!(founders[0].name(), "Петров Пётр");
    assert!(founders[2].share().is_none());
    let capital = records[0].capital.as_ref().unwrap();
    assert_eq!(capital.amount, "10000");
    assert_eq!(capital.currency, "рубль");
}

#[test]
fn no_record_root_no_records() {
    let xml = r#"<ФАЙЛ><Документ><Прочее ОГРН="1" ИНН="2"/></Документ></ФАЙЛ>"#;
    assert_eq!(EgrulXmlParser::new().parse(xml).unwrap().len(), 0);
    assert_eq!(EgripXmlParser::new().parse(xml).unwrap().len(), 0);
    assert_eq!(EgrulXmlParser::new().parse("").unwrap().len(), 0);
}

#[test]
fn mixed_input_feeds_both_extractors() {
    let xml = r#"<ФАЙЛ><Документ><СвЮЛ ОГРН="1" ИНН="2"><СвНаим НаимПолн="А"/></СвЮЛ></Документ><Документ><СвИП ОГРНИП="3" ИНН="4"><ФИОРус Фамилия="Б" Имя="В"/></СвИП></Документ></ФАЙЛ>"#;
    let events = read_events(xml);
    let le = EgrulXmlParser::new().parse_events(&events);
    let sp = EgripXmlParser::new().parse_events(&events);
    assert_eq!(le.len(), 1);
    assert_eq!(sp.len(), 1);
    assert_eq!(le[0].ogrn, "1");
    assert_eq!(sp[0].ogrnip, "3");
    assert_eq!(sp[0].person.last_name, "Б");
}

#[test]
fn invalid_records_are_left_out() {
    let xml = r#"<ФАЙЛ><СвЮЛ ОГРН="1" ИНН=""><СвНаим НаимПолн="А"/></СвЮЛ><СвЮЛ ОГРН="2" ИНН="3"/><СвЮЛ ОГРН="4" ИНН="5"><СвНаим НаимПолн="Б"/></СвЮЛ></ФАЙЛ>"#;
    let records = EgrulXmlParser::new().parse(xml).unwrap();
    assert_eq!(records.len(), 1);
    assert_eq!(records[0].ogrn, "4");
    let xml = r#"<ФАЙЛ><СвИП ОГРНИП="1" ИНН="2"><ФИОРус Фамилия="Б"/></СвИП><СвИП ОГРНИП="3" ИНН="4"><ФИОРус Фамилия="Б" Имя="В"/></СвИП></ФАЙЛ>"#;
    let records = EgripXmlParser::new().parse(xml).unwrap();
    assert_eq!(records.len(), 1);
    assert_eq!(records[0].ogrnip, "3");
}

#[test]
fn a_malformed_record_is_discarded_and_the_next_one_read() {
    let xml = r#"<ФАЙЛ><СвЮЛ ОГРН="1" ИНН="2"><СвНаим НаимПолн="А"/><СвОКВЭД>оптовая &amp розничная</СвОКВЭД></СвЮЛ><СвЮЛ ОГРН="4" ИНН="5"><СвНаим НаимПолн="Б"/></СвЮЛ></ФАЙЛ>"#;
    let events = read_events(xml);
    assert!(events.iter().any(|e| matches!(e, XmlEvent::Malformed)));
    let records = EgrulXmlParser::new().parse_events(&events);
    assert_eq!(records.len(), 1);
    assert_eq!(records[0].ogrn, "4");
}

#[test]
fn a_malformed_event_between_records_ends_the_extraction() {
    let xml = r#"<ФАЙЛ><СвЮЛ ОГРН="1" ИНН="2"><СвНаим НаимПолн="А"/></СвЮЛ>и &amp ещё<СвЮЛ ОГРН="4" ИНН="5"><СвНаим НаимПолн="Б"/></СвЮЛ></ФАЙЛ>"#;
    let records = EgrulXmlParser::new().parse(xml).unwrap();
    assert_eq!(records.len(), 1);
    assert_eq!(records[0].ogrn, "1");
}

#[test]
fn a_document_that_breaks_off_keeps_what_was_read() {
    let xml = r#"<ФАЙЛ><СвЮЛ ОГРН="1" ИНН="2"><СвНаим НаимПолн="А"/></СвЮЛ><СвЮЛ ОГРН="4" ИНН="5"><СвНаим НаимПолн="Б"/>"#;
    let records = EgrulXmlParser::new().parse(xml).unwrap();
    assert_eq!(records.len(), 2);
    assert_eq!(records[1].full_name, "Б");
}

#[test]
fn self_closing_blocks_are_read_from_their_own_tag() {
    let xml = r#"<СвЮЛ ОГРН="1" ИНН="2"><СвНаим НаимПолн="А"/><СвАдресЮЛ Адрес="г. Тверь"/><СвЛицЕИО НаимДолжн="Директор"/><СвУчетНО КодНО="6901" ДатаПостУч="2001-01-01"/><СвРегПФ РегНомПФ="1"/><СвРегФСС РегНомФСС="2"/><СвЗапись ГРН="5"/><СвУчредит><УчрЮЛРос ОГРН="9" ИНН="8" НаимЮЛПолн="В"/><УчрФЛ/></СвУчредит></СвЮЛ>"#;
    let records = EgrulXmlParser::new().parse(xml).unwrap();
    assert_eq!(records.len(), 1);
    let r = &records[0];
    assert_eq!(r.address.as_ref().unwrap().full_address.as_deref(), Some("г. Тверь"));
    assert_eq!(r.head.as_ref().unwrap().position.as_deref(), Some("Директор"));
    assert_eq!(r.tax_authority.as_ref().unwrap().code, "6901");
    assert_eq!(r.pension_fund.as_ref().unwrap().reg_number, "1");
    assert_eq!(r.social_insurance.as_ref().unwrap().reg_number, "2");
    assert_eq!(r.history.len(), 1);
    assert_eq!(r.founders.len(), 2);
    assert_eq!(r.founders[0].name(), "В");
}

#[test]
fn first_value_of_a_field_wins() {
    let xml = r#"<СвЮЛ ОГРН="1" ИНН="2" СтатусЮЛ="первый"><СвНаим НаимПолн="А"/><СвНаим НаимПолн="Б"/><СвСтатус КодСтатусЮЛ="второй"/><СвАдресЮЛ><Город НаименГор="ОДИН"/><Город НаименГор="ДВА"/><Дом Дом="1"/><Дом Дом="2"/></СвАдресЮЛ></СвЮЛ>"#;
    let records = EgrulXmlParser::new().parse(xml).unwrap();
    assert_eq!(records[0].full_name, "А");
    assert_eq!(records[0].status_code.as_deref(), Some("первый"));
    let address = records[0].address.as_ref().unwrap();
    assert_eq!(address.city.as_deref(), Some("ОДИН"));
    assert_eq!(address.house.as_deref(), Some("1"));
}

#[test]
fn le_address_is_composed_in_canonical_order() {
    let xml = r#"<СвЮЛ ОГРН="1" ИНН="2"><СвНаим НаимПолн="А"/><СвАдресЮЛ><АдресРФ Индекс="101000" КодРегион="77" Дом="5" Корп="2" Кварт="7"/><Район НаименРай="Северный"/><Город НаименГор="МОСКВА"/><НаселПункт НаименНП="МОСКВА"/><Улица ТипУлица="УЛ" НаимУлица="ЛЕНИНА"/></СвАдресЮЛ></СвЮЛ>"#;
    let records = EgrulXmlParser::new().parse(xml).unwrap();
    let address = records[0].address.as_ref().unwrap();
    assert_eq!(address.street.as_deref(), Some("УЛ ЛЕНИНА"));
    assert_eq!(
        address.full_address.as_deref(),
        Some("101000, р-н Северный, г. МОСКВА, ул. УЛ ЛЕНИНА, д. 5, корп. 2, кв. 7")
    );
}

#[test]
fn full_address_from_the_input_is_kept() {
    let xml = r#"<СвЮЛ ОГРН="1" ИНН="2"><СвНаим НаимПолн="А"/><СвАдресЮЛ Адрес="г. Тверь,   ул. Мира"><АдресРФ Индекс="170000"/><Город НаименГор="ТВЕРЬ"/></СвАдресЮЛ></СвЮЛ>"#;
    let records = EgrulXmlParser::new().parse(xml).unwrap();
    let address = records[0].address.as_ref().unwrap();
    assert_eq!(address.full_address.as_deref(), Some("г. Тверь,   ул. Мира"));
    assert_eq!(address.city.as_deref(), Some("ТВЕРЬ"));
}

#[test]
fn sp_address_in_the_newer_layout() {
    let xml = r#"<СвИП ОГРНИП="3" ИНН="4"><ФИОРус Фамилия="Б" Имя="В"/><СвАдрМЖ><АдресРФ Индекс="420000" КодРегион="16" КодАдрКладр="1600000100000"/><Регион НаимРегион="ТАТАРСТАН"/><МуниципРайон Наим="Казань"/><НаселенПункт Наим="Казань"/><ЭлУлДорСети Тип="ул" Наим="Баумана"/><Здание Тип="д." Номер="3"/><ПомещЗдания Тип="кв." Номер="10"/><ПомещКвартиры Тип="ком." Номер="2"/></СвАдрМЖ></СвИП>"#;
    let records = EgripXmlParser::new().parse(xml).unwrap();
    assert_eq!(records.len(), 1);
    let a = records[0].address.as_ref().unwrap();
    assert_eq!(a.postal_code.as_deref(), Some("420000"));
    assert_eq!(a.region_code.as_deref(), Some("16"));
    assert_eq!(a.kladr_code.as_deref(), Some("1600000100000"));
    assert_eq!(a.region.as_deref(), Some("ТАТАРСТАН"));
    assert_eq!(a.district.as_deref(), Some("Казань"));
    assert_eq!(a.locality.as_deref(), Some("Казань"));
    assert_eq!(a.street.as_deref(), Some("ул Баумана"));
    assert_eq!(a.house.as_deref(), Some("д.3"));
    assert_eq!(a.flat.as_deref(), Some("кв.10, ком.2"));
    assert_eq!(
        a.full_address.as_deref(),
        Some("420000, ТАТАРСТАН, р-н Казань, Казань, ул. ул Баумана, д. д.3, кв. кв.10, ком.2")
    );
}

#[test]
fn sp_blocks_are_read() {
    let xml = r#"<СвИП ОГРНИП="3" ИНН="4" ДатаОГРНИП="2015-03-02" ДатаВып="2024-01-01"><СвФЛ Пол="2"><ФИОРус Фамилия="Б" Имя="В"/></СвФЛ><СвГражд ВидГражд="2" ОКСМ="112" НаимСтран="БЕЛАРУСЬ"/><СвСтатус КодСтатус="201" ДатаПрекращ="2020-02-02"/><СвОКВЭД><СвОКВЭДОсн КодОКВЭД="62.01" НаимОКВЭД="Разработка"/><СвОКВЭДДоп КодОКВЭД="62.02"/><СвОКВЭДДоп НаимОКВЭД="без кода"/></СвОКВЭД><СвРегОрг КодНО="1690" НаимНО="ИФНС" АдрРО="Казань"/><СвУчетНО ДатаПостУч="2015-03-03"><СвНО КодНО="1655" НаимНО="Инспекция"/></СвУчетНО><СвРегПФ РегНомПФ="013"><СвОргПФ НаимПФ="ПФР"/></СвРегПФ><СвРегФСС РегНомФСС="160"><СвОргФСС НаимФСС="ФСС"/></СвРегФСС><СвЗапЕГРИП ГРНИП="9" ДатаЗап="2015-03-02"/><СведКонт E-mail="a@b.ru"/></СвИП>"#;
    let records = EgripXmlParser::new().parse(xml).unwrap();
    assert_eq!(records.len(), 1);
    let r = &records[0];
    assert_eq!(r.gender, Some(Gender::Female));
    assert_eq!(r.registration_date, Some(Date { year: 2015, month: 3, day: 2 }));
    assert_eq!(r.extract_date, Some(Date { year: 2024, month: 1, day: 1 }));
    let c = r.citizenship.as_ref().unwrap();
    assert_eq!(c.citizenship_type, egrul_parser::models::CitizenshipType::Foreign);
    assert_eq!(c.country_name.as_deref(), Some("БЕЛАРУСЬ"));
    assert_eq!(r.status_code.as_deref(), Some("201"));
    assert_eq!(r.termination_date, Some(Date { year: 2020, month: 2, day: 2 }));
    let main = r.main_activity.as_ref().unwrap();
    assert_eq!(main.code, "62.01");
    assert!(main.is_main);
    assert_eq!(r.additional_activities.len(), 1);
    assert_eq!(r.additional_activities[0].code, "62.02");
    assert!(!r.additional_activities[0].is_main);
    assert_eq!(r.all_activities().len(), 2);
    let a = r.address.as_ref().unwrap();
    assert_eq!(a.region_code.as_deref(), Some("16"));
    assert_eq!(a.full_address.as_deref(), Some("Казань"));
    let tax = r.tax_authority.as_ref().unwrap();
    assert_eq!(tax.code, "1655");
    assert_eq!(tax.name, "Инспекция");
    assert_eq!(tax.registration_date, Some(Date { year: 2015, month: 3, day: 3 }));
    assert_eq!(r.pension_fund.as_ref().unwrap().reg_number, "013");
    assert_eq!(r.pension_fund.as_ref().unwrap().authority_name.as_deref(), Some("ПФР"));
    assert_eq!(r.social_insurance.as_ref().unwrap().authority_name.as_deref(), Some("ФСС"));
    assert_eq!(r.history.len(), 1);
    assert_eq!(r.history[0].grn, "9");
    assert_eq!(r.email.as_deref(), Some("a@b.ru"));
    assert_eq!(r.full_name(), "ИП Б В");
    assert_eq!(r.short_name(), "ИП Б В.");
}

#[test]
fn le_head_and_termination_are_read() {
    let xml = r#"<СвЮЛ ОГРН="1" ИНН="2" КПП="3" КодОПФ="12300" ПолнНаимОПФ="ООО"><СвНаимЮЛ НаимЮЛПолн="  ОБЩЕСТВО   А "><СвНаимЮЛСокр НаимСокр="ООО  А"/></СвНаимЮЛ><СведДолжнФЛ><СвФЛ Фамилия="Сидоров" Имя="Сидор" Отчество="Сидорович" ИННФЛ="5"/><СвДолжн ВидДолжн="02" НаимДолжн="Директор"/><ГРНДатаПерв ГРН="7" ДатаЗаписи="2019-09-09"/></СведДолжнФЛ><СвПрекрЮЛ ДатаПрекращ="2021-01-01" СпосПрекращ="Ликвидация"></СвПрекрЮЛ><СвКонт E-mail="x@y.ru"></СвКонт></СвЮЛ>"#;
    let records = EgrulXmlParser::new().parse(xml).unwrap();
    assert_eq!(records.len(), 1);
    let r = &records[0];
    assert_eq!(r.full_name, "ОБЩЕСТВО А");
    assert_eq!(r.short_name.as_deref(), Some("ООО А"));
    assert_eq!(r.kpp.as_deref(), Some("3"));
    assert_eq!(r.opf_code.as_deref(), Some("12300"));
    assert_eq!(r.opf_name.as_deref(), Some("ООО"));
    let head = r.head.as_ref().unwrap();
    assert_eq!(head.person.full_name(), "Сидоров Сидор Сидорович");
    assert_eq!(head.person.short_name(), "Сидоров С.С.");
    assert_eq!(head.position.as_deref(), Some("Директор"));
    assert_eq!(head.position_code.as_deref(), Some("02"));
    assert_eq!(head.grn.as_deref(), Some("7"));
    assert_eq!(head.grn_date, Some(Date { year: 2019, month: 9, day: 9 }));
    assert_eq!(r.termination_date, Some(Date { year: 2021, month: 1, day: 1 }));
    assert_eq!(r.termination_method.as_deref(), Some("Ликвидация"));
    assert_eq!(r.email.as_deref(), Some("x@y.ru"));
    assert!(!r.is_active());
}

#[test]
fn extraction_is_stable() {
    let xml = r#"<ФАЙЛ><СвЮЛ ОГРН="1" ИНН="2"><СвНаим НаимПолн="А"/><СвОКВЭД><СвОКВЭДДоп КодОКВЭД="1"/><СвОКВЭДДоп КодОКВЭД="2"/></СвОКВЭД></СвЮЛ><СвЮЛ ОГРН="4" ИНН="5"><СвНаим НаимПолн="Б"/></СвЮЛ></ФАЙЛ>"#;
    let first = EgrulXmlParser::new().parse(xml).unwrap();
    let second = EgrulXmlParser::new().parse(xml).unwrap();
    assert_eq!(format!("{:?}", first), format!("{:?}", second));
    assert_eq!(first.len(), 2);
    assert_eq!(first[0].additional_activities.len(), 2);
}

#[test]
fn read_events_keeps_names_and_attributes() {
    let events = read_events(r#"<?xml version="1.0"?><a x="1" y='2'><b/>text</a>"#);
    let mut kinds = Vec::new();
    for event in &events {
        kinds.push(match event {
            XmlEvent::Start(e) => format!("start {} {}", e.name, e.attrs.len()),
            XmlEvent::Empty(e) => format!("empty {} {}", e.name, e.attrs.len()),
            XmlEvent::End => "end".to_string(),
            XmlEvent::Malformed => "malformed".to_string(),
            XmlEvent::Other => "other".to_string(),
        });
    }
    assert_eq!(kinds, vec!["other", "start a 2", "empty b 0", "other", "end"]);
    match &events[1] {
        XmlEvent::Start(e) => {
            assert_eq!(e.attrs[0].key, "x");
            assert_eq!(e.attrs[0].value, "1");
            assert_eq!(e.attrs[1].key, "y");
            assert_eq!(e.attrs[1].value, "2");
        }
        _ => panic!("no start tag"),
    }
}

#[test]
fn the_dispatcher_goes_by_content_then_by_file_name() {
    let parser = Parser::new(1);
    let le = r#"<СвЮЛ ОГРН="1" ИНН="2"><СвНаим НаимПолн="А"/></СвЮЛ>"#;
    let records = parser.parse_content(le, "VO_RIGFO_0000.xml", "/data/VO_RIGFO_0000.xml").unwrap();
    assert_eq!(records.len(), 1);
    assert_eq!(records[0].registry_type(), RegistryType::Egrul);
    assert_eq!(records[0].ogrn(), "1");
    assert_eq!(records[0].inn(), "2");
    let empty = "<ФАЙЛ/>";
    assert_eq!(parser.parse_content(empty, "vo_rigfo_1.xml", "p").unwrap().len(), 0);
    match parser.parse_content(empty, "data.xml", "/data/data.xml") {
        Err(Error::UnknownRegistryType(path)) => assert_eq!(path, "/data/data.xml"),
        other => panic!("unexpected {:?}", other),
    }
    let sp = r#"<СвИП ОГРНИП="3" ИНН="4"><ФИОРус Фамилия="Б" Имя="В"/></СвИП>"#;
    let records = parser.parse_bytes(sp.as_bytes().to_vec(), "x.xml", "x.xml").unwrap();
    assert_eq!(records.len(), 1);
    match &records[0] {
        RegistryRecord::Egrip(r) => assert_eq!(r.ogrnip, "3"),
        other => panic!("unexpected {:?}", other),
    }
}

#[test]
fn reading_ends_on_every_kind_of_broken_input() {
    let inputs = [
        "",
        "<",
        "<a",
        "<a x=",
        "<a x='1",
        "</a>",
        "<a></b></a>",
        "<a>&</a>",
        "<a>&amp</a>",
        "<a>&&&;&</a>",
        "<!-- never closed",
        "<!-- a -- b --><a/>",
        "<![CDATA[ never closed",
        "<?xml version='1.0'",
        "<?xml?><a/>",
        "<!DOCTYPE a [ <!ENTITY x 'y'> ]><a>&x;</a>",
        "<a x='1' x='2' y z='3'/>",
        "\u{feff}<a/>",
        "<a>\u{0}</a>",
        "<<<>>>",
        "<a><b><c></a></b></c>",
        "text only",
    ];
    for input in inputs {
        let events = read_events(input);
        assert!(events.len() <= input.len() + 1, "{:?}", input);
        let le = EgrulXmlParser::new().parse_events(&events);
        let sp = EgripXmlParser::new().parse_events(&events);
        assert!(le.is_empty() && sp.is_empty(), "{:?}", input);
    }
}

#[test]
fn attributes_that_do_not_parse_are_left_out() {
    let events = read_events("<a x='1' x='2' y z='3'/>");
    match &events[0] {
        XmlEvent::Empty(e) => {
            let keys: Vec<&str> = e.attrs.iter().map(|a| a.key.as_str()).collect();
            assert!(keys.contains(&"x"));
            assert_eq!(e.get_attr("x"), Some("1".to_string()));
        }
        _ => panic!("no tag"),
    }
}

#[test]
fn the_registering_authority_with_content_of_its_own() {
    let xml = r#"<СвЮЛ ОГРН="1" ИНН="2"><СвНаим НаимПолн="А"/><СвАдресЮЛ><АдресРФ Индекс="101000"><Регион ТипРегион="Г" НаимРегион="МОСКВА"/></АдресРФ></СвАдресЮЛ><СвРегОрг КодНО="77001" НаимНО="Инспекция"><ГРНДата ГРН="5" ДатаЗаписи="2003-01-01"/><СвАдресЮЛ><Город НаименГор="ЧУЖОЙ"/></СвАдресЮЛ></СвРегОрг><СвЗапЕГРЮЛ ГРН="6"><СвСвид Серия="77" Номер="1"/></СвЗапЕГРЮЛ></СвЮЛ>"#;
    let records = EgrulXmlParser::new().parse(xml).unwrap();
    assert_eq!(records.len(), 1);
    let r = &records[0];
    let address = r.address.as_ref().unwrap();
    assert_eq!(address.region_code.as_deref(), Some("77"));
    assert_eq!(address.city, None);
    assert_eq!(address.full_address.as_deref(), Some("101000"));
    let registration = r.registration.as_ref().unwrap();
    assert_eq!(registration.authority.as_ref().unwrap().code, "77001");
    assert_eq!(registration.certificate_series.as_deref(), Some("77"));
    assert_eq!(registration.certificate_number.as_deref(), Some("1"));
    assert_eq!(registration.certificate_date, None);
    assert_eq!(r.history.len(), 1);
}

#[test]
fn nested_elements_of_unknown_names_are_walked_through() {
    let xml = r#"<ФАЙЛ><Документ ИдДок="1"><СвЮЛ ОГРН="1" ИНН="2"><Обёртка><Ещё><СвНаим НаимПолн="А"/><СвКонт E-mail="a@b.ru"/></Ещё></Обёртка><СвСтатус><СвСтатус КодСтатусЮЛ="101"/></СвСтатус></СвЮЛ></Документ><Документ ИдДок="2"><СвЮЛ ОГРН="3" ИНН="4"><СвНаим НаимПолн="Б"/></СвЮЛ></Документ></ФАЙЛ>"#;
    let records = EgrulXmlParser::new().parse(xml).unwrap();
    assert_eq!(records.len(), 2);
    assert_eq!(records[0].full_name, "А");
    assert_eq!(records[0].email.as_deref(), Some("a@b.ru"));
    assert_eq!(records[0].status_code.as_deref(), Some("101"));
    assert_eq!(records[1].ogrn, "3");
}

#[test]
fn sp_full_address_from_the_input_is_kept() {
    let xml = r#"<СвИП ОГРНИП="3" ИНН="4"><ФИОРус Фамилия="Б" Имя="В"/><СвАдрМЖ Адрес=" Казань,  ул.  Баумана "><АдресРФ Индекс="420000"/></СвАдрМЖ></СвИП>"#;
    let records = EgripXmlParser::new().parse(xml).unwrap();
    let address = records[0].address.as_ref().unwrap();
    assert_eq!(address.full_address.as_deref(), Some("Казань,  ул.  Баумана"));
    assert_eq!(address.postal_code.as_deref(), Some("420000"));
}

#[test]
fn an_address_with_a_district_alone_gets_a_line() {
    let xml = r#"<СвЮЛ ОГРН="1" ИНН="2"><СвНаим НаимПолн="А"/><СвАдресЮЛ><Район НаименРай="Северный"/></СвАдресЮЛ></СвЮЛ>"#;
    let records = EgrulXmlParser::new().parse(xml).unwrap();
    let address = records[0].address.as_ref().unwrap();
    assert_eq!(address.full_address.as_deref(), Some("р-н Северный"));
    let xml = r#"<СвЮЛ ОГРН="1" ИНН="2"><СвНаим НаимПолн="А"/><СвАдресЮЛ><АдресРФ Дом="7"/></СвАдресЮЛ></СвЮЛ>"#;
    let records = EgrulXmlParser::new().parse(xml).unwrap();
    let address = records[0].address.as_ref().unwrap();
    assert_eq!(address.full_address.as_deref(), Some("д. 7"));
}

#[test]
fn the_address_own_region_code_wins_in_either_order() {
    let after = r#"<СвЮЛ ОГРН="1" ИНН="2"><СвНаим НаимПолн="А"/><СвРегОрг КодНО="77001"/><СвАдресЮЛ><АдресРФ КодРегион="78" Индекс="190000"/></СвАдресЮЛ></СвЮЛ>"#;
    let before = r#"<СвЮЛ ОГРН="1" ИНН="2"><СвНаим НаимПолн="А"/><СвАдресЮЛ><АдресРФ КодРегион="78" Индекс="190000"/></СвАдресЮЛ><СвРегОрг КодНО="77001"/></СвЮЛ>"#;
    for xml in [after, before] {
        let records = EgrulXmlParser::new().parse(xml).unwrap();
        assert_eq!(records.len(), 1);
        let address = records[0].address.as_ref().unwrap();
        assert_eq!(address.region_code.as_deref(), Some("78"));
    }
    let after = r#"<СвИП ОГРНИП="3" ИНН="4"><ФИОРус Фамилия="Б" Имя="В"/><СвРегОрг КодНО="1690" АдрРО="Казань"/><СвАдрМЖ Адрес="Уфа"><АдресРФ КодРегион="02"/></СвАдрМЖ></СвИП>"#;
    let before = r#"<СвИП ОГРНИП="3" ИНН="4"><ФИОРус Фамилия="Б" Имя="В"/><СвАдрМЖ Адрес="Уфа"><АдресРФ КодРегион="02"/></СвАдрМЖ><СвРегОрг КодНО="1690" АдрРО="Казань"/></СвИП>"#;
    for xml in [after, before] {
        let records = EgripXmlParser::new().parse(xml).unwrap();
        assert_eq!(records.len(), 1);
        let address = records[0].address.as_ref().unwrap();
        assert_eq!(address.region_code.as_deref(), Some("02"));
        assert_eq!(address.full_address.as_deref(), Some("Уфа"));
    }
}

#[test]
fn the_authority_code_fills_a_missing_region_code_in_either_order() {
    let after = r#"<СвЮЛ ОГРН="1" ИНН="2"><СвНаим НаимПолн="А"/><СвРегОрг КодНО="77001"/><СвАдресЮЛ><АдресРФ Индекс="101000"/></СвАдресЮЛ></СвЮЛ>"#;
    let before = r#"<СвЮЛ ОГРН="1" ИНН="2"><СвНаим НаимПолн="А"/><СвАдресЮЛ><АдресРФ Индекс="101000"/></СвАдресЮЛ><СвРегОрг КодНО="77001"/></СвЮЛ>"#;
    for xml in [after, before] {
        let records = EgrulXmlParser::new().parse(xml).unwrap();
        let address = records[0].address.as_ref().unwrap();
        assert_eq!(address.region_code.as_deref(), Some("77"));
        assert_eq!(address.postal_code.as_deref(), Some("101000"));
    }
    let after = r#"<СвИП ОГРНИП="3" ИНН="4"><ФИОРус Фамилия="Б" Имя="В"/><СвРегОрг КодНО="1690"/><СвАдрМЖ><АдресРФ Индекс="420000"/></СвАдрМЖ></СвИП>"#;
    let before = r#"<СвИП ОГРНИП="3" ИНН="4"><ФИОРус Фамилия="Б" Имя="В"/><СвАдрМЖ><АдресРФ Индекс="420000"/></СвАдрМЖ><СвРегОрг КодНО="1690"/></СвИП>"#;
    for xml in [after, before] {
        let records = EgripXmlParser::new().parse(xml).unwrap();
        let address = records[0].address.as_ref().unwrap();
        assert_eq!(address.region_code.as_deref(), Some("16"));
    }
}

#[test]
fn records_are_read_one_element_at_a_time() {
    let xml = r#"<ФАЙЛ><СвЮЛ ОГРН="1" ИНН="2"><СвНаим НаимПолн="А"/></СвЮЛ><СвЮЛ ОГРН="" ИНН="2"><СвНаим НаимПолн="Б"/></СвЮЛ><прочее><x/></прочее><СвЮЛ ОГРН="3" ИНН="4"><СвНаим НаимПолн="В"/><СвУчредит><УчрФЛ><СвФЛ Фамилия="Г" Имя="Д"/></УчрФЛ></СвУчредит></СвЮЛ></ФАЙЛ>"#;
    let parser = EgrulXmlParser::new();
    let streamed = parser.parse(xml).unwrap();
    assert_eq!(streamed.len(), 2);
    assert_eq!(streamed[0].ogrn, "1");
    assert_eq!(streamed[1].ogrn, "3");
    assert_eq!(streamed[1].founders.len(), 1);
    let events = read_events(xml);
    let whole = parser.parse_events(&events);
    assert_eq!(whole.len(), 2);
    assert_eq!(whole[0].ogrn, "1");
    assert_eq!(whole[1].ogrn, "3");
    assert_eq!(whole[1].founders.len(), 1);
    let first = parser.read_record(&events[1..4]).unwrap();
    assert_eq!(first.ogrn, "1");
    assert_eq!(first.full_name, "А");
    assert!(parser.read_record(&events[2..4]).is_none());
    assert!(parser.read_record(&[]).is_none());
}

#[test]
fn an_element_is_read_up_to_its_end() {
    let xml = "<a><b><c/></b>text</a><d/>";
    let mut reader = EventReader::open(xml);
    let first = reader.next().unwrap();
    let element = reader.read_element(first);
    assert_eq!(element.len(), 6);
    assert!(matches!(element[0], XmlEvent::Start(_)));
    assert!(matches!(element[5], XmlEvent::End));
    assert!(matches!(reader.next(), Some(XmlEvent::Empty(_))));
    assert!(reader.next().is_none());
    let events = read_events(xml);
    assert_eq!(element_end(&events, 1), 6);
    assert_eq!(element_end(&events, 7), 7);
    assert_eq!(element_end(&events, 9), 9);
    let cut = read_events("<a><b>");
    assert_eq!(element_end(&cut, 1), cut.len());
}
