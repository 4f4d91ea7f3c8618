use egrul_parser::date::Date;
use egrul_parser::output::json::{json_array, json_line, JsonArrayFrame};
use egrul_parser::output::rows::{
    date_to_column, egrip_row, egrip_schema, egrul_row, egrul_schema, to_count_column,
    to_json_column, ColumnKind, LeJson, SpJson,
};
use egrul_parser::output::rolling::{FileLimits, RollingStream};
use egrul_parser::output::writer::ParquetOutputWriter;
use egrul_parser::{Activity, EgripRecord, EgripXmlParser, EgrulRecord, EgrulXmlParser};

#[test]
fn le_row_follows_the_record() {
    let xml = r#"<СвЮЛ ОГРН="1" ИНН="2" КПП="3" ДатаОГРН="2002-07-01" ДатаВып="2024-05-06" СтатусЮЛ="101"><СвНаим НаимПолн="ОБЩЕСТВО" НаимСокр="ООО"/><СвАдресЮЛ><АдресРФ Индекс="101000" КодРегион="77"/><Город НаименГор="МОСКВА"/></СвАдресЮЛ><СвУстКап СумКап="10000,50"/><СведДолжнФЛ><СвФЛ Фамилия="А" Имя="Б" Отчество="В" ИННФЛ="7"/><СвДолжн НаимДолжн="Директор"/></СведДолжнФЛ><СвОКВЭД><СвОКВЭДОсн КодОКВЭД="62.01" НаимОКВЭД="Код"/><СвОКВЭДДоп КодОКВЭД="62.02"/></СвОКВЭД><СвУчредит><УчрФЛ><СвФЛ Фамилия="Г" Имя="Д"/></УчрФЛ></СвУчредит><СвКонт E-mail="a@b.ru"/></СвЮЛ>"#;
    let records = EgrulXmlParser::new().parse(xml).unwrap();
    let json = LeJson {
        additional_activities: Some("[1]".to_string()),
        founders: Some("[2]".to_string()),
        history: Some("[3]".to_string()),
    };
    let row = egrul_row(&records[0], json);
    assert_eq!(row.ogrn, "1");
    assert_eq!(row.ogrn_date.as_deref(), Some("2002-07-01"));
    assert_eq!(row.inn, "2");
    assert_eq!(row.kpp.as_deref(), Some("3"));
    assert_eq!(row.full_name, "ОБЩЕСТВО");
    assert_eq!(row.short_name.as_deref(), Some("ООО"));
    assert_eq!(row.status.as_deref(), Some("unknown"));
    assert_eq!(row.status_code.as_deref(), Some("101"));
    assert_eq!(row.registration_date.as_deref(), Some("2002-07-01"));
    assert_eq!(row.termination_date, None);
    assert_eq!(row.postal_code.as_deref(), Some("101000"));
    assert_eq!(row.region_code.as_deref(), Some("77"));
    assert_eq!(row.city.as_deref(), Some("МОСКВА"));
    assert_eq!(row.full_address.as_deref(), Some("101000, г. МОСКВА"));
    assert_eq!(row.capital_amount.as_deref(), Some("10000.50"));
    assert_eq!(row.capital_currency.as_deref(), Some("рубль"));
    assert_eq!(row.head_name.as_deref(), Some("А Б В"));
    assert_eq!(row.head_inn.as_deref(), Some("7"));
    assert_eq!(row.head_middle_name.as_deref(), Some("В"));
    assert_eq!(row.head_position.as_deref(), Some("Директор"));
    assert_eq!(row.main_activity_code.as_deref(), Some("62.01"));
    assert_eq!(row.main_activity_name.as_deref(), Some("Код"));
    assert_eq!(row.additional_activities.as_deref(), Some("[1]"));
    assert_eq!(row.email.as_deref(), Some("a@b.ru"));
    assert_eq!(row.founders_count, 1);
    assert_eq!(row.founders.as_deref(), Some("[2]"));
    assert_eq!(row.history, None);
    assert_eq!(row.extract_date.as_deref(), Some("2024-05-06"));
}

#[test]
fn sp_row_follows_the_record() {
    let xml = r#"<СвИП ОГРНИП="3" ИНН="4" ДатаОГРНИП="2015-03-02"><СвФЛ Пол="1"><ФИОРус Фамилия="Б" Имя="В" Отчество="Г"/></СвФЛ><СвГражд ВидГражд="1" НаимСтран="РОССИЯ"/><СвЗапЕГРИП ГРНИП="9"/></СвИП>"#;
    let records = EgripXmlParser::new().parse(xml).unwrap();
    let json = SpJson { additional_activities: Some("[1]".to_string()), history: Some("[3]".to_string()) };
    let row = egrip_row(&records[0], json);
    assert_eq!(row.ogrnip, "3");
    assert_eq!(row.ogrnip_date.as_deref(), Some("2015-03-02"));
    assert_eq!(row.inn, "4");
    assert_eq!(row.last_name, "Б");
    assert_eq!(row.first_name, "В");
    assert_eq!(row.middle_name.as_deref(), Some("Г"));
    assert_eq!(row.full_name, "ИП Б В Г");
    assert_eq!(row.gender.as_deref(), Some("Мужской"));
    assert_eq!(row.citizenship.as_deref(), Some("РОССИЯ"));
    assert_eq!(row.status.as_deref(), Some("unknown"));
    assert_eq!(row.registration_date.as_deref(), Some("2015-03-02"));
    assert_eq!(row.postal_code, None);
    assert_eq!(row.additional_activities, None);
    assert_eq!(row.history.as_deref(), Some("[3]"));
}

#[test]
fn the_schemas_are_fixed() {
    let le = egrul_schema();
    assert_eq!(le.len(), 37);
    assert_eq!(le[0].name, "ogrn");
    assert!(!le[0].nullable);
    assert_eq!(le[23].name, "capital_amount");
    assert_eq!(le[23].kind, ColumnKind::Float);
    assert_eq!(le[33].name, "founders_count");
    assert_eq!(le[33].kind, ColumnKind::Int32);
    assert_eq!(le[36].name, "extract_date");
    let required: Vec<&str> = le.iter().filter(|c| !c.nullable).map(|c| c.name).collect();
    assert_eq!(required, vec!["ogrn", "inn", "full_name"]);
    let sp = egrip_schema();
    assert_eq!(sp.len(), 32);
    assert_eq!(sp[0].name, "ogrnip");
    assert_eq!(sp[31].name, "extract_date");
    assert!(sp.iter().all(|c| c.kind == ColumnKind::Text));
    let required: Vec<&str> = sp.iter().filter(|c| !c.nullable).map(|c| c.name).collect();
    assert_eq!(required, vec!["ogrnip", "inn", "last_name", "first_name", "full_name"]);
    let again: Vec<&str> = egrul_schema().iter().map(|c| c.name).collect();
    assert_eq!(again, le.iter().map(|c| c.name).collect::<Vec<&str>>());
}

#[test]
fn columns_of_dates_lists_and_counts() {
    assert_eq!(date_to_column(Some(Date { year: 2020, month: 1, day: 2 })).as_deref(), Some("2020-01-02"));
    assert_eq!(date_to_column(Some(Date { year: 2021, month: 2, day: 30 })), None);
    assert_eq!(date_to_column(None), None);
    assert_eq!(to_json_column(0, Some("[]".to_string())), None);
    assert_eq!(to_json_column(2, Some("[1,2]".to_string())).as_deref(), Some("[1,2]"));
    assert_eq!(to_json_column(2, None), None);
    assert_eq!(to_count_column(0), 0);
    assert_eq!(to_count_column(7), 7);
    assert_eq!(to_count_column(i32::MAX as usize), i32::MAX);
    assert_eq!(to_count_column(i32::MAX as usize + 1), i32::MIN);
    assert_eq!(to_count_column(u32::MAX as usize), -1);
    assert_eq!(to_count_column(u32::MAX as usize + 8), 7);
}

#[test]
fn json_framing() {
    assert_eq!(json_line("{}"), "{}\n");
    let (mut frame, mut text) = JsonArrayFrame::open();
    text.push_str(&frame.record("{\"a\":1}"));
    text.push_str(&frame.record("{\"a\":2}"));
    text.push_str(&frame.finish());
    assert_eq!(text, "[\n{\"a\":1},\n{\"a\":2}\n]\n");
    let (frame, mut text) = JsonArrayFrame::open();
    text.push_str(&frame.finish());
    assert_eq!(text, "[\n]\n");
    assert_eq!(json_array(&vec![]), "[\n]\n");
    assert_eq!(json_array(&vec!["1".to_string()]), "[\n1\n]\n");
    assert_eq!(json_array(&vec!["1".to_string(), "2".to_string(), "3".to_string()]), "[\n1,\n2,\n3\n]\n");
}

#[test]
fn rolling_all_batches_at_once() {
    let limits = FileLimits { max_file_size_mb: None, max_records_per_file: Some(4) };
    let stream: RollingStream<u8> = RollingStream::new(limits, 1);
    let files = stream.roll_all(vec![vec![1, 2], vec![], vec![3, 4], vec![5, 6], vec![7]]);
    let rows: Vec<Vec<u8>> = files.iter().map(|f| f.rows.clone()).collect();
    assert_eq!(rows, vec![vec![1, 2, 3, 4], vec![5, 6, 7]]);
    let indices: Vec<usize> = files.iter().map(|f| f.index).collect();
    assert_eq!(indices, vec![0, 1]);
    let stream: RollingStream<u8> = RollingStream::new(limits, 1);
    assert_eq!(stream.roll_all(vec![vec![], vec![]]).len(), 0);
    // seven rows one by one under a ceiling of three: ⌈7/3⌉ files
    let limits = FileLimits { max_file_size_mb: None, max_records_per_file: Some(3) };
    let stream: RollingStream<u8> = RollingStream::new(limits, 1);
    let files = stream.roll_all((1..=7).map(|r| vec![r]).collect());
    let rows: Vec<Vec<u8>> = files.iter().map(|f| f.rows.clone()).collect();
    assert_eq!(rows, vec![vec![1, 2, 3], vec![4, 5, 6], vec![7]]);
}

fn le(ogrn: &str) -> EgrulRecord {
    let mut r = EgrulRecord::new();
    r.ogrn = ogrn.to_string();
    r.additional_activities.push(Activity::new());
    r
}

fn sp(ogrnip: &str) -> EgripRecord {
    let mut r = EgripRecord::new();
    r.ogrnip = ogrnip.to_string();
    r
}

fn le_json(text: &str) -> LeJson {
    LeJson { additional_activities: Some(text.to_string()), founders: None, history: None }
}

#[test]
fn the_writer_names_the_files_of_each_stream() {
    let mut writer = ParquetOutputWriter::with_limits("out", None, Some(2));
    assert!(writer.write_egrul_batch(&[le("1")], vec![le_json("a")]).is_none());
    assert!(writer.write_egrul_batch(&[], vec![]).is_none());
    assert!(writer.write_egrip_batch(&[sp("7")], vec![]).is_none());
    let file = writer.write_egrul_batch(&[le("2"), le("3")], vec![le_json("b")]).unwrap();
    assert_eq!(file.name, "out_le.parquet");
    assert_eq!(file.index, 0);
    let rows: Vec<(&str, Option<&str>)> =
        file.rows.iter().map(|r| (r.ogrn.as_str(), r.additional_activities.as_deref())).collect();
    assert_eq!(rows, vec![("1", Some("a")), ("2", Some("b")), ("3", None)]);
    let file = writer.write_egrul_batch(&[le("4"), le("5")], vec![]).unwrap();
    assert_eq!(file.name, "out_le_part_002.parquet");
    assert!(writer.write_egrul_batch(&[le("6")], vec![]).is_none());
    let (le_file, sp_file) = writer.finish();
    let le_file = le_file.unwrap();
    assert_eq!(le_file.name, "out_le_part_003.parquet");
    assert_eq!(le_file.rows.len(), 1);
    let sp_file = sp_file.unwrap();
    assert_eq!(sp_file.name, "out_sp.parquet");
    assert_eq!(sp_file.rows[0].ogrnip, "7");

    let writer = ParquetOutputWriter::new("none");
    let (le_file, sp_file) = writer.finish();
    assert!(le_file.is_none());
    assert!(sp_file.is_none());
}
