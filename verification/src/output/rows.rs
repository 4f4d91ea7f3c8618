//! The layout of the two tables: their columns, and the row that a record
//! fills.

use crate::date::Date;
use crate::models::common::AddressView;
use crate::models::egrip::EgripRecord;
use crate::models::egrip::EgripRecordView;
use crate::models::egrul::EgrulRecord;
use crate::models::egrul::EgrulRecordView;
use crate::parser::egrul_parser::clone_text;
use crate::text::owned;
use chrono::NaiveDate;
use vstd::prelude::*;

verus! {

/// What a column holds.
#[derive(Debug, Clone, Copy, PartialEq, Eq, Structural)]
pub enum ColumnKind {
    /// Text in UTF-8.
    Text,
    /// A 64-bit floating-point number.
    Float,
    /// A 32-bit integer.
    Int32,
}

/// One column of a table.
#[derive(Debug, Clone, Copy)]
pub struct Column {
    pub name: &'static str,
    pub kind: ColumnKind,
    /// Whether a row may leave the column empty.
    pub nullable: bool,
}

pub struct ColumnView {
    pub name: Seq<char>,
    pub kind: ColumnKind,
    pub nullable: bool,
}

impl DeepView for Column {
    type V = ColumnView;

    open spec fn deep_view(&self) -> ColumnView {
        ColumnView { name: self.name@, kind: self.kind, nullable: self.nullable }
    }
}

/// The text that chrono writes for a date, `YYYY-MM-DD` for the years 0 to
/// 9999; none for a day that the calendar does not have.
pub uninterp spec fn date_text(date: Date) -> Option<Seq<char>>;

/// `NaiveDate::from_ymd_opt`, then the date's `to_string`.
#[verifier::external_body]
fn format_date(date: Date) -> (text: Option<String>)
    ensures
        text.deep_view() == date_text(date),
{
    NaiveDate::from_ymd_opt(date.year, date.month, date.day).map(|d| d.to_string())
}

/// A date as a column holds it.
pub open spec fn date_column(date: Option<Date>) -> Option<Seq<char>> {
    match date {
        Some(d) => date_text(d),
        None => None,
    }
}

/// Writes a date for a column.
pub fn date_to_column(date: Option<Date>) -> (r: Option<String>)
    ensures
        r.deep_view() == date_column(date),
{
    match date {
        Some(d) => format_date(d),
        None => None,
    }
}

/// A component of the address as a column holds it.
pub open spec fn address_column(
    address: Option<AddressView>,
    component: spec_fn(AddressView) -> Option<Seq<char>>,
) -> Option<Seq<char>> {
    match address {
        Some(a) => component(a),
        None => None,
    }
}

/// A list as a column holds it: its JSON form, and nothing for an empty
/// list.
pub open spec fn json_column(len: nat, json: Option<Seq<char>>) -> Option<Seq<char>> {
    if len == 0 {
        None
    } else {
        json
    }
}

/// Lays a list's JSON form into a column.
pub fn to_json_column(len: usize, json: Option<String>) -> (r: Option<String>)
    ensures
        r.deep_view() == json_column(len as nat, json.deep_view()),
{
    if len == 0 {
        None
    } else {
        json
    }
}

/// A count as a 32-bit column holds it: the low 32 bits of the count, read
/// as a signed number. A count of up to 2 147 483 647 is held as it is.
pub open spec fn count_column(len: nat) -> i32 {
    let low = len % 0x1_0000_0000;
    if low <= i32::MAX {
        low as i32
    } else {
        (low - 0x1_0000_0000) as i32
    }
}

/// A count that a 32-bit column can hold is held as it is; no founders
/// are a count of zero.
pub proof fn lemma_small_count_is_kept(len: nat)
    requires
        len <= i32::MAX,
    ensures
        count_column(len) == len,
{
}

/// Lays a count into a 32-bit column.
pub fn to_count_column(len: usize) -> (r: i32)
    ensures
        r == count_column(len as nat),
{
    let wide: u64 = len as u64;
    let low: u64 = wide % 0x1_0000_0000;
    if low <= 0x7FFF_FFFF {
        low as i32
    } else {
        let below: u64 = 0x1_0000_0000 - low;
        let negative: i64 = 0 - (below as i64);
        negative as i32
    }
}

/// The JSON forms of the lists of a legal entity's record.
pub struct LeJson {
    pub additional_activities: Option<String>,
    pub founders: Option<String>,
    pub history: Option<String>,
}

pub struct LeJsonView {
    pub additional_activities: Option<Seq<char>>,
    pub founders: Option<Seq<char>>,
    pub history: Option<Seq<char>>,
}

impl DeepView for LeJson {
    type V = LeJsonView;

    open spec fn deep_view(&self) -> LeJsonView {
        LeJsonView {
            additional_activities: self.additional_activities.deep_view(),
            founders: self.founders.deep_view(),
            history: self.history.deep_view(),
        }
    }
}

/// The JSON forms of the lists of a sole proprietor's record.
pub struct SpJson {
    pub additional_activities: Option<String>,
    pub history: Option<String>,
}

pub struct SpJsonView {
    pub additional_activities: Option<Seq<char>>,
    pub history: Option<Seq<char>>,
}

impl DeepView for SpJson {
    type V = SpJsonView;

    open spec fn deep_view(&self) -> SpJsonView {
        SpJsonView {
            additional_activities: self.additional_activities.deep_view(),
            history: self.history.deep_view(),
        }
    }
}

/// One row of the table of legal entities, column by column.
#[derive(Debug, Clone)]
pub struct EgrulRow {
    pub ogrn: String,
    pub ogrn_date: Option<String>,
    pub inn: String,
    pub kpp: Option<String>,
    pub full_name: String,
    pub short_name: Option<String>,
    pub status: Option<String>,
    pub status_code: Option<String>,
    pub registration_date: Option<String>,
    pub termination_date: Option<String>,
    pub postal_code: Option<String>,
    pub region_code: Option<String>,
    pub region: Option<String>,
    pub district: Option<String>,
    pub city: Option<String>,
    pub locality: Option<String>,
    pub street: Option<String>,
    pub house: Option<String>,
    pub building: Option<String>,
    pub flat: Option<String>,
    pub full_address: Option<String>,
    pub fias_id: Option<String>,
    pub kladr_code: Option<String>,
    /// The amount as the literal of a floating-point number.
    pub capital_amount: Option<String>,
    pub capital_currency: Option<String>,
    pub head_name: Option<String>,
    pub head_inn: Option<String>,
    pub head_middle_name: Option<String>,
    pub head_position: Option<String>,
    pub main_activity_code: Option<String>,
    pub main_activity_name: Option<String>,
    /// A JSON array.
    pub additional_activities: Option<String>,
    pub email: Option<String>,
    pub founders_count: i32,
    /// A JSON array.
    pub founders: Option<String>,
    /// A JSON array.
    pub history: Option<String>,
    pub extract_date: Option<String>,
}

pub struct EgrulRowView {
    pub ogrn: Seq<char>,
    pub ogrn_date: Option<Seq<char>>,
    pub inn: Seq<char>,
    pub kpp: Option<Seq<char>>,
    pub full_name: Seq<char>,
    pub short_name: Option<Seq<char>>,
    pub status: Option<Seq<char>>,
    pub status_code: Option<Seq<char>>,
    pub registration_date: Option<Seq<char>>,
    pub termination_date: Option<Seq<char>>,
    pub postal_code: Option<Seq<char>>,
    pub region_code: Option<Seq<char>>,
    pub region: Option<Seq<char>>,
    pub district: Option<Seq<char>>,
    pub city: Option<Seq<char>>,
    pub locality: Option<Seq<char>>,
    pub street: Option<Seq<char>>,
    pub house: Option<Seq<char>>,
    pub building: Option<Seq<char>>,
    pub flat: Option<Seq<char>>,
    pub full_address: Option<Seq<char>>,
    pub fias_id: Option<Seq<char>>,
    pub kladr_code: Option<Seq<char>>,
    pub capital_amount: Option<Seq<char>>,
    pub capital_currency: Option<Seq<char>>,
    pub head_name: Option<Seq<char>>,
    pub head_inn: Option<Seq<char>>,
    pub head_middle_name: Option<Seq<char>>,
    pub head_position: Option<Seq<char>>,
    pub main_activity_code: Option<Seq<char>>,
    pub main_activity_name: Option<Seq<char>>,
    pub additional_activities: Option<Seq<char>>,
    pub email: Option<Seq<char>>,
    pub founders_count: i32,
    pub founders: Option<Seq<char>>,
    pub history: Option<Seq<char>>,
    pub extract_date: Option<Seq<char>>,
}

impl DeepView for EgrulRow {
    type V = EgrulRowView;

    open spec fn deep_view(&self) -> EgrulRowView {
        EgrulRowView {
            ogrn: self.ogrn@,
            ogrn_date: self.ogrn_date.deep_view(),
            inn: self.inn@,
            kpp: self.kpp.deep_view(),
            full_name: self.full_name@,
            short_name: self.short_name.deep_view(),
            status: self.status.deep_view(),
            status_code: self.status_code.deep_view(),
            registration_date: self.registration_date.deep_view(),
            termination_date: self.termination_date.deep_view(),
            postal_code: self.postal_code.deep_view(),
            region_code: self.region_code.deep_view(),
            region: self.region.deep_view(),
            district: self.district.deep_view(),
            city: self.city.deep_view(),
            locality: self.locality.deep_view(),
            street: self.street.deep_view(),
            house: self.house.deep_view(),
            building: self.building.deep_view(),
            flat: self.flat.deep_view(),
            full_address: self.full_address.deep_view(),
            fias_id: self.fias_id.deep_view(),
            kladr_code: self.kladr_code.deep_view(),
            capital_amount: self.capital_amount.deep_view(),
            capital_currency: self.capital_currency.deep_view(),
            head_name: self.head_name.deep_view(),
            head_inn: self.head_inn.deep_view(),
            head_middle_name: self.head_middle_name.deep_view(),
            head_position: self.head_position.deep_view(),
            main_activity_code: self.main_activity_code.deep_view(),
            main_activity_name: self.main_activity_name.deep_view(),
            additional_activities: self.additional_activities.deep_view(),
            email: self.email.deep_view(),
            founders_count: self.founders_count,
            founders: self.founders.deep_view(),
            history: self.history.deep_view(),
            extract_date: self.extract_date.deep_view(),
        }
    }
}

/// One row of the table of sole proprietors, column by column.
#[derive(Debug, Clone)]
pub struct EgripRow {
    pub ogrnip: String,
    pub ogrnip_date: Option<String>,
    pub inn: String,
    pub last_name: String,
    pub first_name: String,
    pub middle_name: Option<String>,
    pub full_name: String,
    pub gender: Option<String>,
    pub citizenship: Option<String>,
    pub status: Option<String>,
    pub status_code: Option<String>,
    pub registration_date: Option<String>,
    pub termination_date: Option<String>,
    pub postal_code: Option<String>,
    pub region_code: Option<String>,
    pub region: Option<String>,
    pub district: Option<String>,
    pub city: Option<String>,
    pub locality: Option<String>,
    pub street: Option<String>,
    pub house: Option<String>,
    pub building: Option<String>,
    pub flat: Option<String>,
    pub full_address: Option<String>,
    pub fias_id: Option<String>,
    pub kladr_code: Option<String>,
    pub main_activity_code: Option<String>,
    pub main_activity_name: Option<String>,
    /// A JSON array.
    pub additional_activities: Option<String>,
    pub email: Option<String>,
    /// A JSON array.
    pub history: Option<String>,
    pub extract_date: Option<String>,
}

pub struct EgripRowView {
    pub ogrnip: Seq<char>,
    pub ogrnip_date: Option<Seq<char>>,
    pub inn: Seq<char>,
    pub last_name: Seq<char>,
    pub first_name: Seq<char>,
    pub middle_name: Option<Seq<char>>,
    pub full_name: Seq<char>,
    pub gender: Option<Seq<char>>,
    pub citizenship: Option<Seq<char>>,
    pub status: Option<Seq<char>>,
    pub status_code: Option<Seq<char>>,
    pub registration_date: Option<Seq<char>>,
    pub termination_date: Option<Seq<char>>,
    pub postal_code: Option<Seq<char>>,
    pub region_code: Option<Seq<char>>,
    pub region: Option<Seq<char>>,
    pub district: Option<Seq<char>>,
    pub city: Option<Seq<char>>,
    pub locality: Option<Seq<char>>,
    pub street: Option<Seq<char>>,
    pub house: Option<Seq<char>>,
    pub building: Option<Seq<char>>,
    pub flat: Option<Seq<char>>,
    pub full_address: Option<Seq<char>>,
    pub fias_id: Option<Seq<char>>,
    pub kladr_code: Option<Seq<char>>,
    pub main_activity_code: Option<Seq<char>>,
    pub main_activity_name: Option<Seq<char>>,
    pub additional_activities: Option<Seq<char>>,
    pub email: Option<Seq<char>>,
    pub history: Option<Seq<char>>,
    pub extract_date: Option<Seq<char>>,
}

impl DeepView for EgripRow {
    type V = EgripRowView;

    open spec fn deep_view(&self) -> EgripRowView {
        EgripRowView {
            ogrnip: self.ogrnip@,
            ogrnip_date: self.ogrnip_date.deep_view(),
            inn: self.inn@,
            last_name: self.last_name@,
            first_name: self.first_name@,
            middle_name: self.middle_name.deep_view(),
            full_name: self.full_name@,
            gender: self.gender.deep_view(),
            citizenship: self.citizenship.deep_view(),
            status: self.status.deep_view(),
            status_code: self.status_code.deep_view(),
            registration_date: self.registration_date.deep_view(),
            termination_date: self.termination_date.deep_view(),
            postal_code: self.postal_code.deep_view(),
            region_code: self.region_code.deep_view(),
            region: self.region.deep_view(),
            district: self.district.deep_view(),
            city: self.city.deep_view(),
            locality: self.locality.deep_view(),
            street: self.street.deep_view(),
            house: self.house.deep_view(),
            building: self.building.deep_view(),
            flat: self.flat.deep_view(),
            full_address: self.full_address.deep_view(),
            fias_id: self.fias_id.deep_view(),
            kladr_code: self.kladr_code.deep_view(),
            main_activity_code: self.main_activity_code.deep_view(),
            main_activity_name: self.main_activity_name.deep_view(),
            additional_activities: self.additional_activities.deep_view(),
            email: self.email.deep_view(),
            history: self.history.deep_view(),
            extract_date: self.extract_date.deep_view(),
        }
    }
}

/// The row that a record of a legal entity fills.
pub open spec fn egrul_row_of(r: EgrulRecordView, json: LeJsonView) -> EgrulRowView {
    EgrulRowView {
        ogrn: r.ogrn,
        ogrn_date: date_column(r.ogrn_date),
        inn: r.inn,
        kpp: r.kpp,
        full_name: r.full_name,
        short_name: r.short_name,
        status: Some(r.status.code()),
        status_code: r.status_code,
        registration_date: date_column(r.registration_date),
        termination_date: date_column(r.termination_date),
        postal_code: address_column(r.address, |a: AddressView| a.postal_code),
        region_code: address_column(r.address, |a: AddressView| a.region_code),
        region: address_column(r.address, |a: AddressView| a.region),
        district: address_column(r.address, |a: AddressView| a.district),
        city: address_column(r.address, |a: AddressView| a.city),
        locality: address_column(r.address, |a: AddressView| a.locality),
        street: address_column(r.address, |a: AddressView| a.street),
        house: address_column(r.address, |a: AddressView| a.house),
        building: address_column(r.address, |a: AddressView| a.building),
        flat: address_column(r.address, |a: AddressView| a.flat),
        full_address: address_column(r.address, |a: AddressView| a.full_address),
        fias_id: address_column(r.address, |a: AddressView| a.fias_id),
        kladr_code: address_column(r.address, |a: AddressView| a.kladr_code),
        capital_amount: match r.capital {
            Some(c) => Some(c.amount),
            None => None,
        },
        capital_currency: match r.capital {
            Some(c) => Some(c.currency),
            None => None,
        },
        head_name: match r.head {
            Some(h) => Some(h.person.full_name()),
            None => None,
        },
        head_inn: match r.head {
            Some(h) => h.person.inn,
            None => None,
        },
        head_middle_name: match r.head {
            Some(h) => h.person.middle_name,
            None => None,
        },
        head_position: match r.head {
            Some(h) => h.position,
            None => None,
        },
        main_activity_code: match r.main_activity {
            Some(a) => Some(a.code),
            None => None,
        },
        main_activity_name: match r.main_activity {
            Some(a) => Some(a.name),
            None => None,
        },
        additional_activities: json_column(r.additional_activities.len(), json.additional_activities),
        email: r.email,
        founders_count: count_column(r.founders.len()),
        founders: json_column(r.founders.len(), json.founders),
        history: json_column(r.history.len(), json.history),
        extract_date: date_column(r.extract_date),
    }
}

/// Lays a record out as a row.
pub fn egrul_row(record: &EgrulRecord, json: LeJson) -> (row: EgrulRow)
    ensures
        row.deep_view() == egrul_row_of(record.deep_view(), json.deep_view()),
{
    EgrulRow {
        ogrn: record.ogrn.clone(),
        ogrn_date: date_to_column(record.ogrn_date),
        inn: record.inn.clone(),
        kpp: clone_text(&record.kpp),
        full_name: record.full_name.clone(),
        short_name: clone_text(&record.short_name),
        status: Some(owned(record.status.as_code())),
        status_code: clone_text(&record.status_code),
        registration_date: date_to_column(record.registration_date),
        termination_date: date_to_column(record.termination_date),
        postal_code: match &record.address {
            Some(a) => clone_text(&a.postal_code),
            None => None,
        },
        region_code: match &record.address {
            Some(a) => clone_text(&a.region_code),
            None => None,
        },
        region: match &record.address {
            Some(a) => clone_text(&a.region),
            None => None,
        },
        district: match &record.address {
            Some(a) => clone_text(&a.district),
            None => None,
        },
        city: match &record.address {
            Some(a) => clone_text(&a.city),
            None => None,
        },
        locality: match &record.address {
            Some(a) => clone_text(&a.locality),
            None => None,
        },
        street: match &record.address {
            Some(a) => clone_text(&a.street),
            None => None,
        },
        house: match &record.address {
            Some(a) => clone_text(&a.house),
            None => None,
        },
        building: match &record.address {
            Some(a) => clone_text(&a.building),
            None => None,
        },
        flat: match &record.address {
            Some(a) => clone_text(&a.flat),
            None => None,
        },
        full_address: match &record.address {
            Some(a) => clone_text(&a.full_address),
            None => None,
        },
        fias_id: match &record.address {
            Some(a) => clone_text(&a.fias_id),
            None => None,
        },
        kladr_code: match &record.address {
            Some(a) => clone_text(&a.kladr_code),
            None => None,
        },
        capital_amount: match &record.capital {
            Some(c) => Some(c.amount.clone()),
            None => None,
        },
        capital_currency: match &record.capital {
            Some(c) => Some(c.currency.clone()),
            None => None,
        },
        head_name: match &record.head {
            Some(h) => Some(h.person.full_name()),
            None => None,
        },
        head_inn: match &record.head {
            Some(h) => clone_text(&h.person.inn),
            None => None,
        },
        head_middle_name: match &record.head {
            Some(h) => clone_text(&h.person.middle_name),
            None => None,
        },
        head_position: match &record.head {
            Some(h) => clone_text(&h.position),
            None => None,
        },
        main_activity_code: match &record.main_activity {
            Some(a) => Some(a.code.clone()),
            None => None,
        },
        main_activity_name: match &record.main_activity {
            Some(a) => Some(a.name.clone()),
            None => None,
        },
        additional_activities: to_json_column(record.additional_activities.len(), json.additional_activities),
        email: clone_text(&record.email),
        founders_count: to_count_column(record.founders.len()),
        founders: to_json_column(record.founders.len(), json.founders),
        history: to_json_column(record.history.len(), json.history),
        extract_date: date_to_column(record.extract_date),
    }
}

/// The row that a record of a sole proprietor fills.
pub open spec fn egrip_row_of(r: EgripRecordView, json: SpJsonView) -> EgripRowView {
    EgripRowView {
        ogrnip: r.ogrnip,
        ogrnip_date: date_column(r.ogrnip_date),
        inn: r.inn,
        last_name: r.person.last_name,
        first_name: r.person.first_name,
        middle_name: r.person.middle_name,
        full_name: "ИП "@ + r.person.full_name(),
        gender: match r.gender {
            Some(g) => Some(g.label()),
            None => None,
        },
        citizenship: match r.citizenship {
            Some(c) => c.country_name,
            None => None,
        },
        status: Some(r.status.code()),
        status_code: r.status_code,
        registration_date: date_column(r.registration_date),
        termination_date: date_column(r.termination_date),
        postal_code: address_column(r.address, |a: AddressView| a.postal_code),
        region_code: address_column(r.address, |a: AddressView| a.region_code),
        region: address_column(r.address, |a: AddressView| a.region),
        district: address_column(r.address, |a: AddressView| a.district),
        city: address_column(r.address, |a: AddressView| a.city),
        locality: address_column(r.address, |a: AddressView| a.locality),
        street: address_column(r.address, |a: AddressView| a.street),
        house: address_column(r.address, |a: AddressView| a.house),
        building: address_column(r.address, |a: AddressView| a.building),
        flat: address_column(r.address, |a: AddressView| a.flat),
        full_address: address_column(r.address, |a: AddressView| a.full_address),
        fias_id: address_column(r.address, |a: AddressView| a.fias_id),
        kladr_code: address_column(r.address, |a: AddressView| a.kladr_code),
        main_activity_code: match r.main_activity {
            Some(a) => Some(a.code),
            None => None,
        },
        main_activity_name: match r.main_activity {
            Some(a) => Some(a.name),
            None => None,
        },
        additional_activities: json_column(r.additional_activities.len(), json.additional_activities),
        email: r.email,
        history: json_column(r.history.len(), json.history),
        extract_date: date_column(r.extract_date),
    }
}

/// Lays a record out as a row.
pub fn egrip_row(record: &EgripRecord, json: SpJson) -> (row: EgripRow)
    ensures
        row.deep_view() == egrip_row_of(record.deep_view(), json.deep_view()),
{
    EgripRow {
        ogrnip: record.ogrnip.clone(),
        ogrnip_date: date_to_column(record.ogrnip_date),
        inn: record.inn.clone(),
        last_name: record.person.last_name.clone(),
        first_name: record.person.first_name.clone(),
        middle_name: clone_text(&record.person.middle_name),
        full_name: record.full_name(),
        gender: match &record.gender {
            Some(g) => Some(g.to_string()),
            None => None,
        },
        citizenship: match &record.citizenship {
            Some(c) => clone_text(&c.country_name),
            None => None,
        },
        status: Some(owned(record.status.as_code())),
        status_code: clone_text(&record.status_code),
        registration_date: date_to_column(record.registration_date),
        termination_date: date_to_column(record.termination_date),
        postal_code: match &record.address {
            Some(a) => clone_text(&a.postal_code),
            None => None,
        },
        region_code: match &record.address {
            Some(a) => clone_text(&a.region_code),
            None => None,
        },
        region: match &record.address {
            Some(a) => clone_text(&a.region),
            None => None,
        },
        district: match &record.address {
            Some(a) => clone_text(&a.district),
            None => None,
        },
        city: match &record.address {
            Some(a) => clone_text(&a.city),
            None => None,
        },
        locality: match &record.address {
            Some(a) => clone_text(&a.locality),
            None => None,
        },
        street: match &record.address {
            Some(a) => clone_text(&a.street),
            None => None,
        },
        house: match &record.address {
            Some(a) => clone_text(&a.house),
            None => None,
        },
        building: match &record.address {
            Some(a) => clone_text(&a.building),
            None => None,
        },
        flat: match &record.address {
            Some(a) => clone_text(&a.flat),
            None => None,
        },
        full_address: match &record.address {
            Some(a) => clone_text(&a.full_address),
            None => None,
        },
        fias_id: match &record.address {
            Some(a) => clone_text(&a.fias_id),
            None => None,
        },
        kladr_code: match &record.address {
            Some(a) => clone_text(&a.kladr_code),
            None => None,
        },
        main_activity_code: match &record.main_activity {
            Some(a) => Some(a.code.clone()),
            None => None,
        },
        main_activity_name: match &record.main_activity {
            Some(a) => Some(a.name.clone()),
            None => None,
        },
        additional_activities: to_json_column(record.additional_activities.len(), json.additional_activities),
        email: clone_text(&record.email),
        history: to_json_column(record.history.len(), json.history),
        extract_date: date_to_column(record.extract_date),
    }
}

/// The columns of the table of legal entities, in order.
pub open spec fn egrul_columns() -> Seq<ColumnView> {
    seq![
        ColumnView { name: "ogrn"@, kind: ColumnKind::Text, nullable: false },
        ColumnView { name: "ogrn_date"@, kind: ColumnKind::Text, nullable: true },
        ColumnView { name: "inn"@, kind: ColumnKind::Text, nullable: false },
        ColumnView { name: "kpp"@, kind: ColumnKind::Text, nullable: true },
        ColumnView { name: "full_name"@, kind: ColumnKind::Text, nullable: false },
        ColumnView { name: "short_name"@, kind: ColumnKind::Text, nullable: true },
        ColumnView { name: "status"@, kind: ColumnKind::Text, nullable: true },
        ColumnView { name: "status_code"@, kind: ColumnKind::Text, nullable: true },
        ColumnView { name: "registration_date"@, kind: ColumnKind::Text, nullable: true },
        ColumnView { name: "termination_date"@, kind: ColumnKind::Text, nullable: true },
        ColumnView { name: "postal_code"@, kind: ColumnKind::Text, nullable: true },
        ColumnView { name: "region_code"@, kind: ColumnKind::Text, nullable: true },
        ColumnView { name: "region"@, kind: ColumnKind::Text, nullable: true },
        ColumnView { name: "district"@, kind: ColumnKind::Text, nullable: true },
        ColumnView { name: "city"@, kind: ColumnKind::Text, nullable: true },
        ColumnView { name: "locality"@, kind: ColumnKind::Text, nullable: true },
        ColumnView { name: "street"@, kind: ColumnKind::Text, nullable: true },
        ColumnView { name: "house"@, kind: ColumnKind::Text, nullable: true },
        ColumnView { name: "building"@, kind: ColumnKind::Text, nullable: true },
        ColumnView { name: "flat"@, kind: ColumnKind::Text, nullable: true },
        ColumnView { name: "full_address"@, kind: ColumnKind::Text, nullable: true },
        ColumnView { name: "fias_id"@, kind: ColumnKind::Text, nullable: true },
        ColumnView { name: "kladr_code"@, kind: ColumnKind::Text, nullable: true },
        ColumnView { name: "capital_amount"@, kind: ColumnKind::Float, nullable: true },
        ColumnView { name: "capital_currency"@, kind: ColumnKind::Text, nullable: true },
        ColumnView { name: "head_name"@, kind: ColumnKind::Text, nullable: true },
        ColumnView { name: "head_inn"@, kind: ColumnKind::Text, nullable: true },
        ColumnView { name: "head_middle_name"@, kind: ColumnKind::Text, nullable: true },
        ColumnView { name: "head_position"@, kind: ColumnKind::Text, nullable: true },
        ColumnView { name: "main_activity_code"@, kind: ColumnKind::Text, nullable: true },
        ColumnView { name: "main_activity_name"@, kind: ColumnKind::Text, nullable: true },
        ColumnView { name: "additional_activities"@, kind: ColumnKind::Text, nullable: true },
        ColumnView { name: "email"@, kind: ColumnKind::Text, nullable: true },
        ColumnView { name: "founders_count"@, kind: ColumnKind::Int32, nullable: true },
        ColumnView { name: "founders"@, kind: ColumnKind::Text, nullable: true },
        ColumnView { name: "history"@, kind: ColumnKind::Text, nullable: true },
        ColumnView { name: "extract_date"@, kind: ColumnKind::Text, nullable: true },
    ]
}

/// The columns of the table of legal entities, in order.
pub fn egrul_schema() -> (columns: Vec<Column>)
    ensures
        columns.deep_view() == egrul_columns(),
{
    let mut columns: Vec<Column> = Vec::new();
    columns.push(Column { name: "ogrn", kind: ColumnKind::Text, nullable: false });
    columns.push(Column { name: "ogrn_date", kind: ColumnKind::Text, nullable: true });
    columns.push(Column { name: "inn", kind: ColumnKind::Text, nullable: false });
    columns.push(Column { name: "kpp", kind: ColumnKind::Text, nullable: true });
    columns.push(Column { name: "full_name", kind: ColumnKind::Text, nullable: false });
    columns.push(Column { name: "short_name", kind: ColumnKind::Text, nullable: true });
    columns.push(Column { name: "status", kind: ColumnKind::Text, nullable: true });
    columns.push(Column { name: "status_code", kind: ColumnKind::Text, nullable: true });
    columns.push(Column { name: "registration_date", kind: ColumnKind::Text, nullable: true });
    columns.push(Column { name: "termination_date", kind: ColumnKind::Text, nullable: true });
    columns.push(Column { name: "postal_code", kind: ColumnKind::Text, nullable: true });
    columns.push(Column { name: "region_code", kind: ColumnKind::Text, nullable: true });
    columns.push(Column { name: "region", kind: ColumnKind::Text, nullable: true });
    columns.push(Column { name: "district", kind: ColumnKind::Text, nullable: true });
    columns.push(Column { name: "city", kind: ColumnKind::Text, nullable: true });
    columns.push(Column { name: "locality", kind: ColumnKind::Text, nullable: true });
    columns.push(Column { name: "street", kind: ColumnKind::Text, nullable: true });
    columns.push(Column { name: "house", kind: ColumnKind::Text, nullable: true });
    columns.push(Column { name: "building", kind: ColumnKind::Text, nullable: true });
    columns.push(Column { name: "flat", kind: ColumnKind::Text, nullable: true });
    columns.push(Column { name: "full_address", kind: ColumnKind::Text, nullable: true });
    columns.push(Column { name: "fias_id", kind: ColumnKind::Text, nullable: true });
    columns.push(Column { name: "kladr_code", kind: ColumnKind::Text, nullable: true });
    columns.push(Column { name: "capital_amount", kind: ColumnKind::Float, nullable: true });
    columns.push(Column { name: "capital_currency", kind: ColumnKind::Text, nullable: true });
    columns.push(Column { name: "head_name", kind: ColumnKind::Text, nullable: true });
    columns.push(Column { name: "head_inn", kind: ColumnKind::Text, nullable: true });
    columns.push(Column { name: "head_middle_name", kind: ColumnKind::Text, nullable: true });
    columns.push(Column { name: "head_position", kind: ColumnKind::Text, nullable: true });
    columns.push(Column { name: "main_activity_code", kind: ColumnKind::Text, nullable: true });
    columns.push(Column { name: "main_activity_name", kind: ColumnKind::Text, nullable: true });
    columns.push(Column { name: "additional_activities", kind: ColumnKind::Text, nullable: true });
    columns.push(Column { name: "email", kind: ColumnKind::Text, nullable: true });
    columns.push(Column { name: "founders_count", kind: ColumnKind::Int32, nullable: true });
    columns.push(Column { name: "founders", kind: ColumnKind::Text, nullable: true });
    columns.push(Column { name: "history", kind: ColumnKind::Text, nullable: true });
    columns.push(Column { name: "extract_date", kind: ColumnKind::Text, nullable: true });
    assert(columns.deep_view() =~= egrul_columns());
    columns
}

/// The columns of the table of sole proprietors, in order.
pub open spec fn egrip_columns() -> Seq<ColumnView> {
    seq![
        ColumnView { name: "ogrnip"@, kind: ColumnKind::Text, nullable: false },
        ColumnView { name: "ogrnip_date"@, kind: ColumnKind::Text, nullable: true },
        ColumnView { name: "inn"@, kind: ColumnKind::Text, nullable: false },
        ColumnView { name: "last_name"@, kind: ColumnKind::Text, nullable: false },
        ColumnView { name: "first_name"@, kind: ColumnKind::Text, nullable: false },
        ColumnView { name: "middle_name"@, kind: ColumnKind::Text, nullable: true },
        ColumnView { name: "full_name"@, kind: ColumnKind::Text, nullable: false },
        ColumnView { name: "gender"@, kind: ColumnKind::Text, nullable: true },
        ColumnView { name: "citizenship"@, kind: ColumnKind::Text, nullable: true },
        ColumnView { name: "status"@, kind: ColumnKind::Text, nullable: true },
        ColumnView { name: "status_code"@, kind: ColumnKind::Text, nullable: true },
        ColumnView { name: "registration_date"@, kind: ColumnKind::Text, nullable: true },
        ColumnView { name: "termination_date"@, kind: ColumnKind::Text, nullable: true },
        ColumnView { name: "postal_code"@, kind: ColumnKind::Text, nullable: true },
        ColumnView { name: "region_code"@, kind: ColumnKind::Text, nullable: true },
        ColumnView { name: "region"@, kind: ColumnKind::Text, nullable: true },
        ColumnView { name: "district"@, kind: ColumnKind::Text, nullable: true },
        ColumnView { name: "city"@, kind: ColumnKind::Text, nullable: true },
        ColumnView { name: "locality"@, kind: ColumnKind::Text, nullable: true },
        ColumnView { name: "street"@, kind: ColumnKind::Text, nullable: true },
        ColumnView { name: "house"@, kind: ColumnKind::Text, nullable: true },
        ColumnView { name: "building"@, kind: ColumnKind::Text, nullable: true },
        ColumnView { name: "flat"@, kind: ColumnKind::Text, nullable: true },
        ColumnView { name: "full_address"@, kind: ColumnKind::Text, nullable: true },
        ColumnView { name: "fias_id"@, kind: ColumnKind::Text, nullable: true },
        ColumnView { name: "kladr_code"@, kind: ColumnKind::Text, nullable: true },
        ColumnView { name: "main_activity_code"@, kind: ColumnKind::Text, nullable: true },
        ColumnView { name: "main_activity_name"@, kind: ColumnKind::Text, nullable: true },
        ColumnView { name: "additional_activities"@, kind: ColumnKind::Text, nullable: true },
        ColumnView { name: "email"@, kind: ColumnKind::Text, nullable: true },
        ColumnView { name: "history"@, kind: ColumnKind::Text, nullable: true },
        ColumnView { name: "extract_date"@, kind: ColumnKind::Text, nullable: true },
    ]
}

/// The columns of the table of sole proprietors, in order.
pub fn egrip_schema() -> (columns: Vec<Column>)
    ensures
        columns.deep_view() == egrip_columns(),
{
    let mut columns: Vec<Column> = Vec::new();
    columns.push(Column { name: "ogrnip", kind: ColumnKind::Text, nullable: false });
    columns.push(Column { name: "ogrnip_date", kind: ColumnKind::Text, nullable: true });
    columns.push(Column { name: "inn", kind: ColumnKind::Text, nullable: false });
    columns.push(Column { name: "last_name", kind: ColumnKind::Text, nullable: false });
    columns.push(Column { name: "first_name", kind: ColumnKind::Text, nullable: false });
    columns.push(Column { name: "middle_name", kind: ColumnKind::Text, nullable: true });
    columns.push(Column { name: "full_name", kind: ColumnKind::Text, nullable: false });
    columns.push(Column { name: "gender", kind: ColumnKind::Text, nullable: true });
    columns.push(Column { name: "citizenship", kind: ColumnKind::Text, nullable: true });
    columns.push(Column { name: "status", kind: ColumnKind::Text, nullable: true });
    columns.push(Column { name: "status_code", kind: ColumnKind::Text, nullable: true });
    columns.push(Column { name: "registration_date", kind: ColumnKind::Text, nullable: true });
    columns.push(Column { name: "termination_date", kind: ColumnKind::Text, nullable: true });
    columns.push(Column { name: "postal_code", kind: ColumnKind::Text, nullable: true });
    columns.push(Column { name: "region_code", kind: ColumnKind::Text, nullable: true });
    columns.push(Column { name: "region", kind: ColumnKind::Text, nullable: true });
    columns.push(Column { name: "district", kind: ColumnKind::Text, nullable: true });
    columns.push(Column { name: "city", kind: ColumnKind::Text, nullable: true });
    columns.push(Column { name: "locality", kind: ColumnKind::Text, nullable: true });
    columns.push(Column { name: "street", kind: ColumnKind::Text, nullable: true });
    columns.push(Column { name: "house", kind: ColumnKind::Text, nullable: true });
    columns.push(Column { name: "building", kind: ColumnKind::Text, nullable: true });
    columns.push(Column { name: "flat", kind: ColumnKind::Text, nullable: true });
    columns.push(Column { name: "full_address", kind: ColumnKind::Text, nullable: true });
    columns.push(Column { name: "fias_id", kind: ColumnKind::Text, nullable: true });
    columns.push(Column { name: "kladr_code", kind: ColumnKind::Text, nullable: true });
    columns.push(Column { name: "main_activity_code", kind: ColumnKind::Text, nullable: true });
    columns.push(Column { name: "main_activity_name", kind: ColumnKind::Text, nullable: true });
    columns.push(Column { name: "additional_activities", kind: ColumnKind::Text, nullable: true });
    columns.push(Column { name: "email", kind: ColumnKind::Text, nullable: true });
    columns.push(Column { name: "history", kind: ColumnKind::Text, nullable: true });
    columns.push(Column { name: "extract_date", kind: ColumnKind::Text, nullable: true });
    assert(columns.deep_view() =~= egrip_columns());
    columns
}


} // verus!
