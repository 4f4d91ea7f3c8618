//! The extractor for sole proprietors.

use crate::error::Error;
use crate::models::common::Address;
use crate::models::common::AddressView;
use crate::models::common::HistoryRecord;
use crate::models::common::HistoryRecordView;
use crate::models::common::PensionFund;
use crate::models::common::Person;
use crate::models::common::PersonView;
use crate::models::common::RegistrationAuthorityView;
use crate::models::common::SocialInsurance;
use crate::models::common::TaxAuthority;
use crate::models::egrip::CitizenshipInfo;
use crate::models::egrip::CitizenshipInfoView;
use crate::models::egrip::CitizenshipType;
use crate::models::egrip::EgripRecord;
use crate::models::egrip::EgripRecordView;
use crate::models::egrip::Gender;
use crate::models::egrip::IpRegistrationInfo;
use crate::models::egrip::IpRegistrationInfoView;
use crate::parser::attributes::or_else;
use crate::parser::attributes::or_empty;
use crate::parser::blocks::address_of;
use crate::parser::blocks::apply_region_fallback;
use crate::parser::blocks::authority_address;
use crate::parser::blocks::authority_code;
use crate::parser::blocks::code_of;
use crate::parser::blocks::authority_of;
use crate::parser::blocks::element_at;
use crate::parser::blocks::fill;
use crate::parser::blocks::fill_date;
use crate::parser::blocks::fill_person;
use crate::parser::blocks::fill_text;
use crate::parser::blocks::keep_person;
use crate::parser::blocks::keep_text;
use crate::parser::blocks::parse_authority;
use crate::parser::blocks::pension_fund_of;
use crate::parser::blocks::region_code_from_tax_code;
use crate::parser::blocks::region_code_of;
use crate::parser::blocks::social_insurance_of;
use crate::parser::blocks::stay_open;
use crate::parser::blocks::tax_authority_of;
use crate::parser::blocks::with_activity;
use crate::parser::blocks::with_region_fallback;
use crate::parser::blocks::Activities;
use crate::parser::blocks::ActivitiesView;
use crate::parser::blocks::HistoryBlock;
use crate::parser::blocks::InsuranceBlock;
use crate::parser::blocks::Nothing;
use crate::parser::blocks::OkvedBlock;
use crate::parser::blocks::PensionBlock;
use crate::parser::blocks::Skipped;
use crate::parser::blocks::TaxBlock;
use crate::parser::egrul_parser::join_kind_and_name;
use crate::parser::egrul_parser::kind_and_name;
use crate::parser::walker::walk;
use crate::parser::walker::Walked;
use crate::parser::walker::walk_block;
use crate::parser::walker::Block;
use crate::parser::walker::OpenStep;
use crate::parser::walker::Opened;
use crate::text::concat3;
use crate::parser::blocks::lemma_found;
use crate::xml::element_end;
use crate::xml::element_extent;
use crate::xml::EventReader;
use vstd::slice::slice_subrange;
use crate::xml::xml_events;
use crate::xml::ElementView;
use crate::xml::EventView;
use crate::xml::XmlElement;
use crate::xml::XmlEvent;
use vstd::prelude::*;

verus! {

/// Marks the walk over the block that holds a proprietor's name.
pub struct PersonBlock;

/// What a tag inside the block adds: the name.
pub open spec fn with_person_name(acc: PersonView, e: ElementView) -> PersonView {
    if e.is_tag("ФИОРус"@) || e.is_tag("ФИО"@) {
        keep_person(acc, e)
    } else {
        acc
    }
}

/// Takes in the name that a tag inside the person's block gives.
pub fn add_person_name(person: &mut Person, e: &XmlElement)
    ensures
        final(person).deep_view() == with_person_name(old(person).deep_view(), e.deep_view()),
{
    if e.is_tag("ФИОРус") || e.is_tag("ФИО") {
        fill_person(person, e);
    }
}

impl Block<PersonBlock> for Person {
    open spec fn opened(acc: PersonView, events: Seq<EventView>, pos: int) -> Opened<PersonView> {
        stay_open(with_person_name(acc, element_at(events, pos)), pos)
    }

    open spec fn leaf(acc: PersonView, e: ElementView) -> PersonView {
        with_person_name(acc, e)
    }

    fn open(&mut self, events: &[XmlEvent], pos: usize) -> (step: OpenStep) {
        assert(events.deep_view()[pos as int] == events[pos as int].deep_view());
        match &events[pos] {
            XmlEvent::Start(e) => add_person_name(self, e),
            _ => {},
        }
        OpenStep { next: pos + 1, nested: true, ok: true }
    }

    fn close_leaf(&mut self, e: &XmlElement) {
        add_person_name(self, e)
    }
}

/// The citizenship that a tag states. Where no kind is given, it is
/// Russian.
pub open spec fn citizenship_of(e: ElementView) -> CitizenshipInfoView {
    CitizenshipInfoView {
        citizenship_type: match e.attr("ВидГражд"@) {
            Some(code) => CitizenshipType::of_code(code),
            None => CitizenshipType::Russian,
        },
        country_code: e.attr("ОКСМ"@),
        country_name: e.attr("НаимСтран"@),
    }
}

/// Reads the citizenship from a tag.
pub fn parse_citizenship(e: &XmlElement) -> (r: CitizenshipInfo)
    ensures
        r.deep_view() == citizenship_of(e.deep_view()),
{
    let citizenship_type = match e.get_attr("ВидГражд") {
        Some(code) => CitizenshipType::from_code(code.as_str()),
        None => CitizenshipType::Russian,
    };
    CitizenshipInfo {
        citizenship_type,
        country_code: e.get_attr("ОКСМ"),
        country_name: e.get_attr("НаимСтран"),
    }
}

/// The gender that a code states, if there is a code.
pub open spec fn gender_of(code: Option<Seq<char>>) -> Option<Gender> {
    match code {
        Some(c) => Some(Gender::of_code(c)),
        None => None,
    }
}

/// Reads a gender from an optional code.
pub fn parse_gender(code: Option<String>) -> (r: Option<Gender>)
    ensures
        r == gender_of(code.deep_view()),
{
    match code {
        Some(c) => Some(Gender::from_code(c.as_str())),
        None => None,
    }
}

/// Sets the gender unless it is set already.
pub fn fill_gender(field: &mut Option<Gender>, value: Option<Gender>)
    ensures
        *final(field) == or_else(*old(field), value),
{
    if field.is_none() {
        *field = value;
    }
}

/// Marks the walk over the address block of a sole proprietor.
pub struct SpAddress;

/// A flat with a room added: both, separated by a comma, where both are
/// known.
pub open spec fn flat_with_room(flat: Option<Seq<char>>, room: Option<Seq<char>>) -> Option<
    Seq<char>,
> {
    match (flat, room) {
        (Some(f), Some(r)) => Some(f + ", "@ + r),
        (None, Some(r)) => Some(r),
        (_, None) => flat,
    }
}

/// Adds a room to a flat.
pub fn add_room(flat: &mut Option<String>, room: Option<String>)
    ensures
        final(flat).deep_view() == flat_with_room(old(flat).deep_view(), room.deep_view()),
{
    match room {
        Some(r) => {
            let joined = match flat.take() {
                Some(f) => concat3(f.as_str(), ", ", r.as_str()),
                None => r,
            };
            *flat = Some(joined);
        },
        None => {},
    }
}

/// What the name of a tag inside the address block adds. Every component
/// keeps the first value it was given, except that a room is added to the
/// flat.
pub open spec fn with_sp_address_name(acc: AddressView, e: ElementView) -> AddressView {
    if e.is_tag("АдресРФ"@) {
        AddressView {
            postal_code: or_else(acc.postal_code, e.attr("Индекс"@)),
            region_code: or_else(acc.region_code, e.attr("КодРегион"@)),
            kladr_code: or_else(acc.kladr_code, e.attr2("КодАдрКладр"@, "КодКладр"@)),
            ..acc
        }
    } else if e.is_tag("Регион"@) {
        AddressView {
            region: or_else(acc.region, e.attr3("НаимРегион"@, "Наименов"@, "Наименование"@)),
            region_code: or_else(acc.region_code, e.attr("Код"@)),
            ..acc
        }
    } else if e.is_tag("МуниципРайон"@) {
        AddressView { district: or_else(acc.district, e.attr2("Наим"@, "Наименов"@)), ..acc }
    } else if e.is_tag("Район"@) {
        AddressView {
            district: or_else(acc.district, e.attr3("НаимРайон"@, "Наименов"@, "Наименование"@)),
            ..acc
        }
    } else if e.is_tag("Город"@) {
        AddressView {
            city: or_else(
                acc.city,
                e.attr4("НаимГород"@, "НаименГор"@, "Наименов"@, "Наименование"@),
            ),
            ..acc
        }
    } else if e.is_tag("НаселенПункт"@) || e.is_tag("НаселПункт"@) {
        AddressView {
            locality: or_else(
                acc.locality,
                e.attr4("НаименНП"@, "Наим"@, "Наименов"@, "Наименование"@),
            ),
            ..acc
        }
    } else if e.is_tag("Улица"@) {
        AddressView {
            street: or_else(
                acc.street,
                kind_and_name(
                    e.attr2("ТипУлица"@, "Тип"@),
                    e.attr3("НаимУлица"@, "Наименов"@, "Наименование"@),
                    " "@,
                ),
            ),
            ..acc
        }
    } else if e.is_tag("ЭлУлДорСети"@) {
        AddressView {
            street: or_else(acc.street, kind_and_name(e.attr("Тип"@), e.attr("Наим"@), " "@)),
            ..acc
        }
    } else if e.is_tag("Здание"@) {
        AddressView {
            house: or_else(acc.house, kind_and_name(e.attr("Тип"@), e.attr("Номер"@), ""@)),
            ..acc
        }
    } else if e.is_tag("ПомещЗдания"@) {
        AddressView {
            flat: or_else(acc.flat, kind_and_name(e.attr("Тип"@), e.attr("Номер"@), ""@)),
            ..acc
        }
    } else if e.is_tag("ПомещКвартиры"@) {
        AddressView {
            flat: flat_with_room(acc.flat, kind_and_name(e.attr("Тип"@), e.attr("Номер"@), ""@)),
            ..acc
        }
    } else {
        acc
    }
}

/// What a tag inside the address block adds: what its name stands for, and
/// the house, building, flat and address identifier that any tag may carry.
pub open spec fn with_sp_address_part(acc: AddressView, e: ElementView) -> AddressView {
    let named = with_sp_address_name(acc, e);
    AddressView {
        house: or_else(named.house, e.attr("Дом"@)),
        building: or_else(named.building, e.attr2("Корп"@, "Корпус"@)),
        flat: or_else(named.flat, e.attr2("Кварт"@, "Квартира"@)),
        fias_id: or_else(named.fias_id, e.attr2("ИдНом"@, "ФИАС"@)),
        ..named
    }
}

/// Takes into a proprietor's address what the name of a tag stands for.
fn process_address_name_ip(address: &mut Address, e: &XmlElement)
    ensures
        final(address).deep_view() == with_sp_address_name(old(address).deep_view(), e.deep_view()),
{
    if e.is_tag("АдресРФ") {
        fill(&mut address.postal_code, e.get_attr("Индекс"));
        fill(&mut address.region_code, e.get_attr("КодРегион"));
        fill(&mut address.kladr_code, e.get_attr2("КодАдрКладр", "КодКладр"));
    } else if e.is_tag("Регион") {
        fill(&mut address.region, e.get_attr3("НаимРегион", "Наименов", "Наименование"));
        fill(&mut address.region_code, e.get_attr("Код"));
    } else if e.is_tag("МуниципРайон") {
        fill(&mut address.district, e.get_attr2("Наим", "Наименов"));
    } else if e.is_tag("Район") {
        fill(&mut address.district, e.get_attr3("НаимРайон", "Наименов", "Наименование"));
    } else if e.is_tag("Город") {
        fill(&mut address.city, e.get_attr4("НаимГород", "НаименГор", "Наименов", "Наименование"));
    } else if e.is_tag("НаселенПункт") || e.is_tag("НаселПункт") {
        fill(&mut address.locality, e.get_attr4("НаименНП", "Наим", "Наименов", "Наименование"));
    } else if e.is_tag("Улица") {
        let kind = e.get_attr2("ТипУлица", "Тип");
        let name = e.get_attr3("НаимУлица", "Наименов", "Наименование");
        fill(&mut address.street, join_kind_and_name(kind, name, " "));
    } else if e.is_tag("ЭлУлДорСети") {
        let kind = e.get_attr("Тип");
        let name = e.get_attr("Наим");
        fill(&mut address.street, join_kind_and_name(kind, name, " "));
    } else if e.is_tag("Здание") {
        let kind = e.get_attr("Тип");
        let number = e.get_attr("Номер");
        fill(&mut address.house, join_kind_and_name(kind, number, ""));
    } else if e.is_tag("ПомещЗдания") {
        let kind = e.get_attr("Тип");
        let number = e.get_attr("Номер");
        fill(&mut address.flat, join_kind_and_name(kind, number, ""));
    } else if e.is_tag("ПомещКвартиры") {
        let kind = e.get_attr("Тип");
        let number = e.get_attr("Номер");
        add_room(&mut address.flat, join_kind_and_name(kind, number, ""));
    }
}

/// Takes into a proprietor's address what a tag inside the address block
/// says.
pub fn process_address_element_ip(address: &mut Address, e: &XmlElement)
    ensures
        final(address).deep_view() == with_sp_address_part(old(address).deep_view(), e.deep_view()),
{
    process_address_name_ip(address, e);
    fill(&mut address.house, e.get_attr("Дом"));
    fill(&mut address.building, e.get_attr2("Корп", "Корпус"));
    fill(&mut address.flat, e.get_attr2("Кварт", "Квартира"));
    fill(&mut address.fias_id, e.get_attr2("ИдНом", "ФИАС"));
}

impl Block<SpAddress> for Address {
    open spec fn opened(acc: AddressView, events: Seq<EventView>, pos: int) -> Opened<AddressView> {
        stay_open(with_sp_address_part(acc, element_at(events, pos)), pos)
    }

    open spec fn leaf(acc: AddressView, e: ElementView) -> AddressView {
        with_sp_address_part(acc, e)
    }

    fn open(&mut self, events: &[XmlEvent], pos: usize) -> (step: OpenStep) {
        assert(events.deep_view()[pos as int] == events[pos as int].deep_view());
        match &events[pos] {
            XmlEvent::Start(e) => process_address_element_ip(self, e),
            _ => {},
        }
        OpenStep { next: pos + 1, nested: true, ok: true }
    }

    fn close_leaf(&mut self, e: &XmlElement) {
        process_address_element_ip(self, e)
    }
}

/// Marks the walk over the content of one sole proprietor's record.
pub struct SpBody;

/// The record as far as its own tag describes it.
pub open spec fn sp_record_start(e: ElementView) -> EgripRecordView {
    EgripRecordView {
        ogrnip: or_empty(e.attr("ОГРНИП"@)),
        ogrnip_date: e.date_attr2("ДатаОГРНИП"@, "ДатаРег"@),
        inn: or_empty(e.attr2("ИННФЛ"@, "ИНН"@)),
        extract_date: e.date_attr("ДатаВып"@),
        status_code: e.attr("Статус"@),
        ..EgripRecordView::empty()
    }
}

/// The record's activities as one value.
pub open spec fn sp_activities(acc: EgripRecordView) -> ActivitiesView {
    ActivitiesView { main: acc.main_activity, additional: acc.additional_activities }
}

/// What a block's own tag adds to the record where the tag closes itself,
/// so that the block has no content: the address, the registrations and the
/// history row as their tags alone describe them.
pub open spec fn sp_closed_block(acc: EgripRecordView, e: ElementView) -> EgripRecordView {
    if e.is_tag("СвАдрМЖ"@) || e.is_tag("СвАдрес"@) {
        EgripRecordView { address: Some(sp_address_start(acc.address, e).completed()), ..acc }
    } else if e.is_tag("СвРегОрг"@) || e.is_tag("СвГосРег"@) {
        with_sp_registration(acc, e)
    } else if e.is_tag("СвУчетНО"@) || e.is_tag("СвНалУч"@) {
        EgripRecordView {
            tax_authority: or_else(acc.tax_authority, Some(tax_authority_of(e))),
            ..acc
        }
    } else if e.is_tag("СвРегПФ"@) {
        EgripRecordView { pension_fund: or_else(acc.pension_fund, Some(pension_fund_of(e))), ..acc }
    } else if e.is_tag("СвРегФСС"@) {
        EgripRecordView {
            social_insurance: or_else(acc.social_insurance, Some(social_insurance_of(e))),
            ..acc
        }
    } else if e.is_tag("СвЗапись"@) || e.is_tag("СвЗапЕГРИП"@) {
        EgripRecordView { history: acc.history.push(sp_history_start(e)), ..acc }
    } else {
        acc
    }
}

/// What the attributes of a tag inside the record add to it, whether the
/// tag is self-closing or opens an element that has no parser of its own.
pub open spec fn sp_leaf(acc: EgripRecordView, e: ElementView) -> EgripRecordView {
    if e.is_tag("СвФЛ"@) {
        EgripRecordView {
            gender: or_else(acc.gender, gender_of(e.attr("Пол"@))),
            person: keep_person(acc.person, e),
            ..acc
        }
    } else if e.is_tag("ФИОРус"@) || e.is_tag("ФИОИП"@) || e.is_tag("ФИО"@) {
        EgripRecordView { person: keep_person(acc.person, e), ..acc }
    } else if e.is_tag("СвРегИП"@) {
        EgripRecordView {
            ogrnip: keep_text(acc.ogrnip, e.attr("ОГРНИП"@)),
            ogrnip_date: or_else(acc.ogrnip_date, e.date_attr("ДатаОГРНИП"@)),
            ..acc
        }
    } else if e.is_tag("Пол"@) {
        EgripRecordView {
            gender: or_else(acc.gender, gender_of(e.attr2("КодПол"@, "Пол"@))),
            ..acc
        }
    } else if e.is_tag("СвГражд"@) || e.is_tag("Гражданство"@) {
        EgripRecordView { citizenship: or_else(acc.citizenship, Some(citizenship_of(e))), ..acc }
    } else if e.is_tag("СвСтатус"@) {
        EgripRecordView {
            status_code: or_else(acc.status_code, e.attr("КодСтатус"@)),
            termination_date: or_else(acc.termination_date, e.date_attr("ДатаПрекращ"@)),
            ..acc
        }
    } else if e.is_tag("СвОКВЭДОсн"@) || e.is_tag("СвОКВЭДДоп"@) {
        let a = with_activity(sp_activities(acc), e);
        EgripRecordView { main_activity: a.main, additional_activities: a.additional, ..acc }
    } else if e.is_tag("СведКонт"@) || e.is_tag("Контакт"@) {
        EgripRecordView { email: or_else(acc.email, e.attr("E-mail"@)), ..acc }
    } else if e.is_tag("СвПрекр"@) {
        EgripRecordView {
            termination_date: or_else(acc.termination_date, e.date_attr2("ДатаПрекр"@, "Дата"@)),
            termination_method: or_else(acc.termination_method, e.attr("СпосПрекр"@)),
            ..acc
        }
    } else {
        sp_closed_block(acc, e)
    }
}

/// The block of the natural person: the gender from its own tag, the name
/// from inside it.
pub open spec fn sp_open_person(acc: EgripRecordView, events: Seq<EventView>, pos: int) -> Opened<
    EgripRecordView,
> {
    let e = element_at(events, pos);
    let w = walk::<PersonBlock, Person>(acc.person, events, pos + 1, 0);
    Opened {
        acc: EgripRecordView {
            gender: or_else(acc.gender, gender_of(e.attr("Пол"@))),
            person: w.acc,
            ..acc
        },
        next: w.next,
        nested: false,
        ok: w.ok,
    }
}

/// A name given directly in the record: the name from the tag, whose
/// content is passed over.
pub open spec fn sp_open_name(acc: EgripRecordView, events: Seq<EventView>, pos: int) -> Opened<
    EgripRecordView,
> {
    let w = walk::<Skipped, Nothing>((), events, pos + 1, 0);
    Opened {
        acc: EgripRecordView { person: keep_person(acc.person, element_at(events, pos)), ..acc },
        next: w.next,
        nested: false,
        ok: w.ok,
    }
}

/// The address with which the walk over a proprietor's address block
/// starts: the record's address so far, or an empty one, with the region
/// code and the one-line form that the block's own tag gives, the latter
/// kept as it is written.
pub open spec fn sp_address_start(address: Option<AddressView>, e: ElementView) -> AddressView {
    let a = match address {
        Some(a) => a,
        None => AddressView::empty(),
    };
    AddressView {
        region_code: or_else(a.region_code, e.attr("КодРегион"@)),
        full_address: or_else(a.full_address, e.attr("Адрес"@)),
        ..a
    }
}

/// The address block: its components are taken into the record's address,
/// and the one-line form is composed if the block gave none.
pub open spec fn sp_open_address(acc: EgripRecordView, events: Seq<EventView>, pos: int) -> Opened<
    EgripRecordView,
> {
    let w = walk::<SpAddress, Address>(
        sp_address_start(acc.address, element_at(events, pos)),
        events,
        pos + 1,
        0,
    );
    Opened {
        acc: EgripRecordView { address: Some(w.acc.completed()), ..acc },
        next: w.next,
        nested: false,
        ok: w.ok,
    }
}

/// The block of activities.
pub open spec fn sp_open_okved(acc: EgripRecordView, events: Seq<EventView>, pos: int) -> Opened<
    EgripRecordView,
> {
    let w = walk::<OkvedBlock, Activities>(sp_activities(acc), events, pos + 1, 0);
    Opened {
        acc: EgripRecordView {
            main_activity: w.acc.main,
            additional_activities: w.acc.additional,
            ..acc
        },
        next: w.next,
        nested: false,
        ok: w.ok,
    }
}

/// The address after the registering authority's own address was offered
/// as its one-line form: an address that has a one-line form keeps it, and a
/// record without an address gets one that holds just this line. The offer
/// is made once the whole record is read.
pub open spec fn with_authority_address(
    address: Option<AddressView>,
    line: Option<Seq<char>>,
) -> Option<AddressView> {
    match line {
        Some(l) => {
            let a = match address {
                Some(a) => a,
                None => AddressView::empty(),
            };
            Some(AddressView { full_address: or_else(a.full_address, Some(l)), ..a })
        },
        None => address,
    }
}

/// Offers the registering authority's own address as the one-line form of
/// the record's address.
pub fn apply_authority_address(address: &mut Option<Address>, line: Option<String>)
    ensures
        final(address).deep_view() == with_authority_address(
            old(address).deep_view(),
            line.deep_view(),
        ),
{
    if let Some(l) = line {
        let mut a = match address.take() {
            Some(a) => a,
            None => Address::new(),
        };
        fill(&mut a.full_address, Some(l));
        *address = Some(a);
    }
}

/// The registration that the registering authority's tag describes.
pub open spec fn ip_registration_of(e: ElementView) -> IpRegistrationInfoView {
    IpRegistrationInfoView { authority: Some(authority_of(e)), ..IpRegistrationInfoView::empty() }
}

/// What the registering authority's own tag adds: the registration.
pub open spec fn with_sp_registration(acc: EgripRecordView, e: ElementView) -> EgripRecordView {
    EgripRecordView { registration: or_else(acc.registration, Some(ip_registration_of(e))), ..acc }
}

/// The block of the registering authority: what its own tag says is taken
/// in, its content is passed over.
pub open spec fn sp_open_registration(
    acc: EgripRecordView,
    events: Seq<EventView>,
    pos: int,
) -> Opened<EgripRecordView> {
    let w = walk::<Skipped, Nothing>((), events, pos + 1, 0);
    Opened {
        acc: with_sp_registration(acc, element_at(events, pos)),
        next: w.next,
        nested: false,
        ok: w.ok,
    }
}

/// The block of the registration with a tax authority.
pub open spec fn sp_open_tax(acc: EgripRecordView, events: Seq<EventView>, pos: int) -> Opened<
    EgripRecordView,
> {
    let w = walk::<TaxBlock, TaxAuthority>(
        tax_authority_of(element_at(events, pos)),
        events,
        pos + 1,
        0,
    );
    Opened {
        acc: EgripRecordView { tax_authority: or_else(acc.tax_authority, Some(w.acc)), ..acc },
        next: w.next,
        nested: false,
        ok: w.ok,
    }
}

/// The block of the registration with the pension fund.
pub open spec fn sp_open_pension(acc: EgripRecordView, events: Seq<EventView>, pos: int) -> Opened<
    EgripRecordView,
> {
    let w = walk::<PensionBlock, PensionFund>(
        pension_fund_of(element_at(events, pos)),
        events,
        pos + 1,
        0,
    );
    Opened {
        acc: EgripRecordView { pension_fund: or_else(acc.pension_fund, Some(w.acc)), ..acc },
        next: w.next,
        nested: false,
        ok: w.ok,
    }
}

/// The block of the registration with the social insurance fund.
pub open spec fn sp_open_insurance(
    acc: EgripRecordView,
    events: Seq<EventView>,
    pos: int,
) -> Opened<EgripRecordView> {
    let w = walk::<InsuranceBlock, SocialInsurance>(
        social_insurance_of(element_at(events, pos)),
        events,
        pos + 1,
        0,
    );
    Opened {
        acc: EgripRecordView {
            social_insurance: or_else(acc.social_insurance, Some(w.acc)),
            ..acc
        },
        next: w.next,
        nested: false,
        ok: w.ok,
    }
}

/// The history row as far as its own tag describes it.
pub open spec fn sp_history_start(e: ElementView) -> HistoryRecordView {
    HistoryRecordView {
        grn: or_empty(e.attr3("ГРНИП"@, "ГРН"@, "ИдЗап"@)),
        date: e.date_attr2("ДатаЗап"@, "Дата"@),
        ..HistoryRecordView::empty()
    }
}

/// One row of the change history, appended to the rows so far.
pub open spec fn sp_open_history(acc: EgripRecordView, events: Seq<EventView>, pos: int) -> Opened<
    EgripRecordView,
> {
    let w = walk::<HistoryBlock, HistoryRecord>(
        sp_history_start(element_at(events, pos)),
        events,
        pos + 1,
        0,
    );
    Opened {
        acc: EgripRecordView { history: acc.history.push(w.acc), ..acc },
        next: w.next,
        nested: false,
        ok: w.ok,
    }
}

/// What a start tag inside the record does: a block that has a parser of
/// its own is walked by it to its end; of any other tag the attributes are
/// read and the content is walked as part of the record.
pub open spec fn sp_opened(acc: EgripRecordView, events: Seq<EventView>, pos: int) -> Opened<
    EgripRecordView,
> {
    let e = element_at(events, pos);
    if e.is_tag("СвФЛ"@) {
        sp_open_person(acc, events, pos)
    } else if e.is_tag("ФИОРус"@) || e.is_tag("ФИОИП"@) || e.is_tag("ФИО"@) {
        sp_open_name(acc, events, pos)
    } else if e.is_tag("СвАдрМЖ"@) || e.is_tag("СвАдрес"@) {
        sp_open_address(acc, events, pos)
    } else if e.is_tag("СвОКВЭД"@) {
        sp_open_okved(acc, events, pos)
    } else if e.is_tag("СвРегОрг"@) || e.is_tag("СвГосРег"@) {
        sp_open_registration(acc, events, pos)
    } else if e.is_tag("СвУчетНО"@) || e.is_tag("СвНалУч"@) {
        sp_open_tax(acc, events, pos)
    } else if e.is_tag("СвРегПФ"@) {
        sp_open_pension(acc, events, pos)
    } else if e.is_tag("СвРегФСС"@) {
        sp_open_insurance(acc, events, pos)
    } else if e.is_tag("СвЗапись"@) || e.is_tag("СвЗапЕГРИП"@) {
        sp_open_history(acc, events, pos)
    } else {
        stay_open(sp_leaf(acc, e), pos)
    }
}

/// The authority that a registration names.
pub open spec fn sp_authority(registration: Option<IpRegistrationInfoView>) -> Option<
    RegistrationAuthorityView,
> {
    match registration {
        Some(r) => r.authority,
        None => None,
    }
}

/// The record as it is emitted: the registration date defaults to the date
/// on which the registration number was assigned; an address without a
/// region code takes the first two digits of the registering authority's
/// code, and one without a one-line form the authority's own address.
pub open spec fn sp_finished(acc: EgripRecordView) -> EgripRecordView {
    EgripRecordView {
        registration_date: or_else(acc.registration_date, acc.ogrnip_date),
        address: with_authority_address(
            with_region_fallback(acc.address, code_of(sp_authority(acc.registration))),
            address_of(sp_authority(acc.registration)),
        ),
        ..acc
    }
}

impl EgripRecord {
    /// Reads the record's own tag.
    pub fn begin(e: &XmlElement) -> (r: Self)
        ensures
            r.deep_view() == sp_record_start(e.deep_view()),
    {
        let mut record = EgripRecord::new();
        record.ogrnip = match e.get_attr("ОГРНИП") {
            Some(v) => v,
            None => String::new(),
        };
        record.ogrnip_date = e.get_date_attr2("ДатаОГРНИП", "ДатаРег");
        record.inn = match e.get_attr2("ИННФЛ", "ИНН") {
            Some(v) => v,
            None => String::new(),
        };
        record.extract_date = e.get_date_attr("ДатаВып");
        record.status_code = e.get_attr("Статус");
        record
    }

    /// Takes in the activity that a tag describes.
    pub fn add_activity(&mut self, e: &XmlElement)
        ensures
            final(self).deep_view() == (EgripRecordView {
                main_activity: with_activity(sp_activities(old(self).deep_view()), e.deep_view()).main,
                additional_activities: with_activity(
                    sp_activities(old(self).deep_view()),
                    e.deep_view(),
                ).additional,
                ..old(self).deep_view()
            }),
    {
        let mut acts = Activities { main: self.main_activity.take(), additional: Vec::new() };
        core::mem::swap(&mut acts.additional, &mut self.additional_activities);
        acts.add(e);
        self.main_activity = acts.main;
        self.additional_activities = acts.additional;
    }

    /// Takes in what the attributes of a tag inside the record say.
    pub fn add_detail(&mut self, e: &XmlElement)
        ensures
            final(self).deep_view() == sp_leaf(old(self).deep_view(), e.deep_view()),
    {
        if e.is_tag("СвФЛ") {
            fill_gender(&mut self.gender, parse_gender(e.get_attr("Пол")));
            fill_person(&mut self.person, e);
        } else if e.is_tag("ФИОРус") || e.is_tag("ФИОИП") || e.is_tag("ФИО") {
            fill_person(&mut self.person, e);
        } else if e.is_tag("СвРегИП") {
            fill_text(&mut self.ogrnip, e.get_attr("ОГРНИП"));
            fill_date(&mut self.ogrnip_date, e.get_date_attr("ДатаОГРНИП"));
        } else if e.is_tag("Пол") {
            fill_gender(&mut self.gender, parse_gender(e.get_attr2("КодПол", "Пол")));
        } else if e.is_tag("СвГражд") || e.is_tag("Гражданство") {
            if self.citizenship.is_none() {
                self.citizenship = Some(parse_citizenship(e));
            }
        } else if e.is_tag("СвСтатус") {
            fill(&mut self.status_code, e.get_attr("КодСтатус"));
            fill_date(&mut self.termination_date, e.get_date_attr("ДатаПрекращ"));
        } else if e.is_tag("СвОКВЭДОсн") || e.is_tag("СвОКВЭДДоп") {
            self.add_activity(e);
        } else if e.is_tag("СведКонт") || e.is_tag("Контакт") {
            fill(&mut self.email, e.get_attr("E-mail"));
        } else if e.is_tag("СвПрекр") {
            fill_date(&mut self.termination_date, e.get_date_attr2("ДатаПрекр", "Дата"));
            fill(&mut self.termination_method, e.get_attr("СпосПрекр"));
        } else {
            self.add_closed_block(e);
        }
    }

    /// Takes in a block whose own tag closes itself.
    pub fn add_closed_block(&mut self, e: &XmlElement)
        ensures
            final(self).deep_view() == sp_closed_block(old(self).deep_view(), e.deep_view()),
    {
        if e.is_tag("СвАдрМЖ") || e.is_tag("СвАдрес") {
            let mut address = match self.address.take() {
                Some(a) => a,
                None => Address::new(),
            };
            fill(&mut address.region_code, e.get_attr("КодРегион"));
            fill(&mut address.full_address, e.get_attr("Адрес"));
            address.complete();
            self.address = Some(address);
        } else if e.is_tag("СвРегОрг") || e.is_tag("СвГосРег") {
            self.add_registration(e);
        } else if e.is_tag("СвУчетНО") || e.is_tag("СвНалУч") {
            if self.tax_authority.is_none() {
                self.tax_authority = Some(TaxAuthority::begin(e));
            }
        } else if e.is_tag("СвРегПФ") {
            if self.pension_fund.is_none() {
                self.pension_fund = Some(PensionFund::begin(e));
            }
        } else if e.is_tag("СвРегФСС") {
            if self.social_insurance.is_none() {
                self.social_insurance = Some(SocialInsurance::begin(e));
            }
        } else if e.is_tag("СвЗапись") || e.is_tag("СвЗапЕГРИП") {
            let row = Self::begin_history_row(e);
            let ghost before = self.history.deep_view();
            self.history.push(row);
            assert(self.history.deep_view() =~= before.push(row.deep_view()));
        }
    }

    /// Takes in what the registering authority's own tag says.
    pub fn add_registration(&mut self, e: &XmlElement)
        ensures
            final(self).deep_view() == with_sp_registration(old(self).deep_view(), e.deep_view()),
    {
        if self.registration.is_none() {
            let mut registration = IpRegistrationInfo::new();
            registration.authority = Some(parse_authority(e));
            self.registration = Some(registration);
        }
    }

    /// Reads a history row's own tag.
    pub fn begin_history_row(e: &XmlElement) -> (row: HistoryRecord)
        ensures
            row.deep_view() == sp_history_start(e.deep_view()),
    {
        let mut row = HistoryRecord::new();
        row.grn = match e.get_attr3("ГРНИП", "ГРН", "ИдЗап") {
            Some(v) => v,
            None => String::new(),
        };
        row.date = e.get_date_attr2("ДатаЗап", "Дата");
        row
    }

    /// Walks the natural person's block that starts at `pos`.
    pub(crate) fn parse_sv_fl(&mut self, e: &XmlElement, events: &[XmlEvent], pos: usize) -> (step:
        OpenStep)
        requires
            pos < events.len(),
            events[pos as int].deep_view() == EventView::Start(e.deep_view()),
        ensures
            pos < step.next <= events.len(),
            sp_open_person(old(self).deep_view(), events.deep_view(), pos as int) == (Opened {
                acc: final(self).deep_view(),
                next: step.next as int,
                nested: step.nested,
                ok: step.ok,
            }),
    {
        assert(events.deep_view()[pos as int] == events[pos as int].deep_view());
        fill_gender(&mut self.gender, parse_gender(e.get_attr("Пол")));
        let (next, ok) = walk_block::<PersonBlock, Person>(&mut self.person, events, pos + 1);
        OpenStep { next, nested: false, ok }
    }

    /// Reads a name given directly in the record and passes over the tag's
    /// content.
    pub(crate) fn parse_name(&mut self, e: &XmlElement, events: &[XmlEvent], pos: usize) -> (step:
        OpenStep)
        requires
            pos < events.len(),
            events[pos as int].deep_view() == EventView::Start(e.deep_view()),
        ensures
            pos < step.next <= events.len(),
            sp_open_name(old(self).deep_view(), events.deep_view(), pos as int) == (Opened {
                acc: final(self).deep_view(),
                next: step.next as int,
                nested: step.nested,
                ok: step.ok,
            }),
    {
        assert(events.deep_view()[pos as int] == events[pos as int].deep_view());
        fill_person(&mut self.person, e);
        let mut nothing = Nothing;
        let (next, ok) = walk_block::<Skipped, Nothing>(&mut nothing, events, pos + 1);
        OpenStep { next, nested: false, ok }
    }

    /// Walks the address block that starts at `pos`.
    pub(crate) fn parse_address(&mut self, e: &XmlElement, events: &[XmlEvent], pos: usize) -> (step:
        OpenStep)
        requires
            pos < events.len(),
            events[pos as int].deep_view() == EventView::Start(e.deep_view()),
        ensures
            pos < step.next <= events.len(),
            sp_open_address(old(self).deep_view(), events.deep_view(), pos as int) == (Opened {
                acc: final(self).deep_view(),
                next: step.next as int,
                nested: step.nested,
                ok: step.ok,
            }),
    {
        assert(events.deep_view()[pos as int] == events[pos as int].deep_view());
        let mut address = match self.address.take() {
            Some(a) => a,
            None => Address::new(),
        };
        fill(&mut address.region_code, e.get_attr("КодРегион"));
        fill(&mut address.full_address, e.get_attr("Адрес"));
        let (next, ok) = walk_block::<SpAddress, Address>(&mut address, events, pos + 1);
        address.complete();
        self.address = Some(address);
        OpenStep { next, nested: false, ok }
    }

    /// Walks the block of activities that starts at `pos`.
    pub(crate) fn parse_okvad(&mut self, events: &[XmlEvent], pos: usize) -> (step: OpenStep)
        requires
            pos < events.len(),
        ensures
            pos < step.next <= events.len(),
            sp_open_okved(old(self).deep_view(), events.deep_view(), pos as int) == (Opened {
                acc: final(self).deep_view(),
                next: step.next as int,
                nested: step.nested,
                ok: step.ok,
            }),
    {
        let mut acts = Activities { main: self.main_activity.take(), additional: Vec::new() };
        core::mem::swap(&mut acts.additional, &mut self.additional_activities);
        let (next, ok) = walk_block::<OkvedBlock, Activities>(&mut acts, events, pos + 1);
        self.main_activity = acts.main;
        self.additional_activities = acts.additional;
        OpenStep { next, nested: false, ok }
    }

    /// Walks the registering authority's block that starts at `pos`.
    pub(crate) fn parse_registration(&mut self, e: &XmlElement, events: &[XmlEvent], pos: usize) -> (step:
        OpenStep)
        requires
            pos < events.len(),
            events[pos as int].deep_view() == EventView::Start(e.deep_view()),
        ensures
            pos < step.next <= events.len(),
            sp_open_registration(old(self).deep_view(), events.deep_view(), pos as int) == (Opened {
                acc: final(self).deep_view(),
                next: step.next as int,
                nested: step.nested,
                ok: step.ok,
            }),
    {
        assert(events.deep_view()[pos as int] == events[pos as int].deep_view());
        self.add_registration(e);
        let mut nothing = Nothing;
        let (next, ok) = walk_block::<Skipped, Nothing>(&mut nothing, events, pos + 1);
        OpenStep { next, nested: false, ok }
    }

    /// Walks the tax registration's block that starts at `pos`.
    pub(crate) fn parse_tax_authority(&mut self, e: &XmlElement, events: &[XmlEvent], pos: usize) -> (step:
        OpenStep)
        requires
            pos < events.len(),
            events[pos as int].deep_view() == EventView::Start(e.deep_view()),
        ensures
            pos < step.next <= events.len(),
            sp_open_tax(old(self).deep_view(), events.deep_view(), pos as int) == (Opened {
                acc: final(self).deep_view(),
                next: step.next as int,
                nested: step.nested,
                ok: step.ok,
            }),
    {
        assert(events.deep_view()[pos as int] == events[pos as int].deep_view());
        let mut tax = TaxAuthority::begin(e);
        let (next, ok) = walk_block::<TaxBlock, TaxAuthority>(&mut tax, events, pos + 1);
        if self.tax_authority.is_none() {
            self.tax_authority = Some(tax);
        }
        OpenStep { next, nested: false, ok }
    }

    /// Walks the pension registration's block that starts at `pos`.
    pub(crate) fn parse_pension_fund(&mut self, e: &XmlElement, events: &[XmlEvent], pos: usize) -> (step:
        OpenStep)
        requires
            pos < events.len(),
            events[pos as int].deep_view() == EventView::Start(e.deep_view()),
        ensures
            pos < step.next <= events.len(),
            sp_open_pension(old(self).deep_view(), events.deep_view(), pos as int) == (Opened {
                acc: final(self).deep_view(),
                next: step.next as int,
                nested: step.nested,
                ok: step.ok,
            }),
    {
        assert(events.deep_view()[pos as int] == events[pos as int].deep_view());
        let mut fund = PensionFund::begin(e);
        let (next, ok) = walk_block::<PensionBlock, PensionFund>(&mut fund, events, pos + 1);
        if self.pension_fund.is_none() {
            self.pension_fund = Some(fund);
        }
        OpenStep { next, nested: false, ok }
    }

    /// Walks the social insurance registration's block that starts at `pos`.
    pub(crate) fn parse_social_insurance(
        &mut self,
        e: &XmlElement,
        events: &[XmlEvent],
        pos: usize,
    ) -> (step: OpenStep)
        requires
            pos < events.len(),
            events[pos as int].deep_view() == EventView::Start(e.deep_view()),
        ensures
            pos < step.next <= events.len(),
            sp_open_insurance(old(self).deep_view(), events.deep_view(), pos as int) == (Opened {
                acc: final(self).deep_view(),
                next: step.next as int,
                nested: step.nested,
                ok: step.ok,
            }),
    {
        assert(events.deep_view()[pos as int] == events[pos as int].deep_view());
        let mut fund = SocialInsurance::begin(e);
        let (next, ok) = walk_block::<InsuranceBlock, SocialInsurance>(&mut fund, events, pos + 1);
        if self.social_insurance.is_none() {
            self.social_insurance = Some(fund);
        }
        OpenStep { next, nested: false, ok }
    }

    /// Walks the history row that starts at `pos`.
    pub(crate) fn parse_history_record(&mut self, e: &XmlElement, events: &[XmlEvent], pos: usize) -> (step:
        OpenStep)
        requires
            pos < events.len(),
            events[pos as int].deep_view() == EventView::Start(e.deep_view()),
        ensures
            pos < step.next <= events.len(),
            sp_open_history(old(self).deep_view(), events.deep_view(), pos as int) == (Opened {
                acc: final(self).deep_view(),
                next: step.next as int,
                nested: step.nested,
                ok: step.ok,
            }),
    {
        assert(events.deep_view()[pos as int] == events[pos as int].deep_view());
        let mut row = Self::begin_history_row(e);
        let (next, ok) = walk_block::<HistoryBlock, HistoryRecord>(&mut row, events, pos + 1);
        let ghost before = self.history.deep_view();
        self.history.push(row);
        assert(self.history.deep_view() =~= before.push(row.deep_view()));
        OpenStep { next, nested: false, ok }
    }

    /// Completes a record whose content has been walked.
    pub fn finish(&mut self)
        ensures
            final(self).deep_view() == sp_finished(old(self).deep_view()),
    {
        if self.registration_date.is_none() {
            self.registration_date = self.ogrnip_date;
        }
        let (tax_code, line) = match &self.registration {
            Some(r) => (authority_code(&r.authority), authority_address(&r.authority)),
            None => (None, None),
        };
        apply_region_fallback(&mut self.address, &tax_code);
        apply_authority_address(&mut self.address, line);
    }
}

impl Block<SpBody> for EgripRecord {
    open spec fn opened(acc: EgripRecordView, events: Seq<EventView>, pos: int) -> Opened<
        EgripRecordView,
    > {
        sp_opened(acc, events, pos)
    }

    open spec fn leaf(acc: EgripRecordView, e: ElementView) -> EgripRecordView {
        sp_leaf(acc, e)
    }

    fn open(&mut self, events: &[XmlEvent], pos: usize) -> (step: OpenStep) {
        assert(events.deep_view()[pos as int] == events[pos as int].deep_view());
        match &events[pos] {
            XmlEvent::Start(e) => {
                if e.is_tag("СвФЛ") {
                    self.parse_sv_fl(e, events, pos)
                } else if e.is_tag("ФИОРус") || e.is_tag("ФИОИП") || e.is_tag("ФИО") {
                    self.parse_name(e, events, pos)
                } else if e.is_tag("СвАдрМЖ") || e.is_tag("СвАдрес") {
                    self.parse_address(e, events, pos)
                } else if e.is_tag("СвОКВЭД") {
                    self.parse_okvad(events, pos)
                } else if e.is_tag("СвРегОрг") || e.is_tag("СвГосРег") {
                    self.parse_registration(e, events, pos)
                } else if e.is_tag("СвУчетНО") || e.is_tag("СвНалУч") {
                    self.parse_tax_authority(e, events, pos)
                } else if e.is_tag("СвРегПФ") {
                    self.parse_pension_fund(e, events, pos)
                } else if e.is_tag("СвРегФСС") {
                    self.parse_social_insurance(e, events, pos)
                } else if e.is_tag("СвЗапись") || e.is_tag("СвЗапЕГРИП") {
                    self.parse_history_record(e, events, pos)
                } else {
                    self.add_detail(e);
                    OpenStep { next: pos + 1, nested: true, ok: true }
                }
            },
            _ => OpenStep { next: pos + 1, nested: true, ok: true },
        }
    }

    fn close_leaf(&mut self, e: &XmlElement) {
        self.add_detail(e)
    }
}

/// What the walk through the content of the element whose start tag stands
/// at `pos` gives: the record as its blocks filled it, the index of the
/// first event behind the walk, and whether the content was well formed.
pub open spec fn sp_walked(events: Seq<EventView>, pos: int) -> Walked<EgripRecordView> {
    walk::<SpBody, EgripRecord>(sp_record_start(element_at(events, pos)), events, pos + 1, 0)
}

/// The record that the element whose start tag stands at `pos` yields, if
/// its content is well formed and the record is valid, and the index of the
/// first event after the element.
pub open spec fn sp_record_at(events: Seq<EventView>, pos: int) -> (Option<EgripRecordView>, int) {
    let w = sp_walked(events, pos);
    let record = sp_finished(w.acc);
    (
        if w.ok && record.is_valid() {
            Some(record)
        } else {
            None
        },
        w.next,
    )
}

/// The record that one element yields: `element` holds the element's start
/// tag and, behind it, the events that the element takes up.
pub open spec fn sp_record_of(element: Seq<EventView>) -> Option<EgripRecordView> {
    if element.len() > 0 && element[0] is Start {
        sp_record_at(element, 0).0
    } else {
        None
    }
}

/// The records that the events from `pos` on yield, in document order.
/// Every element named `СвИП` is read as a record, from its own events
/// alone; a record that is not valid, or in whose content an event is
/// malformed, is left out, and the extraction goes on behind the element.
/// A malformed event between records ends the extraction.
pub open spec fn sp_records_from(events: Seq<EventView>, pos: int) -> Seq<EgripRecordView>
    decreases events.len() - pos,
{
    if pos < 0 || pos >= events.len() {
        Seq::empty()
    } else {
        match events[pos] {
            EventView::Start(e) => if e.is_tag("СвИП"@) {
                let end = pos + 1 + element_extent(events.skip(pos + 1), 0);
                let found = match sp_record_of(events.subrange(pos, end)) {
                    Some(r) => seq![r],
                    None => Seq::empty(),
                };
                if end <= events.len() {
                    found + sp_records_from(events, end)
                } else {
                    found
                }
            } else {
                sp_records_from(events, pos + 1)
            },
            EventView::Malformed => Seq::empty(),
            _ => sp_records_from(events, pos + 1),
        }
    }
}

/// The records of sole proprietors that a document's events yield.
pub open spec fn sp_records(events: Seq<EventView>) -> Seq<EgripRecordView> {
    sp_records_from(events, 0)
}

/// The extractor for sole proprietors.
pub struct EgripXmlParser;

impl EgripXmlParser {
    pub fn new() -> (r: Self) {
        EgripXmlParser
    }

    /// Derives a region code from the code of a tax authority: its first
    /// two characters, if both are digits.
    pub fn extract_region_code_from_tax_code(tax_code: &str) -> (r: Option<String>)
        ensures
            r.deep_view() == region_code_of(tax_code@),
    {
        region_code_from_tax_code(tax_code)
    }

    /// Reads the record whose start tag stands at `pos`.
    pub(crate) fn parse_sv_ip(&self, e: &XmlElement, events: &[XmlEvent], pos: usize) -> (r: (
        Option<EgripRecord>,
        usize,
    ))
        requires
            pos < events.len(),
            events[pos as int].deep_view() == EventView::Start(e.deep_view()),
        ensures
            pos < r.1 <= events.len(),
            (r.0.deep_view(), r.1 as int) == sp_record_at(events.deep_view(), pos as int),
    {
        assert(events.deep_view()[pos as int] == events[pos as int].deep_view());
        let mut record = EgripRecord::begin(e);
        let (next, ok) = walk_block::<SpBody, EgripRecord>(&mut record, events, pos + 1);
        record.finish();
        if ok && record.is_valid() {
            (Some(record), next)
        } else {
            (None, next)
        }
    }

    /// Reads one record from the events of its element.
    pub fn read_record(&self, element: &[XmlEvent]) -> (r: Option<EgripRecord>)
        ensures
            r.deep_view() == sp_record_of(element.deep_view()),
    {
        if element.len() == 0 {
            return None;
        }
        assert(element.deep_view()[0] == element[0].deep_view());
        match &element[0] {
            XmlEvent::Start(e) => self.parse_sv_ip(e, element, 0).0,
            _ => None,
        }
    }

    /// Extracts the records of sole proprietors from a document's events.
    /// Every record that is returned is valid.
    pub fn parse_events(&self, events: &[XmlEvent]) -> (records: Vec<EgripRecord>)
        ensures
            records.deep_view() == sp_records(events.deep_view()),
            forall|i: int| 0 <= i < records.len() ==> (#[trigger] records[i]).deep_view().is_valid(),
    {
        let mut records: Vec<EgripRecord> = Vec::new();
        let mut pos: usize = 0;
        let ghost all = events.deep_view();
        assert(records.deep_view() =~= Seq::<EgripRecordView>::empty());
        while pos < events.len()
            invariant
                pos <= events.len(),
                all == events.deep_view(),
                sp_records(all) == records.deep_view() + sp_records_from(all, pos as int),
                forall|i: int|
                    0 <= i < records.len() ==> (#[trigger] records[i]).deep_view().is_valid(),
            decreases events.len() - pos,
        {
            assert(all[pos as int] == events[pos as int].deep_view());
            let ghost before = records.deep_view();
            match &events[pos] {
                XmlEvent::Start(e) => {
                    if e.is_tag("СвИП") {
                        let end = element_end(events, pos + 1);
                        let element = slice_subrange(events, pos, end);
                        assert(element.deep_view() =~= all.subrange(pos as int, end as int));
                        let record = self.read_record(element);
                        proof {
                            lemma_found(before, record.deep_view(), sp_records_from(all, end as int));
                        }
                        match record {
                            Some(r) => {
                                assert(r.deep_view().is_valid());
                                records.push(r);
                                assert(records.deep_view() =~= before.push(r.deep_view()));
                            },
                            None => {},
                        }
                        pos = end;
                    } else {
                        pos = pos + 1;
                    }
                },
                XmlEvent::Malformed => {
                    assert(before + Seq::<EgripRecordView>::empty() =~= before);
                    return records;
                },
                _ => {
                    pos = pos + 1;
                },
            }
        }
        assert(records.deep_view() + Seq::<EgripRecordView>::empty() =~= records.deep_view());
        records
    }

    /// Extracts the records of sole proprietors from a document, reading
    /// the events of one record at a time. Malformed XML costs records,
    /// never the whole document: the result is always `Ok`.
    pub fn parse(&self, content: &str) -> (r: Result<Vec<EgripRecord>, Error>)
        ensures
            r is Ok,
            r->Ok_0.deep_view() == sp_records(xml_events(content@)),
            forall|i: int|
                0 <= i < r->Ok_0.len() ==> (#[trigger] r->Ok_0[i]).deep_view().is_valid(),
    {
        let mut reader = EventReader::open(content);
        let mut records: Vec<EgripRecord> = Vec::new();
        let ghost all = reader.pending();
        let ghost mut pos: int = 0;
        assert(records.deep_view() =~= Seq::<EgripRecordView>::empty());
        assert(all.skip(0) =~= all);
        loop
            invariant_except_break
                sp_records(all) == records.deep_view() + sp_records_from(all, pos),
                reader.pending() == all.skip(pos),
            invariant
                0 <= pos <= all.len(),
                forall|i: int|
                    0 <= i < records.len() ==> (#[trigger] records[i]).deep_view().is_valid(),
            ensures
                records.deep_view() == sp_records(all),
            decreases all.len() - pos,
        {
            let ghost before = records.deep_view();
            match reader.next() {
                Some(event) => {
                    proof {
                        assert(all.skip(pos)[0] == all[pos]);
                        assert(all.skip(pos).skip(1) =~= all.skip(pos + 1));
                    }
                    let opens = match &event {
                        XmlEvent::Start(e) => e.is_tag("СвИП"),
                        _ => false,
                    };
                    let broken = match &event {
                        XmlEvent::Malformed => true,
                        _ => false,
                    };
                    if opens {
                        let ghost n = element_extent(all.skip(pos + 1), 0);
                        let element = reader.read_element(event);
                        proof {
                            assert(seq![all[pos]] + all.skip(pos + 1).take(n as int) =~= all.subrange(
                                pos,
                                pos + 1 + n,
                            ));
                            assert(all.skip(pos + 1).skip(n as int) =~= all.skip(pos + 1 + n));
                        }
                        let record = self.read_record(element.as_slice());
                        proof {
                            lemma_found(
                                before,
                                record.deep_view(),
                                sp_records_from(all, pos + 1 + n),
                            );
                            pos = pos + 1 + n;
                        }
                        match record {
                            Some(r) => {
                                assert(r.deep_view().is_valid());
                                records.push(r);
                                assert(records.deep_view() =~= before.push(r.deep_view()));
                            },
                            None => {},
                        }
                    } else if broken {
                        assert(before + Seq::<EgripRecordView>::empty() =~= before);
                        break;
                    } else {
                        proof {
                            pos = pos + 1;
                        }
                    }
                },
                None => {
                    assert(all.skip(pos).len() == 0);
                    assert(before + Seq::<EgripRecordView>::empty() =~= before);
                    break;
                },
            }
        }
        Ok(records)
    }
}

impl Default for EgripXmlParser {
    fn default() -> Self {
        EgripXmlParser
    }
}

} // verus!
