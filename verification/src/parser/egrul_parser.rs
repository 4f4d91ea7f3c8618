//! The extractor for legal entities.

use crate::models::common::Address;
use crate::models::common::AddressView;
use crate::models::common::Capital;
use crate::models::common::CapitalView;
use crate::models::common::Founder;
use crate::models::common::FounderView;
use crate::models::common::Person;
use crate::models::common::PersonView;
use crate::models::common::Share;
use crate::models::common::ShareView;
use crate::error::Error;
use crate::models::common::HistoryRecord;
use crate::models::common::HistoryRecordView;
use crate::models::common::PensionFund;
use crate::models::common::SocialInsurance;
use crate::models::common::TaxAuthority;
use crate::models::egrul::EgrulRecord;
use crate::models::egrul::EgrulRecordView;
use crate::models::egrul::HeadInfo;
use crate::models::egrul::HeadInfoView;
use crate::models::egrul::RegistrationInfo;
use crate::models::egrul::RegistrationInfoView;
use crate::parser::blocks::apply_region_fallback;
use crate::parser::blocks::authority_code;
use crate::parser::blocks::code_of;
use crate::parser::blocks::authority_of;
use crate::parser::blocks::fill_text;
use crate::parser::blocks::keep_text;
use crate::parser::blocks::parse_authority;
use crate::parser::blocks::pension_fund_of;
use crate::parser::blocks::region_code_from_tax_code;
use crate::parser::blocks::region_code_of;
use crate::parser::blocks::social_insurance_of;
use crate::parser::blocks::tax_authority_of;
use crate::parser::blocks::with_activity;
use crate::parser::blocks::with_region_fallback;
use crate::parser::blocks::Activities;
use crate::parser::blocks::ActivitiesView;
use crate::parser::blocks::HistoryBlock;
use crate::parser::blocks::InsuranceBlock;
use crate::parser::blocks::Nothing;
use crate::parser::blocks::OkvedBlock;
use crate::parser::blocks::PensionBlock;
use crate::parser::blocks::Skipped;
use crate::parser::blocks::TaxBlock;
use crate::parser::blocks::lemma_found;
use crate::xml::element_end;
use crate::xml::element_extent;
use crate::xml::EventReader;
use vstd::slice::slice_subrange;
use crate::xml::xml_events;
use crate::parser::attributes::or_else;
use crate::parser::attributes::or_empty;
use crate::parser::blocks::element_at;
use crate::parser::blocks::fill;
use crate::parser::blocks::fill_date;
use crate::parser::blocks::fill_person;
use crate::parser::blocks::keep_person;
use crate::parser::blocks::stay_open;
use crate::parser::walker::walk;
use crate::parser::walker::Walked;
use crate::parser::walker::walk_block;
use crate::parser::walker::Block;
use crate::parser::walker::OpenStep;
use crate::parser::walker::Opened;
use crate::text::concat3;
use crate::text::normalize_string;
use crate::text::normalized;
use crate::text::owned;
use crate::xml::ElementView;
use crate::xml::EventView;
use crate::xml::XmlElement;
use crate::xml::XmlEvent;
use vstd::prelude::*;

verus! {

/// A kind and a name joined by a separator; where only one of the two is
/// known, that one alone.
pub open spec fn kind_and_name(
    kind: Option<Seq<char>>,
    name: Option<Seq<char>>,
    separator: Seq<char>,
) -> Option<Seq<char>> {
    match (kind, name) {
        (Some(k), Some(n)) => Some(k + separator + n),
        (None, Some(n)) => Some(n),
        (Some(k), None) => Some(k),
        (None, None) => None,
    }
}

/// Joins a kind and a name by a separator.
pub fn join_kind_and_name(kind: Option<String>, name: Option<String>, separator: &str) -> (r:
    Option<String>)
    ensures
        r.deep_view() == kind_and_name(kind.deep_view(), name.deep_view(), separator@),
{
    match (kind, name) {
        (Some(k), Some(n)) => Some(concat3(k.as_str(), separator, n.as_str())),
        (None, Some(n)) => Some(n),
        (Some(k), None) => Some(k),
        (None, None) => None,
    }
}

/// A text with its whitespace collapsed, if there is a text.
pub open spec fn normalized_option(value: Option<Seq<char>>) -> Option<Seq<char>> {
    match value {
        Some(v) => Some(normalized(v)),
        None => None,
    }
}

/// Collapses the whitespace of an optional text.
pub fn normalize_option(value: Option<String>) -> (r: Option<String>)
    ensures
        r.deep_view() == normalized_option(value.deep_view()),
{
    match value {
        Some(v) => Some(normalize_string(v.as_str())),
        None => None,
    }
}

/// Marks the walk over the address block of a legal entity.
pub struct LeAddress;

/// What a tag inside the address block adds. Every component keeps the
/// first value it was given.
pub open spec fn with_le_address_part(acc: AddressView, e: ElementView) -> AddressView {
    let named = if e.is_tag("АдресРФ"@) || e.is_tag("Адрес"@) {
        AddressView {
            postal_code: or_else(acc.postal_code, e.attr("Индекс"@)),
            region_code: or_else(acc.region_code, e.attr("КодРегион"@)),
            ..acc
        }
    } else if e.is_tag("Район"@) {
        AddressView {
            district: or_else(acc.district, e.attr3("НаименРай"@, "Наименов"@, "Наименование"@)),
            ..acc
        }
    } else if e.is_tag("Город"@) {
        AddressView {
            city: or_else(acc.city, e.attr3("НаименГор"@, "Наименов"@, "Наименование"@)),
            ..acc
        }
    } else if e.is_tag("НаселПункт"@) {
        AddressView {
            locality: or_else(acc.locality, e.attr3("НаименНП"@, "Наименов"@, "Наименование"@)),
            ..acc
        }
    } else if e.is_tag("Улица"@) {
        AddressView {
            street: or_else(
                acc.street,
                kind_and_name(
                    e.attr2("ТипУлица"@, "Тип"@),
                    e.attr2("НаимУлица"@, "Наименов"@),
                    " "@,
                ),
            ),
            ..acc
        }
    } else {
        acc
    };
    AddressView {
        house: or_else(named.house, e.attr("Дом"@)),
        building: or_else(named.building, e.attr("Корп"@)),
        flat: or_else(named.flat, e.attr2("Кварт"@, "Офис"@)),
        fias_id: or_else(named.fias_id, e.attr2("ИдНом"@, "ФИАС"@)),
        ..named
    }
}

/// Takes into a legal entity's address what a tag inside the address block
/// says.
pub fn process_address_element(address: &mut Address, e: &XmlElement)
    ensures
        final(address).deep_view() == with_le_address_part(old(address).deep_view(), e.deep_view()),
{
    if e.is_tag("АдресРФ") || e.is_tag("Адрес") {
        fill(&mut address.postal_code, e.get_attr("Индекс"));
        fill(&mut address.region_code, e.get_attr("КодРегион"));
    } else if e.is_tag("Район") {
        fill(&mut address.district, e.get_attr3("НаименРай", "Наименов", "Наименование"));
    } else if e.is_tag("Город") {
        fill(&mut address.city, e.get_attr3("НаименГор", "Наименов", "Наименование"));
    } else if e.is_tag("НаселПункт") {
        fill(&mut address.locality, e.get_attr3("НаименНП", "Наименов", "Наименование"));
    } else if e.is_tag("Улица") {
        let kind = e.get_attr2("ТипУлица", "Тип");
        let name = e.get_attr2("НаимУлица", "Наименов");
        fill(&mut address.street, join_kind_and_name(kind, name, " "));
    }
    fill(&mut address.house, e.get_attr("Дом"));
    fill(&mut address.building, e.get_attr("Корп"));
    fill(&mut address.flat, e.get_attr2("Кварт", "Офис"));
    fill(&mut address.fias_id, e.get_attr2("ИдНом", "ФИАС"));
}

impl Block<LeAddress> for Address {
    open spec fn opened(acc: AddressView, events: Seq<EventView>, pos: int) -> Opened<AddressView> {
        stay_open(with_le_address_part(acc, element_at(events, pos)), pos)
    }

    open spec fn leaf(acc: AddressView, e: ElementView) -> AddressView {
        with_le_address_part(acc, e)
    }

    fn open(&mut self, events: &[XmlEvent], pos: usize) -> (step: OpenStep) {
        assert(events.deep_view()[pos as int] == events[pos as int].deep_view());
        match &events[pos] {
            XmlEvent::Start(e) => process_address_element(self, e),
            _ => {},
        }
        OpenStep { next: pos + 1, nested: true, ok: true }
    }

    fn close_leaf(&mut self, e: &XmlElement) {
        process_address_element(self, e)
    }
}

/// The charter capital that a tag states, if it states an amount. Where no
/// currency is named, it is the rouble.
pub open spec fn capital_of(e: ElementView) -> Option<CapitalView> {
    match e.decimal_attr("СумКап"@) {
        Some(amount) => Some(
            CapitalView {
                amount,
                currency: match e.attr("НаимВал"@) {
                    Some(c) => c,
                    None => "рубль"@,
                },
            },
        ),
        None => None,
    }
}

/// Reads the charter capital from a tag.
pub fn parse_capital(e: &XmlElement) -> (r: Option<Capital>)
    ensures
        r.deep_view() == capital_of(e.deep_view()),
{
    match e.get_decimal_attr("СумКап") {
        Some(amount) => {
            let currency = match e.get_attr("НаимВал") {
                Some(c) => c,
                None => owned("рубль"),
            };
            Some(Capital::new(amount, currency))
        },
        None => None,
    }
}

/// The share that a tag states.
pub open spec fn share_of(e: ElementView) -> ShareView {
    ShareView {
        nominal_value: e.decimal_attr("НоминСтоим"@),
        numerator: e.i64_attr("Числит"@),
        denominator: e.i64_attr("Знамен"@),
        percent: e.decimal_attr("Процент"@),
    }
}

/// Reads a share in the charter capital from a tag.
pub fn parse_share(e: &XmlElement) -> (r: Share)
    ensures
        r.deep_view() == share_of(e.deep_view()),
{
    Share {
        nominal_value: e.get_decimal_attr("НоминСтоим"),
        numerator: e.get_i64_attr("Числит"),
        denominator: e.get_i64_attr("Знамен"),
        percent: e.get_decimal_attr("Процент"),
    }
}

/// Marks the walk over the block that names the head officer.
pub struct HeadBlock;

/// The head officer as far as the block's own tag describes them.
pub open spec fn head_of(e: ElementView) -> HeadInfoView {
    HeadInfoView {
        position: e.attr("НаимДолжн"@),
        position_code: e.attr("ВидДолжн"@),
        ..HeadInfoView::empty()
    }
}

/// What a tag inside the block adds: the person, the position, the
/// registration entry.
pub open spec fn with_head_detail(acc: HeadInfoView, e: ElementView) -> HeadInfoView {
    if e.is_tag("СвФЛ"@) || e.is_tag("ФИОРус"@) || e.is_tag("ФИО"@) {
        HeadInfoView { person: keep_person(acc.person, e), ..acc }
    } else if e.is_tag("СвДолжн"@) {
        HeadInfoView {
            position: or_else(acc.position, e.attr2("НаимДолжн"@, "НаимВидДолжн"@)),
            position_code: or_else(acc.position_code, e.attr("ВидДолжн"@)),
            ..acc
        }
    } else if e.is_tag("ГРНДата"@) || e.is_tag("ГРНДатаПерв"@) {
        HeadInfoView {
            grn: or_else(acc.grn, e.attr("ГРН"@)),
            grn_date: or_else(acc.grn_date, e.date_attr2("ДатаЗаписи"@, "Дата"@)),
            ..acc
        }
    } else {
        acc
    }
}

impl HeadInfo {
    /// Reads the block's own tag.
    pub fn begin(e: &XmlElement) -> (r: Self)
        ensures
            r.deep_view() == head_of(e.deep_view()),
    {
        let mut head = HeadInfo::new();
        head.position = e.get_attr("НаимДолжн");
        head.position_code = e.get_attr("ВидДолжн");
        head
    }

    /// Takes in what a tag inside the block says.
    pub fn add_detail(&mut self, e: &XmlElement)
        ensures
            final(self).deep_view() == with_head_detail(old(self).deep_view(), e.deep_view()),
    {
        if e.is_tag("СвФЛ") || e.is_tag("ФИОРус") || e.is_tag("ФИО") {
            fill_person(&mut self.person, e);
        } else if e.is_tag("СвДолжн") {
            fill(&mut self.position, e.get_attr2("НаимДолжн", "НаимВидДолжн"));
            fill(&mut self.position_code, e.get_attr("ВидДолжн"));
        } else if e.is_tag("ГРНДата") || e.is_tag("ГРНДатаПерв") {
            fill(&mut self.grn, e.get_attr("ГРН"));
            fill_date(&mut self.grn_date, e.get_date_attr2("ДатаЗаписи", "Дата"));
        }
    }
}

impl Block<HeadBlock> for HeadInfo {
    open spec fn opened(acc: HeadInfoView, events: Seq<EventView>, pos: int) -> Opened<
        HeadInfoView,
    > {
        stay_open(with_head_detail(acc, element_at(events, pos)), pos)
    }

    open spec fn leaf(acc: HeadInfoView, e: ElementView) -> HeadInfoView {
        with_head_detail(acc, e)
    }

    fn open(&mut self, events: &[XmlEvent], pos: usize) -> (step: OpenStep) {
        assert(events.deep_view()[pos as int] == events[pos as int].deep_view());
        match &events[pos] {
            XmlEvent::Start(e) => self.add_detail(e),
            _ => {},
        }
        OpenStep { next: pos + 1, nested: true, ok: true }
    }

    fn close_leaf(&mut self, e: &XmlElement) {
        self.add_detail(e)
    }
}

/// What is gathered about one founder while its block is walked.
pub struct FounderDraft {
    pub person: Person,
    pub share: Option<Share>,
}

pub struct FounderDraftView {
    pub person: PersonView,
    pub share: Option<ShareView>,
}

impl DeepView for FounderDraft {
    type V = FounderDraftView;

    open spec fn deep_view(&self) -> FounderDraftView {
        FounderDraftView { person: self.person.deep_view(), share: self.share.deep_view() }
    }
}

impl FounderDraftView {
    pub open spec fn empty() -> FounderDraftView {
        FounderDraftView { person: PersonView::empty(), share: None }
    }
}

/// Marks the walk over a founder who is a natural person.
pub struct PersonFounder;

/// Marks the walk over a founder that is a legal entity.
pub struct EntityFounder;

/// What a tag adds to a founder that is a legal entity: its share.
pub open spec fn with_founder_share(acc: FounderDraftView, e: ElementView) -> FounderDraftView {
    if e.is_tag("ДоляУстКап"@) {
        FounderDraftView { share: or_else(acc.share, Some(share_of(e))), ..acc }
    } else {
        acc
    }
}

/// What a tag adds to a founder who is a natural person: the name or the
/// share.
pub open spec fn with_founder_detail(acc: FounderDraftView, e: ElementView) -> FounderDraftView {
    if e.is_tag("ФИОРус"@) || e.is_tag("СвФЛ"@) {
        FounderDraftView { person: keep_person(acc.person, e), ..acc }
    } else {
        with_founder_share(acc, e)
    }
}

impl FounderDraft {
    /// A founder of whom nothing is known yet.
    pub fn new() -> (r: Self)
        ensures
            r.deep_view() == FounderDraftView::empty(),
    {
        FounderDraft { person: Person::new(), share: None }
    }

    /// Takes in the share that a tag states, if it states one.
    pub fn add_share(&mut self, e: &XmlElement)
        ensures
            final(self).deep_view() == with_founder_share(old(self).deep_view(), e.deep_view()),
    {
        if e.is_tag("ДоляУстКап") {
            if self.share.is_none() {
                self.share = Some(parse_share(e));
            }
        }
    }

    /// Takes in the name or the share that a tag states.
    pub fn add_detail(&mut self, e: &XmlElement)
        ensures
            final(self).deep_view() == with_founder_detail(old(self).deep_view(), e.deep_view()),
    {
        if e.is_tag("ФИОРус") || e.is_tag("СвФЛ") {
            fill_person(&mut self.person, e);
        } else {
            self.add_share(e);
        }
    }
}

impl Block<PersonFounder> for FounderDraft {
    open spec fn opened(acc: FounderDraftView, events: Seq<EventView>, pos: int) -> Opened<
        FounderDraftView,
    > {
        stay_open(with_founder_detail(acc, element_at(events, pos)), pos)
    }

    open spec fn leaf(acc: FounderDraftView, e: ElementView) -> FounderDraftView {
        with_founder_detail(acc, e)
    }

    fn open(&mut self, events: &[XmlEvent], pos: usize) -> (step: OpenStep) {
        assert(events.deep_view()[pos as int] == events[pos as int].deep_view());
        match &events[pos] {
            XmlEvent::Start(e) => self.add_detail(e),
            _ => {},
        }
        OpenStep { next: pos + 1, nested: true, ok: true }
    }

    fn close_leaf(&mut self, e: &XmlElement) {
        self.add_detail(e)
    }
}

impl Block<EntityFounder> for FounderDraft {
    open spec fn opened(acc: FounderDraftView, events: Seq<EventView>, pos: int) -> Opened<
        FounderDraftView,
    > {
        stay_open(with_founder_share(acc, element_at(events, pos)), pos)
    }

    open spec fn leaf(acc: FounderDraftView, e: ElementView) -> FounderDraftView {
        with_founder_share(acc, e)
    }

    fn open(&mut self, events: &[XmlEvent], pos: usize) -> (step: OpenStep) {
        assert(events.deep_view()[pos as int] == events[pos as int].deep_view());
        match &events[pos] {
            XmlEvent::Start(e) => self.add_share(e),
            _ => {},
        }
        OpenStep { next: pos + 1, nested: true, ok: true }
    }

    fn close_leaf(&mut self, e: &XmlElement) {
        self.add_share(e)
    }
}

/// Marks the walk over the block that lists the founders.
pub struct FoundersBlock;

/// The founders gathered so far.
pub struct Founders {
    pub list: Vec<Founder>,
}

impl DeepView for Founders {
    type V = Seq<FounderView>;

    open spec fn deep_view(&self) -> Seq<FounderView> {
        self.list.deep_view()
    }
}

/// A founder who is a natural person, as the walk over its block left it.
pub open spec fn founder_person(draft: FounderDraftView) -> FounderView {
    FounderView::Person { person: draft.person, share: draft.share, citizenship: None }
}

/// A founder that is a domestic legal entity, from its own tag and the walk
/// over its block.
pub open spec fn founder_domestic(e: ElementView, draft: FounderDraftView) -> FounderView {
    FounderView::RussianLegalEntity {
        ogrn: or_empty(e.attr("ОГРН"@)),
        inn: or_empty(e.attr("ИНН"@)),
        name: or_empty(e.attr2("НаимЮЛПолн"@, "Наименование"@)),
        share: draft.share,
    }
}

/// A founder that is a foreign legal entity, from its own tag and the walk
/// over its block.
pub open spec fn founder_foreign(e: ElementView, draft: FounderDraftView) -> FounderView {
    FounderView::ForeignLegalEntity {
        name: or_empty(e.attr2("НаимЮЛПолн"@, "Наименование"@)),
        country: e.attr("НаимСтран"@),
        reg_number: e.attr("РегНомер"@),
        share: draft.share,
    }
}

/// What a self-closing tag inside the founders' block does: a founder's tag
/// appends the founder as its attributes describe it.
pub open spec fn closed_founder(acc: Seq<FounderView>, e: ElementView) -> Seq<FounderView> {
    if e.is_tag("УчрФЛ"@) {
        acc.push(founder_person(FounderDraftView::empty()))
    } else if e.is_tag("УчрЮЛРос"@) {
        acc.push(founder_domestic(e, FounderDraftView::empty()))
    } else if e.is_tag("УчрЮЛИн"@) {
        acc.push(founder_foreign(e, FounderDraftView::empty()))
    } else {
        acc
    }
}

/// What a start tag inside the founders' block does: a founder's tag has
/// its block walked and the founder appended, any other tag is passed.
pub open spec fn open_founder(acc: Seq<FounderView>, events: Seq<EventView>, pos: int) -> Opened<
    Seq<FounderView>,
> {
    let e = element_at(events, pos);
    if e.is_tag("УчрФЛ"@) {
        let w = walk::<PersonFounder, FounderDraft>(FounderDraftView::empty(), events, pos + 1, 0);
        Opened { acc: acc.push(founder_person(w.acc)), next: w.next, nested: false, ok: w.ok }
    } else if e.is_tag("УчрЮЛРос"@) {
        let w = walk::<EntityFounder, FounderDraft>(FounderDraftView::empty(), events, pos + 1, 0);
        Opened { acc: acc.push(founder_domestic(e, w.acc)), next: w.next, nested: false, ok: w.ok }
    } else if e.is_tag("УчрЮЛИн"@) {
        let w = walk::<EntityFounder, FounderDraft>(FounderDraftView::empty(), events, pos + 1, 0);
        Opened { acc: acc.push(founder_foreign(e, w.acc)), next: w.next, nested: false, ok: w.ok }
    } else {
        stay_open(acc, pos)
    }
}

impl Founders {
    /// A founder that is a domestic legal entity, from its own tag and
    /// its share.
    pub fn domestic(e: &XmlElement, draft: FounderDraft) -> (r: Founder)
        ensures
            r.deep_view() == founder_domestic(e.deep_view(), draft.deep_view()),
    {
        let ogrn = match e.get_attr("ОГРН") {
            Some(v) => v,
            None => String::new(),
        };
        let inn = match e.get_attr("ИНН") {
            Some(v) => v,
            None => String::new(),
        };
        let name = match e.get_attr2("НаимЮЛПолн", "Наименование") {
            Some(v) => v,
            None => String::new(),
        };
        Founder::RussianLegalEntity { ogrn, inn, name, share: draft.share }
    }

    /// A founder that is a foreign legal entity, from its own tag and its
    /// share.
    pub fn foreign(e: &XmlElement, draft: FounderDraft) -> (r: Founder)
        ensures
            r.deep_view() == founder_foreign(e.deep_view(), draft.deep_view()),
    {
        let name = match e.get_attr2("НаимЮЛПолн", "Наименование") {
            Some(v) => v,
            None => String::new(),
        };
        let country = e.get_attr("НаимСтран");
        let reg_number = e.get_attr("РегНомер");
        Founder::ForeignLegalEntity { name, country, reg_number, share: draft.share }
    }

    /// A founder who is a natural person, as the walk over its block left
    /// it.
    pub fn person(draft: FounderDraft) -> (r: Founder)
        ensures
            r.deep_view() == founder_person(draft.deep_view()),
    {
        Founder::Person { person: draft.person, share: draft.share, citizenship: None }
    }

    /// Walks the block of a founder who is a natural person.
    pub(crate) fn parse_founder_fl(events: &[XmlEvent], start: usize) -> (r: (Founder, usize, bool))
        requires
            start <= events.len(),
        ensures
            start <= r.1 <= events.len(),
            ({
                let w = walk::<PersonFounder, FounderDraft>(
                    FounderDraftView::empty(),
                    events.deep_view(),
                    start as int,
                    0,
                );
                r.0.deep_view() == founder_person(w.acc) && r.1 == w.next && r.2 == w.ok
            }),
    {
        let mut draft = FounderDraft::new();
        let (next, ok) = walk_block::<PersonFounder, FounderDraft>(&mut draft, events, start);
        (Self::person(draft), next, ok)
    }

    /// Walks the block of a founder that is a domestic legal entity.
    pub(crate) fn parse_founder_ul_ros(e: &XmlElement, events: &[XmlEvent], start: usize) -> (r: (
        Founder,
        usize,
        bool,
    ))
        requires
            start <= events.len(),
        ensures
            start <= r.1 <= events.len(),
            ({
                let w = walk::<EntityFounder, FounderDraft>(
                    FounderDraftView::empty(),
                    events.deep_view(),
                    start as int,
                    0,
                );
                r.0.deep_view() == founder_domestic(e.deep_view(), w.acc) && r.1 == w.next && r.2
                    == w.ok
            }),
    {
        let mut draft = FounderDraft::new();
        let (next, ok) = walk_block::<EntityFounder, FounderDraft>(&mut draft, events, start);
        (Self::domestic(e, draft), next, ok)
    }

    /// Walks the block of a founder that is a foreign legal entity.
    pub(crate) fn parse_founder_ul_in(e: &XmlElement, events: &[XmlEvent], start: usize) -> (r: (
        Founder,
        usize,
        bool,
    ))
        requires
            start <= events.len(),
        ensures
            start <= r.1 <= events.len(),
            ({
                let w = walk::<EntityFounder, FounderDraft>(
                    FounderDraftView::empty(),
                    events.deep_view(),
                    start as int,
                    0,
                );
                r.0.deep_view() == founder_foreign(e.deep_view(), w.acc) && r.1 == w.next && r.2
                    == w.ok
            }),
    {
        let mut draft = FounderDraft::new();
        let (next, ok) = walk_block::<EntityFounder, FounderDraft>(&mut draft, events, start);
        (Self::foreign(e, draft), next, ok)
    }

    fn append(&mut self, founder: Founder)
        ensures
            final(self).deep_view() == old(self).deep_view().push(founder.deep_view()),
    {
        self.list.push(founder);
        assert(self.list.deep_view() =~= old(self).list.deep_view().push(founder.deep_view()));
    }
}

impl Block<FoundersBlock> for Founders {
    open spec fn opened(acc: Seq<FounderView>, events: Seq<EventView>, pos: int) -> Opened<
        Seq<FounderView>,
    > {
        open_founder(acc, events, pos)
    }

    open spec fn leaf(acc: Seq<FounderView>, e: ElementView) -> Seq<FounderView> {
        closed_founder(acc, e)
    }

    fn open(&mut self, events: &[XmlEvent], pos: usize) -> (step: OpenStep) {
        assert(events.deep_view()[pos as int] == events[pos as int].deep_view());
        match &events[pos] {
            XmlEvent::Start(e) => {
                if e.is_tag("УчрФЛ") {
                    let (founder, next, ok) = Self::parse_founder_fl(events, pos + 1);
                    self.append(founder);
                    OpenStep { next, nested: false, ok }
                } else if e.is_tag("УчрЮЛРос") {
                    let (founder, next, ok) = Self::parse_founder_ul_ros(e, events, pos + 1);
                    self.append(founder);
                    OpenStep { next, nested: false, ok }
                } else if e.is_tag("УчрЮЛИн") {
                    let (founder, next, ok) = Self::parse_founder_ul_in(e, events, pos + 1);
                    self.append(founder);
                    OpenStep { next, nested: false, ok }
                } else {
                    OpenStep { next: pos + 1, nested: true, ok: true }
                }
            },
            _ => OpenStep { next: pos + 1, nested: true, ok: true },
        }
    }

    fn close_leaf(&mut self, e: &XmlElement) {
        if e.is_tag("УчрФЛ") {
            self.append(Self::person(FounderDraft::new()));
        } else if e.is_tag("УчрЮЛРос") {
            self.append(Self::domestic(e, FounderDraft::new()));
        } else if e.is_tag("УчрЮЛИн") {
            self.append(Self::foreign(e, FounderDraft::new()));
        }
    }
}

/// Marks the walk over the block that names a legal entity.
pub struct NameBlock;

/// The short name gathered while the naming block is walked.
pub struct NameDraft {
    pub short_name: Option<String>,
}

impl DeepView for NameDraft {
    type V = Option<Seq<char>>;

    open spec fn deep_view(&self) -> Option<Seq<char>> {
        self.short_name.deep_view()
    }
}

/// What a tag inside the naming block adds: the short name.
pub open spec fn with_short_name(acc: Option<Seq<char>>, e: ElementView) -> Option<Seq<char>> {
    if e.is_tag("СвНаимЮЛСокр"@) {
        or_else(acc, normalized_option(e.attr("НаимСокр"@)))
    } else {
        acc
    }
}

impl NameDraft {
    /// Takes in the short name, if the tag gives it.
    pub fn add_detail(&mut self, e: &XmlElement)
        ensures
            final(self).deep_view() == with_short_name(old(self).deep_view(), e.deep_view()),
    {
        if e.is_tag("СвНаимЮЛСокр") {
            fill(&mut self.short_name, normalize_option(e.get_attr("НаимСокр")));
        }
    }
}

impl Block<NameBlock> for NameDraft {
    open spec fn opened(acc: Option<Seq<char>>, events: Seq<EventView>, pos: int) -> Opened<
        Option<Seq<char>>,
    > {
        stay_open(with_short_name(acc, element_at(events, pos)), pos)
    }

    open spec fn leaf(acc: Option<Seq<char>>, e: ElementView) -> Option<Seq<char>> {
        with_short_name(acc, e)
    }

    fn open(&mut self, events: &[XmlEvent], pos: usize) -> (step: OpenStep) {
        assert(events.deep_view()[pos as int] == events[pos as int].deep_view());
        match &events[pos] {
            XmlEvent::Start(e) => self.add_detail(e),
            _ => {},
        }
        OpenStep { next: pos + 1, nested: true, ok: true }
    }

    fn close_leaf(&mut self, e: &XmlElement) {
        self.add_detail(e)
    }
}

/// Marks the walk over the content of one legal entity's record.
pub struct LeBody;

/// The record as far as its own tag describes it.
pub open spec fn le_record_start(e: ElementView) -> EgrulRecordView {
    EgrulRecordView {
        ogrn: or_empty(e.attr("ОГРН"@)),
        ogrn_date: e.date_attr("ДатаОГРН"@),
        inn: or_empty(e.attr("ИНН"@)),
        kpp: e.attr("КПП"@),
        extract_date: e.date_attr("ДатаВып"@),
        status_code: e.attr2("СтатусЮЛ"@, "Статус"@),
        opf_code: e.attr("КодОПФ"@),
        opf_name: e.attr2("ПолнНаимОПФ"@, "НаимОПФ"@),
        ..EgrulRecordView::empty()
    }
}

/// The names that a naming tag gives: the full name and the short name,
/// with whitespace collapsed.
pub open spec fn with_names(acc: EgrulRecordView, e: ElementView) -> EgrulRecordView {
    EgrulRecordView {
        full_name: keep_text(acc.full_name, normalized_option(e.attr2("НаимЮЛПолн"@, "НаимПолн"@))),
        short_name: or_else(acc.short_name, normalized_option(e.attr("НаимСокр"@))),
        ..acc
    }
}

/// The record's activities as one value.
pub open spec fn le_activities(acc: EgrulRecordView) -> ActivitiesView {
    ActivitiesView { main: acc.main_activity, additional: acc.additional_activities }
}

/// What a block's own tag adds to the record where the tag closes itself,
/// so that the block has no content: the address, the head officer, the
/// registrations and the history row as their tags alone describe them.
pub open spec fn le_closed_block(acc: EgrulRecordView, e: ElementView) -> EgrulRecordView {
    if e.is_tag("СвАдресЮЛ"@) || e.is_tag("СвАдрес"@) {
        EgrulRecordView { address: Some(address_start(acc.address, e).completed()), ..acc }
    } else if e.is_tag("СведДолжнФЛ"@) || e.is_tag("СвЛицЕИО"@) || e.is_tag("СведДол662"@) {
        EgrulRecordView { head: or_else(acc.head, Some(head_of(e))), ..acc }
    } else if e.is_tag("СвРегОрг"@) {
        EgrulRecordView { registration: or_else(acc.registration, Some(registration_of(e))), ..acc }
    } else if e.is_tag("СвУчетНО"@) || e.is_tag("СвНалУч"@) {
        EgrulRecordView {
            tax_authority: or_else(acc.tax_authority, Some(tax_authority_of(e))),
            ..acc
        }
    } else if e.is_tag("СвРегПФ"@) {
        EgrulRecordView { pension_fund: or_else(acc.pension_fund, Some(pension_fund_of(e))), ..acc }
    } else if e.is_tag("СвРегФСС"@) {
        EgrulRecordView {
            social_insurance: or_else(acc.social_insurance, Some(social_insurance_of(e))),
            ..acc
        }
    } else if e.is_tag("СвЗапись"@) || e.is_tag("СвЗапЕГРЮЛ"@) {
        EgrulRecordView { history: acc.history.push(le_history_start(e)), ..acc }
    } else {
        acc
    }
}

/// What the attributes of a tag inside the record add to it, whether the
/// tag is self-closing or opens an element that has no parser of its own.
pub open spec fn le_leaf(acc: EgrulRecordView, e: ElementView) -> EgrulRecordView {
    if e.is_tag("СвНаимЮЛ"@) || e.is_tag("СвНаим"@) {
        with_names(acc, e)
    } else if e.is_tag("СвУстКап"@) {
        EgrulRecordView { capital: or_else(acc.capital, capital_of(e)), ..acc }
    } else if e.is_tag("СвОКВЭДОсн"@) || e.is_tag("СвОКВЭДДоп"@) {
        let a = with_activity(le_activities(acc), e);
        EgrulRecordView { main_activity: a.main, additional_activities: a.additional, ..acc }
    } else if e.is_tag("СвКонт"@) || e.is_tag("СведКонт"@) {
        EgrulRecordView { email: or_else(acc.email, e.attr("E-mail"@)), ..acc }
    } else if e.is_tag("СвПрекрЮЛ"@) {
        EgrulRecordView {
            termination_date: or_else(acc.termination_date, e.date_attr2("ДатаПрекращ"@, "Дата"@)),
            termination_method: or_else(acc.termination_method, e.attr("СпосПрекращ"@)),
            ..acc
        }
    } else if e.is_tag("СвСтатус"@) || e.is_tag("СвСтатусЮЛ"@) {
        EgrulRecordView {
            status_code: or_else(acc.status_code, e.attr2("КодСтатусЮЛ"@, "КодСтатус"@)),
            ..acc
        }
    } else {
        le_closed_block(acc, e)
    }
}

/// The naming block: the names from its own tag, the short name also from
/// inside it.
pub open spec fn le_open_name(acc: EgrulRecordView, events: Seq<EventView>, pos: int) -> Opened<
    EgrulRecordView,
> {
    let named = with_names(acc, element_at(events, pos));
    let w = walk::<NameBlock, NameDraft>(named.short_name, events, pos + 1, 0);
    Opened {
        acc: EgrulRecordView { short_name: w.acc, ..named },
        next: w.next,
        nested: false,
        ok: w.ok,
    }
}

/// The address with which the walk over an address block starts: the
/// record's address so far, or an empty one, with the one-line form that the
/// block's own tag gives, kept as it is written.
pub open spec fn address_start(address: Option<AddressView>, e: ElementView) -> AddressView {
    let a = match address {
        Some(a) => a,
        None => AddressView::empty(),
    };
    AddressView {
        full_address: or_else(a.full_address, e.attr("Адрес"@)),
        ..a
    }
}

/// The address block: its components are taken into the record's address,
/// and the one-line form is composed if the block gave none.
pub open spec fn le_open_address(acc: EgrulRecordView, events: Seq<EventView>, pos: int) -> Opened<
    EgrulRecordView,
> {
    let w = walk::<LeAddress, Address>(
        address_start(acc.address, element_at(events, pos)),
        events,
        pos + 1,
        0,
    );
    Opened {
        acc: EgrulRecordView { address: Some(w.acc.completed()), ..acc },
        next: w.next,
        nested: false,
        ok: w.ok,
    }
}

/// The block of activities.
pub open spec fn le_open_okved(acc: EgrulRecordView, events: Seq<EventView>, pos: int) -> Opened<
    EgrulRecordView,
> {
    let w = walk::<OkvedBlock, Activities>(le_activities(acc), events, pos + 1, 0);
    Opened {
        acc: EgrulRecordView {
            main_activity: w.acc.main,
            additional_activities: w.acc.additional,
            ..acc
        },
        next: w.next,
        nested: false,
        ok: w.ok,
    }
}

/// The block that names the head officer.
pub open spec fn le_open_head(acc: EgrulRecordView, events: Seq<EventView>, pos: int) -> Opened<
    EgrulRecordView,
> {
    let w = walk::<HeadBlock, HeadInfo>(head_of(element_at(events, pos)), events, pos + 1, 0);
    Opened {
        acc: EgrulRecordView { head: or_else(acc.head, Some(w.acc)), ..acc },
        next: w.next,
        nested: false,
        ok: w.ok,
    }
}

/// The block that lists the founders.
pub open spec fn le_open_founders(acc: EgrulRecordView, events: Seq<EventView>, pos: int) -> Opened<
    EgrulRecordView,
> {
    let w = walk::<FoundersBlock, Founders>(acc.founders, events, pos + 1, 0);
    Opened {
        acc: EgrulRecordView { founders: w.acc, ..acc },
        next: w.next,
        nested: false,
        ok: w.ok,
    }
}

/// The registration that the registering authority's tag describes.
pub open spec fn registration_of(e: ElementView) -> RegistrationInfoView {
    RegistrationInfoView { authority: Some(authority_of(e)), ..RegistrationInfoView::empty() }
}

/// The block of the registering authority: its tag gives the
/// registration, its content is passed over.
pub open spec fn le_open_registration(
    acc: EgrulRecordView,
    events: Seq<EventView>,
    pos: int,
) -> Opened<EgrulRecordView> {
    let e = element_at(events, pos);
    let w = walk::<Skipped, Nothing>((), events, pos + 1, 0);
    Opened {
        acc: EgrulRecordView {
            registration: or_else(acc.registration, Some(registration_of(e))),
            ..acc
        },
        next: w.next,
        nested: false,
        ok: w.ok,
    }
}

/// The block of the registration with a tax authority.
pub open spec fn le_open_tax(acc: EgrulRecordView, events: Seq<EventView>, pos: int) -> Opened<
    EgrulRecordView,
> {
    let w = walk::<TaxBlock, TaxAuthority>(
        tax_authority_of(element_at(events, pos)),
        events,
        pos + 1,
        0,
    );
    Opened {
        acc: EgrulRecordView { tax_authority: or_else(acc.tax_authority, Some(w.acc)), ..acc },
        next: w.next,
        nested: false,
        ok: w.ok,
    }
}

/// The block of the registration with the pension fund.
pub open spec fn le_open_pension(acc: EgrulRecordView, events: Seq<EventView>, pos: int) -> Opened<
    EgrulRecordView,
> {
    let w = walk::<PensionBlock, PensionFund>(
        pension_fund_of(element_at(events, pos)),
        events,
        pos + 1,
        0,
    );
    Opened {
        acc: EgrulRecordView { pension_fund: or_else(acc.pension_fund, Some(w.acc)), ..acc },
        next: w.next,
        nested: false,
        ok: w.ok,
    }
}

/// The block of the registration with the social insurance fund.
pub open spec fn le_open_insurance(
    acc: EgrulRecordView,
    events: Seq<EventView>,
    pos: int,
) -> Opened<EgrulRecordView> {
    let w = walk::<InsuranceBlock, SocialInsurance>(
        social_insurance_of(element_at(events, pos)),
        events,
        pos + 1,
        0,
    );
    Opened {
        acc: EgrulRecordView {
            social_insurance: or_else(acc.social_insurance, Some(w.acc)),
            ..acc
        },
        next: w.next,
        nested: false,
        ok: w.ok,
    }
}

/// The history row as far as its own tag describes it.
pub open spec fn le_history_start(e: ElementView) -> HistoryRecordView {
    HistoryRecordView {
        grn: or_empty(e.attr2("ГРН"@, "ИдЗап"@)),
        date: e.date_attr2("ДатаЗап"@, "Дата"@),
        ..HistoryRecordView::empty()
    }
}

/// One row of the change history, appended to the rows so far.
pub open spec fn le_open_history(acc: EgrulRecordView, events: Seq<EventView>, pos: int) -> Opened<
    EgrulRecordView,
> {
    let w = walk::<HistoryBlock, HistoryRecord>(
        le_history_start(element_at(events, pos)),
        events,
        pos + 1,
        0,
    );
    Opened {
        acc: EgrulRecordView { history: acc.history.push(w.acc), ..acc },
        next: w.next,
        nested: false,
        ok: w.ok,
    }
}

/// What a start tag inside the record does: a block that has a parser of
/// its own is walked by it to its end; of any other tag the attributes are
/// read and the content is walked as part of the record.
pub open spec fn le_opened(acc: EgrulRecordView, events: Seq<EventView>, pos: int) -> Opened<
    EgrulRecordView,
> {
    let e = element_at(events, pos);
    if e.is_tag("СвНаимЮЛ"@) || e.is_tag("СвНаим"@) {
        le_open_name(acc, events, pos)
    } else if e.is_tag("СвАдресЮЛ"@) || e.is_tag("СвАдрес"@) {
        le_open_address(acc, events, pos)
    } else if e.is_tag("СвОКВЭД"@) {
        le_open_okved(acc, events, pos)
    } else if e.is_tag("СведДолжнФЛ"@) || e.is_tag("СвЛицЕИО"@) || e.is_tag("СведДол662"@) {
        le_open_head(acc, events, pos)
    } else if e.is_tag("СвУчредит"@) {
        le_open_founders(acc, events, pos)
    } else if e.is_tag("СвРегОрг"@) {
        le_open_registration(acc, events, pos)
    } else if e.is_tag("СвУчетНО"@) || e.is_tag("СвНалУч"@) {
        le_open_tax(acc, events, pos)
    } else if e.is_tag("СвРегПФ"@) {
        le_open_pension(acc, events, pos)
    } else if e.is_tag("СвРегФСС"@) {
        le_open_insurance(acc, events, pos)
    } else if e.is_tag("СвЗапись"@) || e.is_tag("СвЗапЕГРЮЛ"@) {
        le_open_history(acc, events, pos)
    } else {
        stay_open(le_leaf(acc, e), pos)
    }
}

/// The first history row that carries a certificate's series or number.
pub open spec fn first_certified(history: Seq<HistoryRecordView>) -> Option<HistoryRecordView>
    decreases history.len(),
{
    if history.len() == 0 {
        None
    } else if history[0].certificate_series is Some || history[0].certificate_number is Some {
        Some(history[0])
    } else {
        first_certified(history.skip(1))
    }
}

/// The registration with the certificate of the first history row that
/// carries one, where the registration names no certificate itself.
pub open spec fn with_first_certificate(
    registration: Option<RegistrationInfoView>,
    history: Seq<HistoryRecordView>,
) -> Option<RegistrationInfoView> {
    match registration {
        Some(r) => if r.certificate_series is None {
            match first_certified(history) {
                Some(h) => Some(
                    RegistrationInfoView {
                        certificate_series: h.certificate_series,
                        certificate_number: h.certificate_number,
                        certificate_date: h.certificate_date,
                        ..r
                    },
                ),
                None => registration,
            }
        } else {
            registration
        },
        None => None,
    }
}

/// The code of the authority that a registration names.
pub open spec fn le_authority_code(registration: Option<RegistrationInfoView>) -> Option<
    Seq<char>,
> {
    match registration {
        Some(r) => code_of(r.authority),
        None => None,
    }
}

/// The record as it is emitted: the registration date defaults to the date
/// on which the registration number was assigned, the registration takes
/// its certificate from the history where it names none, and an address
/// without a region code takes the first two digits of the registering
/// authority's code.
pub open spec fn le_finished(acc: EgrulRecordView) -> EgrulRecordView {
    EgrulRecordView {
        registration_date: or_else(acc.registration_date, acc.ogrn_date),
        registration: with_first_certificate(acc.registration, acc.history),
        address: with_region_fallback(acc.address, le_authority_code(acc.registration)),
        ..acc
    }
}

/// A copy of an optional text.
pub fn clone_text(value: &Option<String>) -> (r: Option<String>)
    ensures
        r.deep_view() == value.deep_view(),
{
    match value {
        Some(v) => Some(v.clone()),
        None => None,
    }
}

impl EgrulRecord {
    /// Reads the record's own tag.
    pub fn begin(e: &XmlElement) -> (r: Self)
        ensures
            r.deep_view() == le_record_start(e.deep_view()),
    {
        let mut record = EgrulRecord::new();
        record.ogrn = match e.get_attr("ОГРН") {
            Some(v) => v,
            None => String::new(),
        };
        record.ogrn_date = e.get_date_attr("ДатаОГРН");
        record.inn = match e.get_attr("ИНН") {
            Some(v) => v,
            None => String::new(),
        };
        record.kpp = e.get_attr("КПП");
        record.extract_date = e.get_date_attr("ДатаВып");
        record.status_code = e.get_attr2("СтатусЮЛ", "Статус");
        record.opf_code = e.get_attr("КодОПФ");
        record.opf_name = e.get_attr2("ПолнНаимОПФ", "НаимОПФ");
        record
    }

    /// Takes in the names that a naming tag gives.
    pub fn add_names(&mut self, e: &XmlElement)
        ensures
            final(self).deep_view() == with_names(old(self).deep_view(), e.deep_view()),
    {
        fill_text(&mut self.full_name, normalize_option(e.get_attr2("НаимЮЛПолн", "НаимПолн")));
        fill(&mut self.short_name, normalize_option(e.get_attr("НаимСокр")));
    }

    /// Takes in the activity that a tag describes.
    pub fn add_activity(&mut self, e: &XmlElement)
        ensures
            final(self).deep_view() == (EgrulRecordView {
                main_activity: with_activity(le_activities(old(self).deep_view()), e.deep_view()).main,
                additional_activities: with_activity(
                    le_activities(old(self).deep_view()),
                    e.deep_view(),
                ).additional,
                ..old(self).deep_view()
            }),
    {
        let mut acts = Activities { main: self.main_activity.take(), additional: Vec::new() };
        core::mem::swap(&mut acts.additional, &mut self.additional_activities);
        acts.add(e);
        self.main_activity = acts.main;
        self.additional_activities = acts.additional;
    }

    /// Takes in what the attributes of a tag inside the record say.
    pub fn add_detail(&mut self, e: &XmlElement)
        ensures
            final(self).deep_view() == le_leaf(old(self).deep_view(), e.deep_view()),
    {
        if e.is_tag("СвНаимЮЛ") || e.is_tag("СвНаим") {
            self.add_names(e);
        } else if e.is_tag("СвУстКап") {
            if self.capital.is_none() {
                self.capital = parse_capital(e);
            }
        } else if e.is_tag("СвОКВЭДОсн") || e.is_tag("СвОКВЭДДоп") {
            self.add_activity(e);
        } else if e.is_tag("СвКонт") || e.is_tag("СведКонт") {
            fill(&mut self.email, e.get_attr("E-mail"));
        } else if e.is_tag("СвПрекрЮЛ") {
            fill_date(&mut self.termination_date, e.get_date_attr2("ДатаПрекращ", "Дата"));
            fill(&mut self.termination_method, e.get_attr("СпосПрекращ"));
        } else if e.is_tag("СвСтатус") || e.is_tag("СвСтатусЮЛ") {
            fill(&mut self.status_code, e.get_attr2("КодСтатусЮЛ", "КодСтатус"));
        } else {
            self.add_closed_block(e);
        }
    }

    /// Takes in a block whose own tag closes itself.
    pub fn add_closed_block(&mut self, e: &XmlElement)
        ensures
            final(self).deep_view() == le_closed_block(old(self).deep_view(), e.deep_view()),
    {
        if e.is_tag("СвАдресЮЛ") || e.is_tag("СвАдрес") {
            let mut address = match self.address.take() {
                Some(a) => a,
                None => Address::new(),
            };
            fill(&mut address.full_address, e.get_attr("Адрес"));
            address.complete();
            self.address = Some(address);
        } else if e.is_tag("СведДолжнФЛ") || e.is_tag("СвЛицЕИО") || e.is_tag("СведДол662") {
            if self.head.is_none() {
                self.head = Some(HeadInfo::begin(e));
            }
        } else if e.is_tag("СвРегОрг") {
            self.add_registration(e);
        } else if e.is_tag("СвУчетНО") || e.is_tag("СвНалУч") {
            if self.tax_authority.is_none() {
                self.tax_authority = Some(TaxAuthority::begin(e));
            }
        } else if e.is_tag("СвРегПФ") {
            if self.pension_fund.is_none() {
                self.pension_fund = Some(PensionFund::begin(e));
            }
        } else if e.is_tag("СвРегФСС") {
            if self.social_insurance.is_none() {
                self.social_insurance = Some(SocialInsurance::begin(e));
            }
        } else if e.is_tag("СвЗапись") || e.is_tag("СвЗапЕГРЮЛ") {
            let row = Self::begin_history_row(e);
            let ghost before = self.history.deep_view();
            self.history.push(row);
            assert(self.history.deep_view() =~= before.push(row.deep_view()));
        }
    }

    /// Takes in what the registering authority's own tag says: the
    /// registration.
    pub fn add_registration(&mut self, e: &XmlElement)
        ensures
            final(self).deep_view() == (EgrulRecordView {
                registration: or_else(
                    old(self).deep_view().registration,
                    Some(registration_of(e.deep_view())),
                ),
                ..old(self).deep_view()
            }),
    {
        if self.registration.is_none() {
            let mut registration = RegistrationInfo::new();
            registration.authority = Some(parse_authority(e));
            self.registration = Some(registration);
        }
    }

    /// Reads a history row's own tag.
    pub fn begin_history_row(e: &XmlElement) -> (row: HistoryRecord)
        ensures
            row.deep_view() == le_history_start(e.deep_view()),
    {
        let mut row = HistoryRecord::new();
        row.grn = match e.get_attr2("ГРН", "ИдЗап") {
            Some(v) => v,
            None => String::new(),
        };
        row.date = e.get_date_attr2("ДатаЗап", "Дата");
        row
    }

    /// Walks the naming block that starts at `pos`.
    pub(crate) fn parse_sv_naim(&mut self, e: &XmlElement, events: &[XmlEvent], pos: usize) -> (step:
        OpenStep)
        requires
            pos < events.len(),
            events[pos as int].deep_view() == EventView::Start(e.deep_view()),
        ensures
            pos < step.next <= events.len(),
            le_open_name(old(self).deep_view(), events.deep_view(), pos as int) == (Opened {
                acc: final(self).deep_view(),
                next: step.next as int,
                nested: step.nested,
                ok: step.ok,
            }),
    {
        assert(events.deep_view()[pos as int] == events[pos as int].deep_view());
        self.add_names(e);
        let mut draft = NameDraft { short_name: self.short_name.take() };
        let (next, ok) = walk_block::<NameBlock, NameDraft>(&mut draft, events, pos + 1);
        self.short_name = draft.short_name;
        OpenStep { next, nested: false, ok }
    }

    /// Walks the address block that starts at `pos`.
    pub(crate) fn parse_address(&mut self, e: &XmlElement, events: &[XmlEvent], pos: usize) -> (step:
        OpenStep)
        requires
            pos < events.len(),
            events[pos as int].deep_view() == EventView::Start(e.deep_view()),
        ensures
            pos < step.next <= events.len(),
            le_open_address(old(self).deep_view(), events.deep_view(), pos as int) == (Opened {
                acc: final(self).deep_view(),
                next: step.next as int,
                nested: step.nested,
                ok: step.ok,
            }),
    {
        assert(events.deep_view()[pos as int] == events[pos as int].deep_view());
        let mut address = match self.address.take() {
            Some(a) => a,
            None => Address::new(),
        };
        fill(&mut address.full_address, e.get_attr("Адрес"));
        let (next, ok) = walk_block::<LeAddress, Address>(&mut address, events, pos + 1);
        address.complete();
        self.address = Some(address);
        OpenStep { next, nested: false, ok }
    }

    /// Walks the block of activities that starts at `pos`.
    pub(crate) fn parse_okvad(&mut self, events: &[XmlEvent], pos: usize) -> (step: OpenStep)
        requires
            pos < events.len(),
        ensures
            pos < step.next <= events.len(),
            le_open_okved(old(self).deep_view(), events.deep_view(), pos as int) == (Opened {
                acc: final(self).deep_view(),
                next: step.next as int,
                nested: step.nested,
                ok: step.ok,
            }),
    {
        let mut acts = Activities { main: self.main_activity.take(), additional: Vec::new() };
        core::mem::swap(&mut acts.additional, &mut self.additional_activities);
        let (next, ok) = walk_block::<OkvedBlock, Activities>(&mut acts, events, pos + 1);
        self.main_activity = acts.main;
        self.additional_activities = acts.additional;
        OpenStep { next, nested: false, ok }
    }

    /// Walks the head officer's block that starts at `pos`.
    pub(crate) fn parse_head(&mut self, e: &XmlElement, events: &[XmlEvent], pos: usize) -> (step:
        OpenStep)
        requires
            pos < events.len(),
            events[pos as int].deep_view() == EventView::Start(e.deep_view()),
        ensures
            pos < step.next <= events.len(),
            le_open_head(old(self).deep_view(), events.deep_view(), pos as int) == (Opened {
                acc: final(self).deep_view(),
                next: step.next as int,
                nested: step.nested,
                ok: step.ok,
            }),
    {
        assert(events.deep_view()[pos as int] == events[pos as int].deep_view());
        let mut head = HeadInfo::begin(e);
        let (next, ok) = walk_block::<HeadBlock, HeadInfo>(&mut head, events, pos + 1);
        if self.head.is_none() {
            self.head = Some(head);
        }
        OpenStep { next, nested: false, ok }
    }

    /// Walks the founders' block that starts at `pos`.
    pub(crate) fn parse_founders(&mut self, events: &[XmlEvent], pos: usize) -> (step: OpenStep)
        requires
            pos < events.len(),
        ensures
            pos < step.next <= events.len(),
            le_open_founders(old(self).deep_view(), events.deep_view(), pos as int) == (Opened {
                acc: final(self).deep_view(),
                next: step.next as int,
                nested: step.nested,
                ok: step.ok,
            }),
    {
        let mut founders = Founders { list: Vec::new() };
        core::mem::swap(&mut founders.list, &mut self.founders);
        let (next, ok) = walk_block::<FoundersBlock, Founders>(&mut founders, events, pos + 1);
        self.founders = founders.list;
        OpenStep { next, nested: false, ok }
    }

    /// Walks the registering authority's block that starts at `pos`.
    pub(crate) fn parse_registration(&mut self, e: &XmlElement, events: &[XmlEvent], pos: usize) -> (step:
        OpenStep)
        requires
            pos < events.len(),
            events[pos as int].deep_view() == EventView::Start(e.deep_view()),
        ensures
            pos < step.next <= events.len(),
            le_open_registration(old(self).deep_view(), events.deep_view(), pos as int) == (Opened {
                acc: final(self).deep_view(),
                next: step.next as int,
                nested: step.nested,
                ok: step.ok,
            }),
    {
        assert(events.deep_view()[pos as int] == events[pos as int].deep_view());
        self.add_registration(e);
        let mut nothing = Nothing;
        let (next, ok) = walk_block::<Skipped, Nothing>(&mut nothing, events, pos + 1);
        OpenStep { next, nested: false, ok }
    }

    /// Walks the tax registration's block that starts at `pos`.
    pub(crate) fn parse_tax_authority(&mut self, e: &XmlElement, events: &[XmlEvent], pos: usize) -> (step:
        OpenStep)
        requires
            pos < events.len(),
            events[pos as int].deep_view() == EventView::Start(e.deep_view()),
        ensures
            pos < step.next <= events.len(),
            le_open_tax(old(self).deep_view(), events.deep_view(), pos as int) == (Opened {
                acc: final(self).deep_view(),
                next: step.next as int,
                nested: step.nested,
                ok: step.ok,
            }),
    {
        assert(events.deep_view()[pos as int] == events[pos as int].deep_view());
        let mut tax = TaxAuthority::begin(e);
        let (next, ok) = walk_block::<TaxBlock, TaxAuthority>(&mut tax, events, pos + 1);
        if self.tax_authority.is_none() {
            self.tax_authority = Some(tax);
        }
        OpenStep { next, nested: false, ok }
    }

    /// Walks the pension registration's block that starts at `pos`.
    pub(crate) fn parse_pension_fund(&mut self, e: &XmlElement, events: &[XmlEvent], pos: usize) -> (step:
        OpenStep)
        requires
            pos < events.len(),
            events[pos as int].deep_view() == EventView::Start(e.deep_view()),
        ensures
            pos < step.next <= events.len(),
            le_open_pension(old(self).deep_view(), events.deep_view(), pos as int) == (Opened {
                acc: final(self).deep_view(),
                next: step.next as int,
                nested: step.nested,
                ok: step.ok,
            }),
    {
        assert(events.deep_view()[pos as int] == events[pos as int].deep_view());
        let mut fund = PensionFund::begin(e);
        let (next, ok) = walk_block::<PensionBlock, PensionFund>(&mut fund, events, pos + 1);
        if self.pension_fund.is_none() {
            self.pension_fund = Some(fund);
        }
        OpenStep { next, nested: false, ok }
    }

    /// Walks the social insurance registration's block that starts at `pos`.
    pub(crate) fn parse_social_insurance(
        &mut self,
        e: &XmlElement,
        events: &[XmlEvent],
        pos: usize,
    ) -> (step: OpenStep)
        requires
            pos < events.len(),
            events[pos as int].deep_view() == EventView::Start(e.deep_view()),
        ensures
            pos < step.next <= events.len(),
            le_open_insurance(old(self).deep_view(), events.deep_view(), pos as int) == (Opened {
                acc: final(self).deep_view(),
                next: step.next as int,
                nested: step.nested,
                ok: step.ok,
            }),
    {
        assert(events.deep_view()[pos as int] == events[pos as int].deep_view());
        let mut fund = SocialInsurance::begin(e);
        let (next, ok) = walk_block::<InsuranceBlock, SocialInsurance>(&mut fund, events, pos + 1);
        if self.social_insurance.is_none() {
            self.social_insurance = Some(fund);
        }
        OpenStep { next, nested: false, ok }
    }

    /// Walks the history row that starts at `pos`.
    pub(crate) fn parse_history_record(&mut self, e: &XmlElement, events: &[XmlEvent], pos: usize) -> (step:
        OpenStep)
        requires
            pos < events.len(),
            events[pos as int].deep_view() == EventView::Start(e.deep_view()),
        ensures
            pos < step.next <= events.len(),
            le_open_history(old(self).deep_view(), events.deep_view(), pos as int) == (Opened {
                acc: final(self).deep_view(),
                next: step.next as int,
                nested: step.nested,
                ok: step.ok,
            }),
    {
        assert(events.deep_view()[pos as int] == events[pos as int].deep_view());
        let mut row = Self::begin_history_row(e);
        let (next, ok) = walk_block::<HistoryBlock, HistoryRecord>(&mut row, events, pos + 1);
        let ghost before = self.history.deep_view();
        self.history.push(row);
        assert(self.history.deep_view() =~= before.push(row.deep_view()));
        OpenStep { next, nested: false, ok }
    }

    /// Gives the registration the certificate of the first history row
    /// that carries one, where the registration names none itself.
    pub fn adopt_first_certificate(&mut self)
        ensures
            final(self).deep_view() == (EgrulRecordView {
                registration: with_first_certificate(
                    old(self).deep_view().registration,
                    old(self).deep_view().history,
                ),
                ..old(self).deep_view()
            }),
    {
        let ghost all = self.history.deep_view();
        let needs = match &self.registration {
            Some(r) => r.certificate_series.is_none(),
            None => false,
        };
        if !needs {
            return ;
        }
        let mut i: usize = 0;
        assert(all.skip(0) =~= all);
        while i < self.history.len()
            invariant
                i <= self.history.len(),
                all == self.history.deep_view(),
                *self == *old(self),
                self.registration is Some,
                self.registration->0.certificate_series is None,
                first_certified(all) == first_certified(all.skip(i as int)),
            decreases self.history.len() - i,
        {
            let h = &self.history[i];
            proof {
                assert(all.skip(i as int)[0] == h.deep_view());
                assert(all.skip(i as int).skip(1) =~= all.skip(i + 1));
            }
            if h.certificate_series.is_some() || h.certificate_number.is_some() {
                assert(first_certified(all) == Some(h.deep_view()));
                let series = clone_text(&h.certificate_series);
                let number = clone_text(&h.certificate_number);
                let date = h.certificate_date;
                if let Some(mut r) = self.registration.take() {
                    r.certificate_series = series;
                    r.certificate_number = number;
                    r.certificate_date = date;
                    self.registration = Some(r);
                }
                return ;
            }
            i = i + 1;
        }
        assert(all.skip(i as int).len() == 0);
    }

    /// Completes a record whose content has been walked.
    pub fn finish(&mut self)
        ensures
            final(self).deep_view() == le_finished(old(self).deep_view()),
    {
        if self.registration_date.is_none() {
            self.registration_date = self.ogrn_date;
        }
        let tax_code = match &self.registration {
            Some(r) => authority_code(&r.authority),
            None => None,
        };
        apply_region_fallback(&mut self.address, &tax_code);
        self.adopt_first_certificate();
    }
}

impl Block<LeBody> for EgrulRecord {
    open spec fn opened(acc: EgrulRecordView, events: Seq<EventView>, pos: int) -> Opened<
        EgrulRecordView,
    > {
        le_opened(acc, events, pos)
    }

    open spec fn leaf(acc: EgrulRecordView, e: ElementView) -> EgrulRecordView {
        le_leaf(acc, e)
    }

    fn open(&mut self, events: &[XmlEvent], pos: usize) -> (step: OpenStep) {
        assert(events.deep_view()[pos as int] == events[pos as int].deep_view());
        match &events[pos] {
            XmlEvent::Start(e) => {
                if e.is_tag("СвНаимЮЛ") || e.is_tag("СвНаим") {
                    self.parse_sv_naim(e, events, pos)
                } else if e.is_tag("СвАдресЮЛ") || e.is_tag("СвАдрес") {
                    self.parse_address(e, events, pos)
                } else if e.is_tag("СвОКВЭД") {
                    self.parse_okvad(events, pos)
                } else if e.is_tag("СведДолжнФЛ") || e.is_tag("СвЛицЕИО") || e.is_tag(
                    "СведДол662",
                ) {
                    self.parse_head(e, events, pos)
                } else if e.is_tag("СвУчредит") {
                    self.parse_founders(events, pos)
                } else if e.is_tag("СвРегОрг") {
                    self.parse_registration(e, events, pos)
                } else if e.is_tag("СвУчетНО") || e.is_tag("СвНалУч") {
                    self.parse_tax_authority(e, events, pos)
                } else if e.is_tag("СвРегПФ") {
                    self.parse_pension_fund(e, events, pos)
                } else if e.is_tag("СвРегФСС") {
                    self.parse_social_insurance(e, events, pos)
                } else if e.is_tag("СвЗапись") || e.is_tag("СвЗапЕГРЮЛ") {
                    self.parse_history_record(e, events, pos)
                } else {
                    self.add_detail(e);
                    OpenStep { next: pos + 1, nested: true, ok: true }
                }
            },
            _ => OpenStep { next: pos + 1, nested: true, ok: true },
        }
    }

    fn close_leaf(&mut self, e: &XmlElement) {
        self.add_detail(e)
    }
}

/// What the walk through the content of the element whose start tag stands
/// at `pos` gives: the record as its blocks filled it, the index of the
/// first event behind the walk, and whether the content was well formed.
pub open spec fn le_walked(events: Seq<EventView>, pos: int) -> Walked<EgrulRecordView> {
    walk::<LeBody, EgrulRecord>(le_record_start(element_at(events, pos)), events, pos + 1, 0)
}

/// The record that the element whose start tag stands at `pos` yields, if
/// its content is well formed and the record is valid, and the index of the
/// first event after the element.
pub open spec fn le_record_at(events: Seq<EventView>, pos: int) -> (Option<EgrulRecordView>, int) {
    let w = le_walked(events, pos);
    let record = le_finished(w.acc);
    (
        if w.ok && record.is_valid() {
            Some(record)
        } else {
            None
        },
        w.next,
    )
}

/// The record that one element yields: `element` holds the element's start
/// tag and, behind it, the events that the element takes up.
pub open spec fn le_record_of(element: Seq<EventView>) -> Option<EgrulRecordView> {
    if element.len() > 0 && element[0] is Start {
        le_record_at(element, 0).0
    } else {
        None
    }
}

/// The records that the events from `pos` on yield, in document order.
/// Every element named `СвЮЛ` is read as a record, from its own events
/// alone; a record that is not valid, or in whose content an event is
/// malformed, is left out, and the extraction goes on behind the element.
/// A malformed event between records ends the extraction.
pub open spec fn le_records_from(events: Seq<EventView>, pos: int) -> Seq<EgrulRecordView>
    decreases events.len() - pos,
{
    if pos < 0 || pos >= events.len() {
        Seq::empty()
    } else {
        match events[pos] {
            EventView::Start(e) => if e.is_tag("СвЮЛ"@) {
                let end = pos + 1 + element_extent(events.skip(pos + 1), 0);
                let found = match le_record_of(events.subrange(pos, end)) {
                    Some(r) => seq![r],
                    None => Seq::empty(),
                };
                if end <= events.len() {
                    found + le_records_from(events, end)
                } else {
                    found
                }
            } else {
                le_records_from(events, pos + 1)
            },
            EventView::Malformed => Seq::empty(),
            _ => le_records_from(events, pos + 1),
        }
    }
}

/// The records of legal entities that a document's events yield.
pub open spec fn le_records(events: Seq<EventView>) -> Seq<EgrulRecordView> {
    le_records_from(events, 0)
}

/// The extractor for legal entities.
pub struct EgrulXmlParser;

impl EgrulXmlParser {
    pub fn new() -> (r: Self) {
        EgrulXmlParser
    }

    /// Derives a region code from the code of a tax authority: its first
    /// two characters, if both are digits.
    pub fn extract_region_code_from_tax_code(tax_code: &str) -> (r: Option<String>)
        ensures
            r.deep_view() == region_code_of(tax_code@),
    {
        region_code_from_tax_code(tax_code)
    }

    /// Reads the record whose start tag stands at `pos`.
    pub(crate) fn parse_sv_ul(&self, e: &XmlElement, events: &[XmlEvent], pos: usize) -> (r: (
        Option<EgrulRecord>,
        usize,
    ))
        requires
            pos < events.len(),
            events[pos as int].deep_view() == EventView::Start(e.deep_view()),
        ensures
            pos < r.1 <= events.len(),
            (r.0.deep_view(), r.1 as int) == le_record_at(events.deep_view(), pos as int),
    {
        assert(events.deep_view()[pos as int] == events[pos as int].deep_view());
        let mut record = EgrulRecord::begin(e);
        let (next, ok) = walk_block::<LeBody, EgrulRecord>(&mut record, events, pos + 1);
        record.finish();
        if ok && record.is_valid() {
            (Some(record), next)
        } else {
            (None, next)
        }
    }

    /// Reads one record from the events of its element.
    pub fn read_record(&self, element: &[XmlEvent]) -> (r: Option<EgrulRecord>)
        ensures
            r.deep_view() == le_record_of(element.deep_view()),
    {
        if element.len() == 0 {
            return None;
        }
        assert(element.deep_view()[0] == element[0].deep_view());
        match &element[0] {
            XmlEvent::Start(e) => self.parse_sv_ul(e, element, 0).0,
            _ => None,
        }
    }

    /// Extracts the records of legal entities from a document's events.
    /// Every record that is returned is valid.
    pub fn parse_events(&self, events: &[XmlEvent]) -> (records: Vec<EgrulRecord>)
        ensures
            records.deep_view() == le_records(events.deep_view()),
            forall|i: int| 0 <= i < records.len() ==> (#[trigger] records[i]).deep_view().is_valid(),
    {
        let mut records: Vec<EgrulRecord> = Vec::new();
        let mut pos: usize = 0;
        let ghost all = events.deep_view();
        assert(records.deep_view() =~= Seq::<EgrulRecordView>::empty());
        while pos < events.len()
            invariant
                pos <= events.len(),
                all == events.deep_view(),
                le_records(all) == records.deep_view() + le_records_from(all, pos as int),
                forall|i: int|
                    0 <= i < records.len() ==> (#[trigger] records[i]).deep_view().is_valid(),
            decreases events.len() - pos,
        {
            assert(all[pos as int] == events[pos as int].deep_view());
            let ghost before = records.deep_view();
            match &events[pos] {
                XmlEvent::Start(e) => {
                    if e.is_tag("СвЮЛ") {
                        let end = element_end(events, pos + 1);
                        let element = slice_subrange(events, pos, end);
                        assert(element.deep_view() =~= all.subrange(pos as int, end as int));
                        let record = self.read_record(element);
                        proof {
                            lemma_found(before, record.deep_view(), le_records_from(all, end as int));
                        }
                        match record {
                            Some(r) => {
                                assert(r.deep_view().is_valid());
                                records.push(r);
                                assert(records.deep_view() =~= before.push(r.deep_view()));
                            },
                            None => {},
                        }
                        pos = end;
                    } else {
                        pos = pos + 1;
                    }
                },
                XmlEvent::Malformed => {
                    assert(before + Seq::<EgrulRecordView>::empty() =~= before);
                    return records;
                },
                _ => {
                    pos = pos + 1;
                },
            }
        }
        assert(records.deep_view() + Seq::<EgrulRecordView>::empty() =~= records.deep_view());
        records
    }

    /// Extracts the records of legal entities from a document, reading
    /// the events of one record at a time. Malformed XML costs records,
    /// never the whole document: the result is always `Ok`.
    pub fn parse(&self, content: &str) -> (r: Result<Vec<EgrulRecord>, Error>)
        ensures
            r is Ok,
            r->Ok_0.deep_view() == le_records(xml_events(content@)),
            forall|i: int|
                0 <= i < r->Ok_0.len() ==> (#[trigger] r->Ok_0[i]).deep_view().is_valid(),
    {
        let mut reader = EventReader::open(content);
        let mut records: Vec<EgrulRecord> = Vec::new();
        let ghost all = reader.pending();
        let ghost mut pos: int = 0;
        assert(records.deep_view() =~= Seq::<EgrulRecordView>::empty());
        assert(all.skip(0) =~= all);
        loop
            invariant_except_break
                le_records(all) == records.deep_view() + le_records_from(all, pos),
                reader.pending() == all.skip(pos),
            invariant
                0 <= pos <= all.len(),
                forall|i: int|
                    0 <= i < records.len() ==> (#[trigger] records[i]).deep_view().is_valid(),
            ensures
                records.deep_view() == le_records(all),
            decreases all.len() - pos,
        {
            let ghost before = records.deep_view();
            match reader.next() {
                Some(event) => {
                    proof {
                        assert(all.skip(pos)[0] == all[pos]);
                        assert(all.skip(pos).skip(1) =~= all.skip(pos + 1));
                    }
                    let opens = match &event {
                        XmlEvent::Start(e) => e.is_tag("СвЮЛ"),
                        _ => false,
                    };
                    let broken = match &event {
                        XmlEvent::Malformed => true,
                        _ => false,
                    };
                    if opens {
                        let ghost n = element_extent(all.skip(pos + 1), 0);
                        let element = reader.read_element(event);
                        proof {
                            assert(seq![all[pos]] + all.skip(pos + 1).take(n as int) =~= all.subrange(
                                pos,
                                pos + 1 + n,
                            ));
                            assert(all.skip(pos + 1).skip(n as int) =~= all.skip(pos + 1 + n));
                        }
                        let record = self.read_record(element.as_slice());
                        proof {
                            lemma_found(
                                before,
                                record.deep_view(),
                                le_records_from(all, pos + 1 + n),
                            );
                            pos = pos + 1 + n;
                        }
                        match record {
                            Some(r) => {
                                assert(r.deep_view().is_valid());
                                records.push(r);
                                assert(records.deep_view() =~= before.push(r.deep_view()));
                            },
                            None => {},
                        }
                    } else if broken {
                        assert(before + Seq::<EgrulRecordView>::empty() =~= before);
                        break;
                    } else {
                        proof {
                            pos = pos + 1;
                        }
                    }
                },
                None => {
                    assert(all.skip(pos).len() == 0);
                    assert(before + Seq::<EgrulRecordView>::empty() =~= before);
                    break;
                },
            }
        }
        Ok(records)
    }
}

impl Default for EgrulXmlParser {
    fn default() -> Self {
        EgrulXmlParser
    }
}

} // verus!
