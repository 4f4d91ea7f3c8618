//! Blocks that both registries share: activities, history rows, the
//! registrations with the tax authority and the funds, and elements that are
//! passed over.

use crate::date::Date;
use crate::models::common::Activity;
use crate::models::common::ActivityView;
use crate::models::common::Address;
use crate::models::common::AddressView;
use crate::models::common::HistoryRecord;
use crate::models::common::HistoryRecordView;
use crate::models::common::PensionFund;
use crate::models::common::PensionFundView;
use crate::models::common::Person;
use crate::models::common::PersonView;
use crate::models::common::RegistrationAuthority;
use crate::models::common::RegistrationAuthorityView;
use crate::models::common::SocialInsurance;
use crate::models::common::SocialInsuranceView;
use crate::models::common::TaxAuthority;
use crate::models::common::TaxAuthorityView;
use crate::parser::attributes::or_else;
use crate::parser::attributes::or_empty;
use crate::parser::walker::Block;
use crate::parser::walker::OpenStep;
use crate::parser::walker::Opened;
use crate::text::is_digit;
use crate::xml::ElementView;
use crate::xml::EventView;
use crate::xml::XmlElement;
use crate::xml::XmlEvent;
use vstd::prelude::*;

verus! {

/// A text field counts as set once it is not empty; a set field keeps its
/// value, an unset one takes the new value, if there is one.
pub open spec fn keep_text(current: Seq<char>, value: Option<Seq<char>>) -> Seq<char> {
    if current.len() > 0 {
        current
    } else {
        or_empty(value)
    }
}

/// Sets an optional text unless it is set already.
pub fn fill(field: &mut Option<String>, value: Option<String>)
    ensures
        final(field).deep_view() == or_else(old(field).deep_view(), value.deep_view()),
{
    if field.is_none() {
        *field = value;
    }
}

/// Sets a date unless it is set already.
pub fn fill_date(field: &mut Option<Date>, value: Option<Date>)
    ensures
        *final(field) == or_else(*old(field), value),
{
    if field.is_none() {
        *field = value;
    }
}

/// Sets a text unless it is set already.
pub fn fill_text(field: &mut String, value: Option<String>)
    ensures
        final(field)@ == keep_text(old(field)@, value.deep_view()),
{
    if field.as_str().is_empty() {
        match value {
            Some(v) => {
                *field = v;
            },
            None => {
                assert(field@ =~= Seq::<char>::empty());
            },
        }
    }
}

/// The element that a start or self-closing tag at `pos` opens.
pub open spec fn element_at(events: Seq<EventView>, pos: int) -> ElementView {
    match events[pos] {
        EventView::Start(e) => e,
        EventView::Empty(e) => e,
        _ => ElementView { name: Seq::empty(), attrs: Seq::empty() },
    }
}

/// A start tag whose content is walked by the block that met it.
pub open spec fn stay_open<V>(acc: V, pos: int) -> Opened<V> {
    Opened { acc, next: pos + 1, nested: true, ok: true }
}

/// Marks the walk that passes over an element without reading it.
pub struct Skipped;

/// The value that such a walk builds: nothing.
pub struct Nothing;

impl DeepView for Nothing {
    type V = ();

    open spec fn deep_view(&self) -> () {
        ()
    }
}

impl Block<Skipped> for Nothing {
    open spec fn opened(acc: (), events: Seq<EventView>, pos: int) -> Opened<()> {
        stay_open(acc, pos)
    }

    open spec fn leaf(acc: (), e: ElementView) -> () {
        acc
    }

    fn open(&mut self, events: &[XmlEvent], pos: usize) -> (step: OpenStep) {
        OpenStep { next: pos + 1, nested: true, ok: true }
    }

    fn close_leaf(&mut self, e: &XmlElement) {
    }
}

/// The activity that a tag describes, if it gives a code.
pub open spec fn activity_of(e: ElementView, is_main: bool) -> Option<ActivityView> {
    match e.attr("КодОКВЭД"@) {
        Some(code) => Some(
            ActivityView {
                code,
                name: or_empty(e.attr("НаимОКВЭД"@)),
                version: e.attr("ВерсОКВЭД"@),
                is_main,
            },
        ),
        None => None,
    }
}

/// Reads an activity from a tag.
pub fn parse_activity(e: &XmlElement, is_main: bool) -> (r: Option<Activity>)
    ensures
        r.deep_view() == activity_of(e.deep_view(), is_main),
{
    match e.get_attr("КодОКВЭД") {
        Some(code) => {
            let name = match e.get_attr("НаимОКВЭД") {
                Some(n) => n,
                None => String::new(),
            };
            let version = e.get_attr("ВерсОКВЭД");
            Some(Activity { code, name, version, is_main })
        },
        None => None,
    }
}

/// Marks the walk over a block of activities.
pub struct OkvedBlock;

/// The activities of a record: the main one and the additional ones.
pub struct Activities {
    pub main: Option<Activity>,
    pub additional: Vec<Activity>,
}

pub struct ActivitiesView {
    pub main: Option<ActivityView>,
    pub additional: Seq<ActivityView>,
}

impl DeepView for Activities {
    type V = ActivitiesView;

    open spec fn deep_view(&self) -> ActivitiesView {
        ActivitiesView { main: self.main.deep_view(), additional: self.additional.deep_view() }
    }
}

/// What a tag adds to the activities: the first main activity stays, every
/// additional one is appended.
pub open spec fn with_activity(acc: ActivitiesView, e: ElementView) -> ActivitiesView {
    if e.is_tag("СвОКВЭДОсн"@) {
        ActivitiesView { main: or_else(acc.main, activity_of(e, true)), ..acc }
    } else if e.is_tag("СвОКВЭДДоп"@) {
        match activity_of(e, false) {
            Some(a) => ActivitiesView { additional: acc.additional.push(a), ..acc },
            None => acc,
        }
    } else {
        acc
    }
}

impl Activities {
    /// Takes in the activity that a tag describes, if it describes one.
    pub fn add(&mut self, e: &XmlElement)
        ensures
            final(self).deep_view() == with_activity(old(self).deep_view(), e.deep_view()),
    {
        if e.is_tag("СвОКВЭДОсн") {
            if self.main.is_none() {
                self.main = parse_activity(e, true);
            }
        } else if e.is_tag("СвОКВЭДДоп") {
            match parse_activity(e, false) {
                Some(a) => {
                    let ghost before = self.additional.deep_view();
                    self.additional.push(a);
                    assert(self.additional.deep_view() =~= before.push(a.deep_view()));
                },
                None => {},
            }
        }
    }
}

impl Block<OkvedBlock> for Activities {
    open spec fn opened(acc: ActivitiesView, events: Seq<EventView>, pos: int) -> Opened<
        ActivitiesView,
    > {
        stay_open(with_activity(acc, element_at(events, pos)), pos)
    }

    open spec fn leaf(acc: ActivitiesView, e: ElementView) -> ActivitiesView {
        with_activity(acc, e)
    }

    fn open(&mut self, events: &[XmlEvent], pos: usize) -> (step: OpenStep) {
        assert(events.deep_view()[pos as int] == events[pos as int].deep_view());
        match &events[pos] {
            XmlEvent::Start(e) => self.add(e),
            _ => {},
        }
        OpenStep { next: pos + 1, nested: true, ok: true }
    }

    fn close_leaf(&mut self, e: &XmlElement) {
        self.add(e)
    }
}

/// The person that a tag names.
pub open spec fn person_of(e: ElementView) -> PersonView {
    PersonView {
        last_name: or_empty(e.attr("Фамилия"@)),
        first_name: or_empty(e.attr("Имя"@)),
        middle_name: e.attr("Отчество"@),
        inn: e.attr2("ИННФЛ"@, "ИНН"@),
    }
}

/// A person who is named already stays; otherwise the person that the tag
/// names is taken.
pub open spec fn keep_person(current: PersonView, e: ElementView) -> PersonView {
    if current.is_empty() {
        person_of(e)
    } else {
        current
    }
}

/// Reads a person's name and taxpayer number from a tag.
pub fn parse_person(e: &XmlElement) -> (r: Person)
    ensures
        r.deep_view() == person_of(e.deep_view()),
{
    let last_name = match e.get_attr("Фамилия") {
        Some(v) => v,
        None => String::new(),
    };
    let first_name = match e.get_attr("Имя") {
        Some(v) => v,
        None => String::new(),
    };
    Person {
        last_name,
        first_name,
        middle_name: e.get_attr("Отчество"),
        inn: e.get_attr2("ИННФЛ", "ИНН"),
    }
}

/// Takes the person that a tag names unless one is named already.
pub fn fill_person(person: &mut Person, e: &XmlElement)
    ensures
        final(person).deep_view() == keep_person(old(person).deep_view(), e.deep_view()),
{
    if person.is_empty() {
        *person = parse_person(e);
    }
}

/// The first two characters of an authority's code, if the code has them
/// and both are digits: the code of the region the authority sits in.
pub open spec fn region_code_of(tax_code: Seq<char>) -> Option<Seq<char>> {
    if tax_code.len() >= 2 && is_digit(tax_code[0]) && is_digit(tax_code[1]) {
        Some(tax_code.take(2))
    } else {
        None
    }
}

/// Derives a region code from the code of a tax authority.
pub fn region_code_from_tax_code(tax_code: &str) -> (r: Option<String>)
    ensures
        r.deep_view() == region_code_of(tax_code@),
{
    broadcast use vstd::string::group_string_axioms;

    let mut it = tax_code.chars();
    let first = it.next();
    let second = it.next();
    match (first, second) {
        (Some(a), Some(b)) => {
            assert(a == tax_code@[0] && b == tax_code@[1]);
            if '0' <= a && a <= '9' && '0' <= b && b <= '9' {
                let mut code = String::new();
                crate::text::push_char(&mut code, a);
                crate::text::push_char(&mut code, b);
                assert(code@ =~= tax_code@.take(2));
                Some(code)
            } else {
                None
            }
        },
        _ => None,
    }
}

/// The address after an authority's code was offered as the source of its
/// region code: an address that has a region code keeps it, one that has
/// none takes the code's first two digits, and a record without an address
/// gets one that holds just the region code. The offer is made once the
/// whole record is read, so that a region code of the address's own comes
/// first wherever in the record it stands.
pub open spec fn with_region_fallback(
    address: Option<AddressView>,
    tax_code: Option<Seq<char>>,
) -> Option<AddressView> {
    match tax_code {
        Some(code) => match region_code_of(code) {
            Some(region) => {
                let a = match address {
                    Some(a) => a,
                    None => AddressView::empty(),
                };
                Some(AddressView { region_code: or_else(a.region_code, Some(region)), ..a })
            },
            None => address,
        },
        None => address,
    }
}

/// Offers an authority's code as the source of the address's region code.
pub fn apply_region_fallback(address: &mut Option<Address>, tax_code: &Option<String>)
    ensures
        final(address).deep_view() == with_region_fallback(
            old(address).deep_view(),
            tax_code.deep_view(),
        ),
{
    if let Some(code) = tax_code {
        if let Some(region) = region_code_from_tax_code(code.as_str()) {
            let mut a = match address.take() {
                Some(a) => a,
                None => Address::new(),
            };
            fill(&mut a.region_code, Some(region));
            *address = Some(a);
        }
    }
}

/// The code of a registering authority, if one is named.
pub open spec fn code_of(authority: Option<RegistrationAuthorityView>) -> Option<Seq<char>> {
    match authority {
        Some(a) => Some(a.code),
        None => None,
    }
}

/// The address of a registering authority, if one is named and has one.
pub open spec fn address_of(authority: Option<RegistrationAuthorityView>) -> Option<Seq<char>> {
    match authority {
        Some(a) => a.address,
        None => None,
    }
}

/// A copy of the code of a registering authority.
pub fn authority_code(authority: &Option<RegistrationAuthority>) -> (r: Option<String>)
    ensures
        r.deep_view() == code_of(authority.deep_view()),
{
    match authority {
        Some(a) => Some(a.code.clone()),
        None => None,
    }
}

/// A copy of the address of a registering authority.
pub fn authority_address(authority: &Option<RegistrationAuthority>) -> (r: Option<String>)
    ensures
        r.deep_view() == address_of(authority.deep_view()),
{
    match authority {
        Some(a) => match &a.address {
            Some(line) => Some(line.clone()),
            None => None,
        },
        None => None,
    }
}

/// The registering authority that a tag names.
pub open spec fn authority_of(e: ElementView) -> RegistrationAuthorityView {
    RegistrationAuthorityView {
        code: or_empty(e.attr2("КодНО"@, "КодОрг"@)),
        name: or_empty(e.attr2("НаимНО"@, "НаимОрг"@)),
        address: e.attr2("АдрРО"@, "АдрОрг"@),
    }
}

/// Reads the registering authority from a tag.
pub fn parse_authority(e: &XmlElement) -> (r: RegistrationAuthority)
    ensures
        r.deep_view() == authority_of(e.deep_view()),
{
    let code = match e.get_attr2("КодНО", "КодОрг") {
        Some(v) => v,
        None => String::new(),
    };
    let name = match e.get_attr2("НаимНО", "НаимОрг") {
        Some(v) => v,
        None => String::new(),
    };
    RegistrationAuthority { code, name, address: e.get_attr2("АдрРО", "АдрОрг") }
}

/// Marks the walk over one row of the change history.
pub struct HistoryBlock;

/// What a tag inside a history row adds to it: the kind of entry, the
/// authority that made it, the certificate issued with it.
pub open spec fn with_history_detail(acc: HistoryRecordView, e: ElementView) -> HistoryRecordView {
    if e.is_tag("ВидЗап"@) {
        HistoryRecordView {
            reason_code: or_else(acc.reason_code, e.attr("КодСПВЗ"@)),
            reason_description: or_else(
                acc.reason_description,
                e.attr3("НаимВидЗап"@, "НаимВид"@, "Наименование"@),
            ),
            ..acc
        }
    } else if e.is_tag("СвРегОрг"@) || e.is_tag("РегОрг"@) {
        HistoryRecordView {
            authority_code: or_else(acc.authority_code, e.attr2("КодНО"@, "КодОрг"@)),
            authority_name: or_else(acc.authority_name, e.attr2("НаимНО"@, "НаимОрг"@)),
            ..acc
        }
    } else if e.is_tag("СвСвид"@) {
        HistoryRecordView {
            certificate_series: or_else(acc.certificate_series, e.attr("Серия"@)),
            certificate_number: or_else(acc.certificate_number, e.attr("Номер"@)),
            certificate_date: or_else(
                acc.certificate_date,
                e.date_attr2("ДатаВыдСвид"@, "ДатаВыд"@),
            ),
            ..acc
        }
    } else {
        acc
    }
}

impl HistoryRecord {
    /// Takes in what a tag inside the row says.
    pub fn add_detail(&mut self, e: &XmlElement)
        ensures
            final(self).deep_view() == with_history_detail(old(self).deep_view(), e.deep_view()),
    {
        if e.is_tag("ВидЗап") {
            fill(&mut self.reason_code, e.get_attr("КодСПВЗ"));
            fill(&mut self.reason_description, e.get_attr3("НаимВидЗап", "НаимВид", "Наименование"));
        } else if e.is_tag("СвРегОрг") || e.is_tag("РегОрг") {
            fill(&mut self.authority_code, e.get_attr2("КодНО", "КодОрг"));
            fill(&mut self.authority_name, e.get_attr2("НаимНО", "НаимОрг"));
        } else if e.is_tag("СвСвид") {
            fill(&mut self.certificate_series, e.get_attr("Серия"));
            fill(&mut self.certificate_number, e.get_attr("Номер"));
            fill_date(&mut self.certificate_date, e.get_date_attr2("ДатаВыдСвид", "ДатаВыд"));
        }
    }
}

impl Block<HistoryBlock> for HistoryRecord {
    open spec fn opened(acc: HistoryRecordView, events: Seq<EventView>, pos: int) -> Opened<
        HistoryRecordView,
    > {
        stay_open(with_history_detail(acc, element_at(events, pos)), pos)
    }

    open spec fn leaf(acc: HistoryRecordView, e: ElementView) -> HistoryRecordView {
        with_history_detail(acc, e)
    }

    fn open(&mut self, events: &[XmlEvent], pos: usize) -> (step: OpenStep) {
        assert(events.deep_view()[pos as int] == events[pos as int].deep_view());
        match &events[pos] {
            XmlEvent::Start(e) => self.add_detail(e),
            _ => {},
        }
        OpenStep { next: pos + 1, nested: true, ok: true }
    }

    fn close_leaf(&mut self, e: &XmlElement) {
        self.add_detail(e)
    }
}

/// Marks the walk over a registration with a tax authority.
pub struct TaxBlock;

/// The tax registration that the block's own tag describes.
pub open spec fn tax_authority_of(e: ElementView) -> TaxAuthorityView {
    TaxAuthorityView {
        code: or_empty(e.attr2("КодНО"@, "СвНалОрг"@)),
        name: or_empty(e.attr2("НаимНО"@, "НаимОрг"@)),
        registration_date: e.date_attr3("ДатаПостУч"@, "ДатаПост"@, "ДатаРег"@),
    }
}

/// What a tag inside the block adds: the authority's code and name, where
/// the block's own tag did not give them.
pub open spec fn with_tax_detail(acc: TaxAuthorityView, e: ElementView) -> TaxAuthorityView {
    if e.is_tag("СвНО"@) {
        TaxAuthorityView {
            code: keep_text(acc.code, e.attr("КодНО"@)),
            name: keep_text(acc.name, e.attr("НаимНО"@)),
            ..acc
        }
    } else {
        acc
    }
}

impl TaxAuthority {
    /// Reads the block's own tag.
    pub fn begin(e: &XmlElement) -> (r: Self)
        ensures
            r.deep_view() == tax_authority_of(e.deep_view()),
    {
        let code = match e.get_attr2("КодНО", "СвНалОрг") {
            Some(v) => v,
            None => String::new(),
        };
        let name = match e.get_attr2("НаимНО", "НаимОрг") {
            Some(v) => v,
            None => String::new(),
        };
        TaxAuthority {
            code,
            name,
            registration_date: e.get_date_attr3("ДатаПостУч", "ДатаПост", "ДатаРег"),
        }
    }

    /// Takes in what a tag inside the block says.
    pub fn add_detail(&mut self, e: &XmlElement)
        ensures
            final(self).deep_view() == with_tax_detail(old(self).deep_view(), e.deep_view()),
    {
        if e.is_tag("СвНО") {
            fill_text(&mut self.code, e.get_attr("КодНО"));
            fill_text(&mut self.name, e.get_attr("НаимНО"));
        }
    }
}

impl Block<TaxBlock> for TaxAuthority {
    open spec fn opened(acc: TaxAuthorityView, events: Seq<EventView>, pos: int) -> Opened<
        TaxAuthorityView,
    > {
        stay_open(with_tax_detail(acc, element_at(events, pos)), pos)
    }

    open spec fn leaf(acc: TaxAuthorityView, e: ElementView) -> TaxAuthorityView {
        with_tax_detail(acc, e)
    }

    fn open(&mut self, events: &[XmlEvent], pos: usize) -> (step: OpenStep) {
        assert(events.deep_view()[pos as int] == events[pos as int].deep_view());
        match &events[pos] {
            XmlEvent::Start(e) => self.add_detail(e),
            _ => {},
        }
        OpenStep { next: pos + 1, nested: true, ok: true }
    }

    fn close_leaf(&mut self, e: &XmlElement) {
        self.add_detail(e)
    }
}

/// Marks the walk over a registration with the pension fund.
pub struct PensionBlock;

/// The pension registration that the block's own tag describes.
pub open spec fn pension_fund_of(e: ElementView) -> PensionFundView {
    PensionFundView {
        reg_number: or_empty(e.attr2("РегНомПФ"@, "РегНомер"@)),
        registration_date: e.date_attr("ДатаРег"@),
        authority_name: e.attr2("НаимПФ"@, "НаимОрг"@),
    }
}

/// What a tag inside the block adds: the name of the fund's office.
pub open spec fn with_pension_detail(acc: PensionFundView, e: ElementView) -> PensionFundView {
    if e.is_tag("СвОргПФ"@) {
        PensionFundView {
            authority_name: or_else(acc.authority_name, e.attr2("НаимПФ"@, "НаимОрг"@)),
            ..acc
        }
    } else {
        acc
    }
}

impl PensionFund {
    /// Reads the block's own tag.
    pub fn begin(e: &XmlElement) -> (r: Self)
        ensures
            r.deep_view() == pension_fund_of(e.deep_view()),
    {
        let reg_number = match e.get_attr2("РегНомПФ", "РегНомер") {
            Some(v) => v,
            None => String::new(),
        };
        PensionFund {
            reg_number,
            registration_date: e.get_date_attr("ДатаРег"),
            authority_name: e.get_attr2("НаимПФ", "НаимОрг"),
        }
    }

    /// Takes in what a tag inside the block says.
    pub fn add_detail(&mut self, e: &XmlElement)
        ensures
            final(self).deep_view() == with_pension_detail(old(self).deep_view(), e.deep_view()),
    {
        if e.is_tag("СвОргПФ") {
            fill(&mut self.authority_name, e.get_attr2("НаимПФ", "НаимОрг"));
        }
    }
}

impl Block<PensionBlock> for PensionFund {
    open spec fn opened(acc: PensionFundView, events: Seq<EventView>, pos: int) -> Opened<
        PensionFundView,
    > {
        stay_open(with_pension_detail(acc, element_at(events, pos)), pos)
    }

    open spec fn leaf(acc: PensionFundView, e: ElementView) -> PensionFundView {
        with_pension_detail(acc, e)
    }

    fn open(&mut self, events: &[XmlEvent], pos: usize) -> (step: OpenStep) {
        assert(events.deep_view()[pos as int] == events[pos as int].deep_view());
        match &events[pos] {
            XmlEvent::Start(e) => self.add_detail(e),
            _ => {},
        }
        OpenStep { next: pos + 1, nested: true, ok: true }
    }

    fn close_leaf(&mut self, e: &XmlElement) {
        self.add_detail(e)
    }
}

/// Marks the walk over a registration with the social insurance fund.
pub struct InsuranceBlock;

/// The social insurance registration that the block's own tag describes.
pub open spec fn social_insurance_of(e: ElementView) -> SocialInsuranceView {
    SocialInsuranceView {
        reg_number: or_empty(e.attr2("РегНомФСС"@, "РегНомер"@)),
        registration_date: e.date_attr("ДатаРег"@),
        authority_name: e.attr2("НаимФСС"@, "НаимОрг"@),
    }
}

/// What a tag inside the block adds: the name of the fund's office.
pub open spec fn with_insurance_detail(
    acc: SocialInsuranceView,
    e: ElementView,
) -> SocialInsuranceView {
    if e.is_tag("СвОргФСС"@) {
        SocialInsuranceView {
            authority_name: or_else(acc.authority_name, e.attr2("НаимФСС"@, "НаимОрг"@)),
            ..acc
        }
    } else {
        acc
    }
}

impl SocialInsurance {
    /// Reads the block's own tag.
    pub fn begin(e: &XmlElement) -> (r: Self)
        ensures
            r.deep_view() == social_insurance_of(e.deep_view()),
    {
        let reg_number = match e.get_attr2("РегНомФСС", "РегНомер") {
            Some(v) => v,
            None => String::new(),
        };
        SocialInsurance {
            reg_number,
            registration_date: e.get_date_attr("ДатаРег"),
            authority_name: e.get_attr2("НаимФСС", "НаимОрг"),
        }
    }

    /// Takes in what a tag inside the block says.
    pub fn add_detail(&mut self, e: &XmlElement)
        ensures
            final(self).deep_view() == with_insurance_detail(old(self).deep_view(), e.deep_view()),
    {
        if e.is_tag("СвОргФСС") {
            fill(&mut self.authority_name, e.get_attr2("НаимФСС", "НаимОрг"));
        }
    }
}

impl Block<InsuranceBlock> for SocialInsurance {
    open spec fn opened(acc: SocialInsuranceView, events: Seq<EventView>, pos: int) -> Opened<
        SocialInsuranceView,
    > {
        stay_open(with_insurance_detail(acc, element_at(events, pos)), pos)
    }

    open spec fn leaf(acc: SocialInsuranceView, e: ElementView) -> SocialInsuranceView {
        with_insurance_detail(acc, e)
    }

    fn open(&mut self, events: &[XmlEvent], pos: usize) -> (step: OpenStep) {
        assert(events.deep_view()[pos as int] == events[pos as int].deep_view());
        match &events[pos] {
            XmlEvent::Start(e) => self.add_detail(e),
            _ => {},
        }
        OpenStep { next: pos + 1, nested: true, ok: true }
    }

    fn close_leaf(&mut self, e: &XmlElement) {
        self.add_detail(e)
    }
}

/// Appending what one element yielded, and then the rest, is appending
/// the two joined.
pub proof fn lemma_found<V>(before: Seq<V>, found: Option<V>, rest: Seq<V>)
    ensures
        before + (match found {
            Some(r) => seq![r],
            None => Seq::empty(),
        } + rest) == (match found {
            Some(r) => before.push(r),
            None => before,
        }) + rest,
{
    match found {
        Some(r) => {
            assert(before + (seq![r] + rest) =~= before.push(r) + rest);
        },
        None => {
            assert(before + (Seq::<V>::empty() + rest) =~= before + rest);
        },
    }
}

} // verus!
