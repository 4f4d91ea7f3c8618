//! Value objects shared by both registries.

use crate::date::Date;
use crate::text::concat3;
use crate::text::has_substring;
use crate::text::lowercase;
use crate::text::owned;
use crate::text::push_char;
use crate::text::str_contains;
use crate::text::str_eq;
use crate::text::str_to_lowercase;
use crate::text::trim;
use crate::text::trimmed;
use vstd::prelude::*;
use vstd::string::StringExecFns;

verus! {

/// A natural person's name.
#[derive(Debug, Clone)]
pub struct Person {
    pub last_name: String,
    pub first_name: String,
    pub middle_name: Option<String>,
    /// Taxpayer number of the person.
    pub inn: Option<String>,
}

pub struct PersonView {
    pub last_name: Seq<char>,
    pub first_name: Seq<char>,
    pub middle_name: Option<Seq<char>>,
    pub inn: Option<Seq<char>>,
}

impl DeepView for Person {
    type V = PersonView;

    open spec fn deep_view(&self) -> PersonView {
        PersonView {
            last_name: self.last_name@,
            first_name: self.first_name@,
            middle_name: self.middle_name.deep_view(),
            inn: self.inn.deep_view(),
        }
    }
}

impl PersonView {
    pub open spec fn empty() -> PersonView {
        PersonView { last_name: Seq::empty(), first_name: Seq::empty(), middle_name: None, inn: None }
    }

    /// Last, first and, where there is one, middle name, separated by spaces.
    pub open spec fn full_name(self) -> Seq<char> {
        match self.middle_name {
            Some(middle) if middle.len() > 0 => self.last_name + seq![' '] + self.first_name
                + seq![' '] + middle,
            _ => self.last_name + seq![' '] + self.first_name,
        }
    }

    /// The first character of a name, or a space for an empty one.
    pub open spec fn initial(name: Seq<char>) -> char {
        if name.len() > 0 {
            name[0]
        } else {
            ' '
        }
    }

    /// Last name and initials, as in `Иванов И.И.`.
    pub open spec fn short_name(self) -> Seq<char> {
        match self.middle_name {
            Some(middle) if middle.len() > 0 => self.last_name + seq![
                ' ',
                Self::initial(self.first_name),
                '.',
                Self::initial(middle),
                '.',
            ],
            _ => self.last_name + seq![' ', Self::initial(self.first_name), '.'],
        }
    }

    pub open spec fn is_empty(self) -> bool {
        self.last_name.len() == 0 && self.first_name.len() == 0
    }
}

/// The first character of a text, or a space if it has none.
fn initial_of(name: &str) -> (c: char)
    ensures
        c == PersonView::initial(name@),
{
    broadcast use vstd::string::group_string_axioms;

    let mut it = name.chars();
    match it.next() {
        Some(c) => c,
        None => ' ',
    }
}

impl Person {
    /// A person with no name.
    pub fn new() -> (p: Self)
        ensures
            p.deep_view() == PersonView::empty(),
    {
        Person { last_name: String::new(), first_name: String::new(), middle_name: None, inn: None }
    }

    /// Last, first and, where there is one, middle name, separated by spaces.
    pub fn full_name(&self) -> (s: String)
        ensures
            s@ == self.deep_view().full_name(),
    {
        proof {
            reveal_strlit(" ");
        }
        let mut s = concat3(self.last_name.as_str(), " ", self.first_name.as_str());
        match &self.middle_name {
            Some(middle) => {
                if !middle.as_str().is_empty() {
                    s.append(" ");
                    s.append(middle.as_str());
                }
            },
            None => {},
        }
        s
    }

    /// Last name and initials.
    pub fn short_name(&self) -> (s: String)
        ensures
            s@ == self.deep_view().short_name(),
    {
        let first_initial = initial_of(self.first_name.as_str());
        let mut s = owned(self.last_name.as_str());
        push_char(&mut s, ' ');
        push_char(&mut s, first_initial);
        push_char(&mut s, '.');
        match &self.middle_name {
            Some(middle) => {
                if !middle.as_str().is_empty() {
                    let middle_initial = initial_of(middle.as_str());
                    push_char(&mut s, middle_initial);
                    push_char(&mut s, '.');
                    assert(s@ =~= self.deep_view().short_name());
                    return s;
                }
            },
            None => {},
        }
        assert(s@ =~= self.deep_view().short_name());
        s
    }

    /// Neither last nor first name is known.
    pub fn is_empty(&self) -> (r: bool)
        ensures
            r == self.deep_view().is_empty(),
    {
        self.last_name.as_str().is_empty() && self.first_name.as_str().is_empty()
    }
}

/// A postal address.
#[derive(Debug, Clone)]
pub struct Address {
    pub postal_code: Option<String>,
    pub region_code: Option<String>,
    pub region: Option<String>,
    pub district: Option<String>,
    pub city: Option<String>,
    pub locality: Option<String>,
    /// Street type and name, joined.
    pub street: Option<String>,
    pub house: Option<String>,
    pub building: Option<String>,
    pub flat: Option<String>,
    /// The whole address in one line.
    pub full_address: Option<String>,
    pub fias_id: Option<String>,
    pub kladr_code: Option<String>,
}

pub struct AddressView {
    pub postal_code: Option<Seq<char>>,
    pub region_code: Option<Seq<char>>,
    pub region: Option<Seq<char>>,
    pub district: Option<Seq<char>>,
    pub city: Option<Seq<char>>,
    pub locality: Option<Seq<char>>,
    pub street: Option<Seq<char>>,
    pub house: Option<Seq<char>>,
    pub building: Option<Seq<char>>,
    pub flat: Option<Seq<char>>,
    pub full_address: Option<Seq<char>>,
    pub fias_id: Option<Seq<char>>,
    pub kladr_code: Option<Seq<char>>,
}

impl DeepView for Address {
    type V = AddressView;

    open spec fn deep_view(&self) -> AddressView {
        AddressView {
            postal_code: self.postal_code.deep_view(),
            region_code: self.region_code.deep_view(),
            region: self.region.deep_view(),
            district: self.district.deep_view(),
            city: self.city.deep_view(),
            locality: self.locality.deep_view(),
            street: self.street.deep_view(),
            house: self.house.deep_view(),
            building: self.building.deep_view(),
            flat: self.flat.deep_view(),
            full_address: self.full_address.deep_view(),
            fias_id: self.fias_id.deep_view(),
            kladr_code: self.kladr_code.deep_view(),
        }
    }
}

/// The parts joined by `sep`.
pub open spec fn join(parts: Seq<Seq<char>>, sep: Seq<char>) -> Seq<char>
    decreases parts.len(),
{
    if parts.len() == 0 {
        Seq::empty()
    } else if parts.len() == 1 {
        parts[0]
    } else {
        join(parts.drop_last(), sep) + sep + parts.last()
    }
}

/// A component as a list of parts: one part, the label followed by the
/// value, if the value is present and not empty; none otherwise.
pub open spec fn labelled(label: Seq<char>, value: Option<Seq<char>>) -> Seq<Seq<char>> {
    match value {
        Some(v) if v.len() > 0 => seq![label + v],
        _ => Seq::empty(),
    }
}

impl AddressView {
    pub open spec fn empty() -> AddressView {
        AddressView {
            postal_code: None,
            region_code: None,
            region: None,
            district: None,
            city: None,
            locality: None,
            street: None,
            house: None,
            building: None,
            flat: None,
            full_address: None,
            fias_id: None,
            kladr_code: None,
        }
    }

    /// The locality counts as a part only where it differs from the city.
    pub open spec fn locality_part(self) -> Seq<Seq<char>> {
        if self.city == self.locality {
            Seq::empty()
        } else {
            labelled(Seq::empty(), self.locality)
        }
    }

    /// The components that are present and not empty, each with its label,
    /// in the canonical order.
    pub open spec fn parts(self) -> Seq<Seq<char>> {
        labelled(Seq::empty(), self.postal_code) + labelled(Seq::empty(), self.region) + labelled(
            "р-н "@,
            self.district,
        ) + labelled("г. "@, self.city) + self.locality_part() + labelled("ул. "@, self.street)
            + labelled("д. "@, self.house) + labelled("корп. "@, self.building) + labelled(
            "кв. "@,
            self.flat,
        )
    }

    /// The address in one line, composed from its components.
    pub open spec fn composed(self) -> Seq<char> {
        join(self.parts(), ", "@)
    }

    /// No component that places the address is known.
    pub open spec fn is_empty(self) -> bool {
        self.postal_code is None && self.region is None && self.city is None && self.street is None
            && self.full_address is None
    }

    /// The address with its one-line form filled in where it was missing and
    /// the address has a component to compose it of. A one-line form that
    /// is present stays as it is.
    pub open spec fn completed(self) -> AddressView {
        if self.full_address is None && self.parts().len() > 0 {
            AddressView { full_address: Some(self.composed()), ..self }
        } else {
            self
        }
    }
}

/// An address that comes with a one-line form keeps it; one that comes
/// without gets the line composed of its components, whichever of them are
/// present, and stays without where none is.
pub proof fn lemma_completed_address(a: AddressView)
    ensures
        a.full_address is Some ==> a.completed() == a,
        a.full_address is None && a.parts().len() > 0 ==> a.completed().full_address == Some(
            join(a.parts(), ", "@),
        ),
        a.full_address is None && a.parts().len() == 0 ==> a.completed() == a,
        a.completed().postal_code == a.postal_code,
        a.completed().region_code == a.region_code,
{
}

/// Appends a component to a line that holds `join(parts)`, if the component
/// is present and not empty.
fn push_part(
    line: &mut String,
    count: &mut usize,
    label: &str,
    value: &Option<String>,
    Ghost(parts): Ghost<Seq<Seq<char>>>,
)
    requires
        old(line)@ == join(parts, ", "@),
        *old(count) == parts.len(),
        parts.len() < 16,
    ensures
        final(line)@ == join(parts + labelled(label@, value.deep_view()), ", "@),
        *final(count) == (parts + labelled(label@, value.deep_view())).len(),
{
    match value {
        Some(text) => {
            if !text.as_str().is_empty() {
                let ghost grown = parts.push(label@ + text@);
                assert(grown.drop_last() =~= parts);
                assert(grown =~= parts + labelled(label@, value.deep_view()));
                if *count > 0 {
                    line.append(", ");
                }
                line.append(label);
                line.append(text.as_str());
                *count = *count + 1;
                proof {
                    if parts.len() == 0 {
                        assert(line@ =~= label@ + text@);
                    } else {
                        assert(line@ =~= join(parts, ", "@) + ", "@ + (label@ + text@));
                    }
                }
                return ;
            }
        },
        None => {},
    }
    assert(parts + labelled(label@, value.deep_view()) =~= parts);
}

impl Default for Person {
    fn default() -> (r: Self)
        ensures
            r.deep_view() == PersonView::empty(),
    {
        Person::new()
    }
}

impl Default for Address {
    fn default() -> (r: Self)
        ensures
            r.deep_view() == AddressView::empty(),
    {
        Address::new()
    }
}

impl Address {
    /// An address of which nothing is known.
    pub fn new() -> (a: Self)
        ensures
            a.deep_view() == AddressView::empty(),
    {
        Address {
            postal_code: None,
            region_code: None,
            region: None,
            district: None,
            city: None,
            locality: None,
            street: None,
            house: None,
            building: None,
            flat: None,
            full_address: None,
            fias_id: None,
            kladr_code: None,
        }
    }

    /// Composes the one-line address from the components that are present
    /// and not empty: postal code, region, district, city, locality (unless
    /// it repeats the city), street, house, building, flat, joined by `", "`.
    pub fn build_full_address(&self) -> (s: String)
        ensures
            s@ == self.deep_view().composed(),
    {
        self.compose().0
    }

    /// The one-line address composed of the components, and how many
    /// components went into it.
    pub fn compose(&self) -> (r: (String, usize))
        ensures
            r.0@ == self.deep_view().composed(),
            r.1 == self.deep_view().parts().len(),
    {
        let mut line = String::new();
        let mut count: usize = 0;
        let ghost v = self.deep_view();
        proof {
            reveal_strlit("");
            assert(""@ =~= Seq::<char>::empty());
        }
        let ghost none: Seq<Seq<char>> = Seq::empty();
        push_part(&mut line, &mut count, "", &self.postal_code, Ghost(none));
        let ghost with_code = none + labelled(Seq::empty(), v.postal_code);
        push_part(&mut line, &mut count, "", &self.region, Ghost(with_code));
        let ghost with_region = with_code + labelled(Seq::empty(), v.region);
        push_part(&mut line, &mut count, "р-н ", &self.district, Ghost(with_region));
        let ghost with_district = with_region + labelled("р-н "@, v.district);
        push_part(&mut line, &mut count, "г. ", &self.city, Ghost(with_district));
        let ghost with_city = with_district + labelled("г. "@, v.city);
        let repeats_city = match (&self.city, &self.locality) {
            (Some(city), Some(locality)) => str_eq(city.as_str(), locality.as_str()),
            (None, None) => true,
            _ => false,
        };
        if !repeats_city {
            push_part(&mut line, &mut count, "", &self.locality, Ghost(with_city));
        }
        let ghost with_locality = with_city + v.locality_part();
        assert(with_locality =~= if repeats_city {
            with_city
        } else {
            with_city + labelled(Seq::empty(), v.locality)
        });
        push_part(&mut line, &mut count, "ул. ", &self.street, Ghost(with_locality));
        let ghost with_street = with_locality + labelled("ул. "@, v.street);
        push_part(&mut line, &mut count, "д. ", &self.house, Ghost(with_street));
        let ghost with_house = with_street + labelled("д. "@, v.house);
        push_part(&mut line, &mut count, "корп. ", &self.building, Ghost(with_house));
        let ghost with_building = with_house + labelled("корп. "@, v.building);
        push_part(&mut line, &mut count, "кв. ", &self.flat, Ghost(with_building));
        assert(with_building + labelled("кв. "@, v.flat) =~= v.parts());
        (line, count)
    }

    /// No component that places the address is known.
    pub fn is_empty(&self) -> (r: bool)
        ensures
            r == self.deep_view().is_empty(),
    {
        self.postal_code.is_none() && self.region.is_none() && self.city.is_none()
            && self.street.is_none() && self.full_address.is_none()
    }

    /// Fills in the one-line form where it is missing and there is a
    /// component to compose it of; a one-line form that is present is kept as
    /// it is.
    pub fn complete(&mut self)
        ensures
            final(self).deep_view() == old(self).deep_view().completed(),
            old(self).deep_view().full_address is Some ==> final(self).deep_view() == old(
                self,
            ).deep_view(),
    {
        if self.full_address.is_none() {
            let (line, count) = self.compose();
            if count > 0 {
                self.full_address = Some(line);
            }
        }
    }
}

/// An economic activity by its OKVED code.
#[derive(Debug, Clone)]
pub struct Activity {
    /// OKVED code.
    pub code: String,
    pub name: String,
    /// Edition of the classifier.
    pub version: Option<String>,
    /// Whether this is the main activity.
    pub is_main: bool,
}

pub struct ActivityView {
    pub code: Seq<char>,
    pub name: Seq<char>,
    pub version: Option<Seq<char>>,
    pub is_main: bool,
}

impl DeepView for Activity {
    type V = ActivityView;

    open spec fn deep_view(&self) -> ActivityView {
        ActivityView {
            code: self.code@,
            name: self.name@,
            version: self.version.deep_view(),
            is_main: self.is_main,
        }
    }
}

impl ActivityView {
    pub open spec fn empty() -> ActivityView {
        ActivityView {
            code: Seq::empty(),
            name: Seq::empty(),
            version: None,
            is_main: false,
        }
    }
}

impl Activity {
    /// An activity with nothing filled in.
    pub fn new() -> (r: Self)
        ensures
            r.deep_view() == ActivityView::empty(),
    {
        let r = Activity {
            code: String::new(),
            name: String::new(),
            version: None,
            is_main: false,
        };
        r
    }
}

impl Default for Activity {
    fn default() -> (r: Self)
        ensures
            r.deep_view() == ActivityView::empty(),
    {
        Activity::new()
    }
}

/// Charter capital.
#[derive(Debug, Clone)]
pub struct Capital {
    /// The amount as the literal of a floating-point number.
    pub amount: String,
    pub currency: String,
}

pub struct CapitalView {
    pub amount: Seq<char>,
    pub currency: Seq<char>,
}

impl DeepView for Capital {
    type V = CapitalView;

    open spec fn deep_view(&self) -> CapitalView {
        CapitalView {
            amount: self.amount@,
            currency: self.currency@,
        }
    }
}

impl CapitalView {
    pub open spec fn empty() -> CapitalView {
        CapitalView {
            amount: Seq::empty(),
            currency: Seq::empty(),
        }
    }
}

impl Capital {
    /// A capital of the given amount, written as the literal of a
    /// floating-point number, in the given currency.
    pub fn new(amount: String, currency: String) -> (r: Self)
        ensures
            r.deep_view() == (CapitalView { amount: amount@, currency: currency@ }),
    {
        Capital { amount, currency }
    }
}

impl Default for Capital {
    fn default() -> (r: Self)
        ensures
            r.deep_view() == CapitalView::empty(),
    {
        Capital::new(String::new(), String::new())
    }
}

/// A share in the charter capital.
#[derive(Debug, Clone)]
pub struct Share {
    /// Nominal value as the literal of a floating-point number.
    pub nominal_value: Option<String>,
    pub numerator: Option<i64>,
    pub denominator: Option<i64>,
    /// Stated percentage as the literal of a floating-point number.
    pub percent: Option<String>,
}

pub struct ShareView {
    pub nominal_value: Option<Seq<char>>,
    pub numerator: Option<i64>,
    pub denominator: Option<i64>,
    pub percent: Option<Seq<char>>,
}

impl DeepView for Share {
    type V = ShareView;

    open spec fn deep_view(&self) -> ShareView {
        ShareView {
            nominal_value: self.nominal_value.deep_view(),
            numerator: self.numerator,
            denominator: self.denominator,
            percent: self.percent.deep_view(),
        }
    }
}

impl ShareView {
    pub open spec fn empty() -> ShareView {
        ShareView {
            nominal_value: None,
            numerator: None,
            denominator: None,
            percent: None,
        }
    }
}

impl Share {
    /// A share of which nothing is known.
    pub fn new() -> (r: Self)
        ensures
            r.deep_view() == ShareView::empty(),
    {
        let r = Share {
            nominal_value: None,
            numerator: None,
            denominator: None,
            percent: None,
        };
        r
    }
}

impl ShareView {
    /// Numerator and denominator, where both are known and the denominator
    /// is not zero: the fraction from which the canonical percentage,
    /// numerator / denominator × 100, is computed.
    pub open spec fn fraction(self) -> Option<(i64, i64)> {
        match (self.numerator, self.denominator) {
            (Some(n), Some(d)) if d != 0 => Some((n, d)),
            _ => None,
        }
    }
}

impl Share {
    /// The fraction that gives the canonical percentage, if the share has
    /// one; where it has none, the stated percentage stands instead.
    pub fn fraction(&self) -> (r: Option<(i64, i64)>)
        ensures
            r == self.deep_view().fraction(),
    {
        match (self.numerator, self.denominator) {
            (Some(n), Some(d)) => if d != 0 {
                Some((n, d))
            } else {
                None
            },
            _ => None,
        }
    }
}

impl Default for Share {
    fn default() -> (r: Self)
        ensures
            r.deep_view() == ShareView::empty(),
    {
        Share::new()
    }
}

/// One row of the change history.
#[derive(Debug, Clone)]
pub struct HistoryRecord {
    /// State registration number of the row.
    pub grn: String,
    pub date: Option<Date>,
    pub reason_code: Option<String>,
    pub reason_description: Option<String>,
    pub authority_code: Option<String>,
    pub authority_name: Option<String>,
    pub certificate_series: Option<String>,
    pub certificate_number: Option<String>,
    pub certificate_date: Option<Date>,
}

pub struct HistoryRecordView {
    pub grn: Seq<char>,
    pub date: Option<Date>,
    pub reason_code: Option<Seq<char>>,
    pub reason_description: Option<Seq<char>>,
    pub authority_code: Option<Seq<char>>,
    pub authority_name: Option<Seq<char>>,
    pub certificate_series: Option<Seq<char>>,
    pub certificate_number: Option<Seq<char>>,
    pub certificate_date: Option<Date>,
}

impl DeepView for HistoryRecord {
    type V = HistoryRecordView;

    open spec fn deep_view(&self) -> HistoryRecordView {
        HistoryRecordView {
            grn: self.grn@,
            date: self.date,
            reason_code: self.reason_code.deep_view(),
            reason_description: self.reason_description.deep_view(),
            authority_code: self.authority_code.deep_view(),
            authority_name: self.authority_name.deep_view(),
            certificate_series: self.certificate_series.deep_view(),
            certificate_number: self.certificate_number.deep_view(),
            certificate_date: self.certificate_date,
        }
    }
}

impl HistoryRecordView {
    pub open spec fn empty() -> HistoryRecordView {
        HistoryRecordView {
            grn: Seq::empty(),
            date: None,
            reason_code: None,
            reason_description: None,
            authority_code: None,
            authority_name: None,
            certificate_series: None,
            certificate_number: None,
            certificate_date: None,
        }
    }
}

impl HistoryRecord {
    /// A row with nothing filled in.
    pub fn new() -> (r: Self)
        ensures
            r.deep_view() == HistoryRecordView::empty(),
    {
        let r = HistoryRecord {
            grn: String::new(),
            date: None,
            reason_code: None,
            reason_description: None,
            authority_code: None,
            authority_name: None,
            certificate_series: None,
            certificate_number: None,
            certificate_date: None,
        };
        r
    }
}

impl Default for HistoryRecord {
    fn default() -> (r: Self)
        ensures
            r.deep_view() == HistoryRecordView::empty(),
    {
        HistoryRecord::new()
    }
}

/// The authority that registered the entity.
#[derive(Debug, Clone)]
pub struct RegistrationAuthority {
    pub code: String,
    pub name: String,
    pub address: Option<String>,
}

pub struct RegistrationAuthorityView {
    pub code: Seq<char>,
    pub name: Seq<char>,
    pub address: Option<Seq<char>>,
}

impl DeepView for RegistrationAuthority {
    type V = RegistrationAuthorityView;

    open spec fn deep_view(&self) -> RegistrationAuthorityView {
        RegistrationAuthorityView {
            code: self.code@,
            name: self.name@,
            address: self.address.deep_view(),
        }
    }
}

impl RegistrationAuthorityView {
    pub open spec fn empty() -> RegistrationAuthorityView {
        RegistrationAuthorityView {
            code: Seq::empty(),
            name: Seq::empty(),
            address: None,
        }
    }
}

impl RegistrationAuthority {
    /// An authority with nothing filled in.
    pub fn new() -> (r: Self)
        ensures
            r.deep_view() == RegistrationAuthorityView::empty(),
    {
        let r = RegistrationAuthority {
            code: String::new(),
            name: String::new(),
            address: None,
        };
        r
    }
}

impl Default for RegistrationAuthority {
    fn default() -> (r: Self)
        ensures
            r.deep_view() == RegistrationAuthorityView::empty(),
    {
        RegistrationAuthority::new()
    }
}

/// Registration with a tax authority.
#[derive(Debug, Clone)]
pub struct TaxAuthority {
    pub code: String,
    pub name: String,
    pub registration_date: Option<Date>,
}

pub struct TaxAuthorityView {
    pub code: Seq<char>,
    pub name: Seq<char>,
    pub registration_date: Option<Date>,
}

impl DeepView for TaxAuthority {
    type V = TaxAuthorityView;

    open spec fn deep_view(&self) -> TaxAuthorityView {
        TaxAuthorityView {
            code: self.code@,
            name: self.name@,
            registration_date: self.registration_date,
        }
    }
}

impl TaxAuthorityView {
    pub open spec fn empty() -> TaxAuthorityView {
        TaxAuthorityView {
            code: Seq::empty(),
            name: Seq::empty(),
            registration_date: None,
        }
    }
}

impl TaxAuthority {
    /// A tax registration with nothing filled in.
    pub fn new() -> (r: Self)
        ensures
            r.deep_view() == TaxAuthorityView::empty(),
    {
        let r = TaxAuthority {
            code: String::new(),
            name: String::new(),
            registration_date: None,
        };
        r
    }
}

impl Default for TaxAuthority {
    fn default() -> (r: Self)
        ensures
            r.deep_view() == TaxAuthorityView::empty(),
    {
        TaxAuthority::new()
    }
}

/// Registration with the pension fund.
#[derive(Debug, Clone)]
pub struct PensionFund {
    pub reg_number: String,
    pub registration_date: Option<Date>,
    pub authority_name: Option<String>,
}

pub struct PensionFundView {
    pub reg_number: Seq<char>,
    pub registration_date: Option<Date>,
    pub authority_name: Option<Seq<char>>,
}

impl DeepView for PensionFund {
    type V = PensionFundView;

    open spec fn deep_view(&self) -> PensionFundView {
        PensionFundView {
            reg_number: self.reg_number@,
            registration_date: self.registration_date,
            authority_name: self.authority_name.deep_view(),
        }
    }
}

impl PensionFundView {
    pub open spec fn empty() -> PensionFundView {
        PensionFundView {
            reg_number: Seq::empty(),
            registration_date: None,
            authority_name: None,
        }
    }
}

impl PensionFund {
    /// A pension registration with nothing filled in.
    pub fn new() -> (r: Self)
        ensures
            r.deep_view() == PensionFundView::empty(),
    {
        let r = PensionFund {
            reg_number: String::new(),
            registration_date: None,
            authority_name: None,
        };
        r
    }
}

impl Default for PensionFund {
    fn default() -> (r: Self)
        ensures
            r.deep_view() == PensionFundView::empty(),
    {
        PensionFund::new()
    }
}

/// Registration with the social insurance fund.
#[derive(Debug, Clone)]
pub struct SocialInsurance {
    pub reg_number: String,
    pub registration_date: Option<Date>,
    pub authority_name: Option<String>,
}

pub struct SocialInsuranceView {
    pub reg_number: Seq<char>,
    pub registration_date: Option<Date>,
    pub authority_name: Option<Seq<char>>,
}

impl DeepView for SocialInsurance {
    type V = SocialInsuranceView;

    open spec fn deep_view(&self) -> SocialInsuranceView {
        SocialInsuranceView {
            reg_number: self.reg_number@,
            registration_date: self.registration_date,
            authority_name: self.authority_name.deep_view(),
        }
    }
}

impl SocialInsuranceView {
    pub open spec fn empty() -> SocialInsuranceView {
        SocialInsuranceView {
            reg_number: Seq::empty(),
            registration_date: None,
            authority_name: None,
        }
    }
}

impl SocialInsurance {
    /// A social insurance registration with nothing filled in.
    pub fn new() -> (r: Self)
        ensures
            r.deep_view() == SocialInsuranceView::empty(),
    {
        let r = SocialInsurance {
            reg_number: String::new(),
            registration_date: None,
            authority_name: None,
        };
        r
    }
}

impl Default for SocialInsurance {
    fn default() -> (r: Self)
        ensures
            r.deep_view() == SocialInsuranceView::empty(),
    {
        SocialInsurance::new()
    }
}

/// A certificate, charter or similar document.
#[derive(Debug, Clone)]
pub struct Document {
    pub doc_type: String,
    pub series: Option<String>,
    pub number: Option<String>,
    pub issue_date: Option<Date>,
    pub issued_by: Option<String>,
}

pub struct DocumentView {
    pub doc_type: Seq<char>,
    pub series: Option<Seq<char>>,
    pub number: Option<Seq<char>>,
    pub issue_date: Option<Date>,
    pub issued_by: Option<Seq<char>>,
}

impl DeepView for Document {
    type V = DocumentView;

    open spec fn deep_view(&self) -> DocumentView {
        DocumentView {
            doc_type: self.doc_type@,
            series: self.series.deep_view(),
            number: self.number.deep_view(),
            issue_date: self.issue_date,
            issued_by: self.issued_by.deep_view(),
        }
    }
}

impl DocumentView {
    pub open spec fn empty() -> DocumentView {
        DocumentView {
            doc_type: Seq::empty(),
            series: None,
            number: None,
            issue_date: None,
            issued_by: None,
        }
    }
}

impl Document {
    /// A document with nothing filled in.
    pub fn new() -> (r: Self)
        ensures
            r.deep_view() == DocumentView::empty(),
    {
        let r = Document {
            doc_type: String::new(),
            series: None,
            number: None,
            issue_date: None,
            issued_by: None,
        };
        r
    }
}

impl Default for Document {
    fn default() -> (r: Self)
        ensures
            r.deep_view() == DocumentView::empty(),
    {
        Document::new()
    }
}

/// A license.
#[derive(Debug, Clone)]
pub struct License {
    pub number: String,
    pub series: Option<String>,
    pub activity: Option<String>,
    pub start_date: Option<Date>,
    pub end_date: Option<Date>,
    pub authority: Option<String>,
    pub status: Option<String>,
}

pub struct LicenseView {
    pub number: Seq<char>,
    pub series: Option<Seq<char>>,
    pub activity: Option<Seq<char>>,
    pub start_date: Option<Date>,
    pub end_date: Option<Date>,
    pub authority: Option<Seq<char>>,
    pub status: Option<Seq<char>>,
}

impl DeepView for License {
    type V = LicenseView;

    open spec fn deep_view(&self) -> LicenseView {
        LicenseView {
            number: self.number@,
            series: self.series.deep_view(),
            activity: self.activity.deep_view(),
            start_date: self.start_date,
            end_date: self.end_date,
            authority: self.authority.deep_view(),
            status: self.status.deep_view(),
        }
    }
}

impl LicenseView {
    pub open spec fn empty() -> LicenseView {
        LicenseView {
            number: Seq::empty(),
            series: None,
            activity: None,
            start_date: None,
            end_date: None,
            authority: None,
            status: None,
        }
    }
}

impl License {
    /// A license with nothing filled in.
    pub fn new() -> (r: Self)
        ensures
            r.deep_view() == LicenseView::empty(),
    {
        let r = License {
            number: String::new(),
            series: None,
            activity: None,
            start_date: None,
            end_date: None,
            authority: None,
            status: None,
        };
        r
    }
}

impl Default for License {
    fn default() -> (r: Self)
        ensures
            r.deep_view() == LicenseView::empty(),
    {
        License::new()
    }
}


/// A founder of a legal entity. The shapes are kept apart: each carries its
/// own identification and a share.
#[derive(Debug, Clone)]
pub enum Founder {
    /// A natural person.
    Person { person: Person, share: Option<Share>, citizenship: Option<String> },
    /// A domestic legal entity.
    RussianLegalEntity { ogrn: String, inn: String, name: String, share: Option<Share> },
    /// A foreign legal entity.
    ForeignLegalEntity {
        name: String,
        country: Option<String>,
        reg_number: Option<String>,
        share: Option<Share>,
    },
    /// The state, a region or a municipality.
    PublicEntity { name: String, share: Option<Share> },
    /// A mutual investment fund.
    MutualFund { name: String, share: Option<Share> },
}

pub enum FounderView {
    Person { person: PersonView, share: Option<ShareView>, citizenship: Option<Seq<char>> },
    RussianLegalEntity { ogrn: Seq<char>, inn: Seq<char>, name: Seq<char>, share: Option<ShareView> },
    ForeignLegalEntity {
        name: Seq<char>,
        country: Option<Seq<char>>,
        reg_number: Option<Seq<char>>,
        share: Option<ShareView>,
    },
    PublicEntity { name: Seq<char>, share: Option<ShareView> },
    MutualFund { name: Seq<char>, share: Option<ShareView> },
}

impl DeepView for Founder {
    type V = FounderView;

    open spec fn deep_view(&self) -> FounderView {
        match self {
            Founder::Person { person, share, citizenship } => FounderView::Person {
                person: person.deep_view(),
                share: share.deep_view(),
                citizenship: citizenship.deep_view(),
            },
            Founder::RussianLegalEntity { ogrn, inn, name, share } => {
                FounderView::RussianLegalEntity {
                    ogrn: ogrn@,
                    inn: inn@,
                    name: name@,
                    share: share.deep_view(),
                }
            },
            Founder::ForeignLegalEntity { name, country, reg_number, share } => {
                FounderView::ForeignLegalEntity {
                    name: name@,
                    country: country.deep_view(),
                    reg_number: reg_number.deep_view(),
                    share: share.deep_view(),
                }
            },
            Founder::PublicEntity { name, share } => FounderView::PublicEntity {
                name: name@,
                share: share.deep_view(),
            },
            Founder::MutualFund { name, share } => FounderView::MutualFund {
                name: name@,
                share: share.deep_view(),
            },
        }
    }
}

impl FounderView {
    pub open spec fn share(self) -> Option<ShareView> {
        match self {
            FounderView::Person { share, .. } => share,
            FounderView::RussianLegalEntity { share, .. } => share,
            FounderView::ForeignLegalEntity { share, .. } => share,
            FounderView::PublicEntity { share, .. } => share,
            FounderView::MutualFund { share, .. } => share,
        }
    }

    pub open spec fn name(self) -> Seq<char> {
        match self {
            FounderView::Person { person, .. } => person.full_name(),
            FounderView::RussianLegalEntity { name, .. } => name,
            FounderView::ForeignLegalEntity { name, .. } => name,
            FounderView::PublicEntity { name, .. } => name,
            FounderView::MutualFund { name, .. } => name,
        }
    }
}

impl Founder {
    /// The founder's share, whatever the founder's shape.
    pub fn share(&self) -> (r: Option<&Share>)
        ensures
            r.deep_view() == self.deep_view().share(),
    {
        match self {
            Founder::Person { share, .. } => share.as_ref(),
            Founder::RussianLegalEntity { share, .. } => share.as_ref(),
            Founder::ForeignLegalEntity { share, .. } => share.as_ref(),
            Founder::PublicEntity { share, .. } => share.as_ref(),
            Founder::MutualFund { share, .. } => share.as_ref(),
        }
    }

    /// The founder's name: a person's full name, an organisation's name.
    pub fn name(&self) -> (r: String)
        ensures
            r@ == self.deep_view().name(),
    {
        match self {
            Founder::Person { person, .. } => person.full_name(),
            Founder::RussianLegalEntity { name, .. } => name.clone(),
            Founder::ForeignLegalEntity { name, .. } => name.clone(),
            Founder::PublicEntity { name, .. } => name.clone(),
            Founder::MutualFund { name, .. } => name.clone(),
        }
    }
}

/// What has become of a legal entity or a sole proprietor.
#[derive(Debug, Clone, Copy, PartialEq, Eq, Structural)]
pub enum EntityStatus {
    Active,
    Liquidated,
    /// Liquidation is under way.
    Liquidating,
    Reorganized,
    /// Reorganisation is under way.
    Reorganizing,
    /// Struck off the registry.
    Excluded,
    Bankrupt,
    /// Activity has ceased.
    Ceased,
    Unknown,
}

impl Default for EntityStatus {
    fn default() -> (r: Self)
        ensures
            r == EntityStatus::Unknown,
    {
        EntityStatus::Unknown
    }
}

impl EntityStatus {
    /// The status that a lowercase description names, by the word stems it
    /// holds.
    pub open spec fn of_lowercase(lower: Seq<char>) -> EntityStatus {
        if has_substring(lower, "актив"@) || has_substring(lower, "действ"@) {
            EntityStatus::Active
        } else if has_substring(lower, "ликвидир"@) && has_substring(lower, "процесс"@) {
            EntityStatus::Liquidating
        } else if has_substring(lower, "ликвидир"@) {
            EntityStatus::Liquidated
        } else if has_substring(lower, "реорганиз"@) && has_substring(lower, "процесс"@) {
            EntityStatus::Reorganizing
        } else if has_substring(lower, "реорганиз"@) {
            EntityStatus::Reorganized
        } else if has_substring(lower, "исключ"@) {
            EntityStatus::Excluded
        } else if has_substring(lower, "банкрот"@) || has_substring(lower, "несостоят"@) {
            EntityStatus::Bankrupt
        } else if has_substring(lower, "прекращ"@) {
            EntityStatus::Ceased
        } else {
            EntityStatus::Unknown
        }
    }

    /// The status that a code stands for, surrounding whitespace aside.
    pub open spec fn of_code(code: Seq<char>) -> EntityStatus {
        let c = trimmed(code);
        if c == "актив"@ || c == "1"@ {
            EntityStatus::Active
        } else if c == "ликвид"@ || c == "2"@ {
            EntityStatus::Liquidated
        } else if c == "реорг"@ || c == "3"@ {
            EntityStatus::Reorganized
        } else if c == "исключ"@ || c == "4"@ {
            EntityStatus::Excluded
        } else if c == "банкрот"@ || c == "5"@ {
            EntityStatus::Bankrupt
        } else if c == "101"@ || c == "102"@ || c == "103"@ || c == "104"@ {
            EntityStatus::Active
        } else if c == "201"@ || c == "202"@ || c == "203"@ || c == "211"@ || c == "212"@ || c
            == "221"@ {
            EntityStatus::Ceased
        } else if c == "114"@ {
            EntityStatus::Bankrupt
        } else {
            EntityStatus::Unknown
        }
    }

    /// The normalised code of each status.
    pub open spec fn code(self) -> Seq<char> {
        match self {
            EntityStatus::Active => "active"@,
            EntityStatus::Liquidated => "liquidated"@,
            EntityStatus::Liquidating => "liquidating"@,
            EntityStatus::Reorganized => "reorganized"@,
            EntityStatus::Reorganizing => "reorganizing"@,
            EntityStatus::Excluded => "excluded"@,
            EntityStatus::Bankrupt => "bankrupt"@,
            EntityStatus::Ceased => "ceased"@,
            EntityStatus::Unknown => "unknown"@,
        }
    }

    /// The label shown to the user for each status.
    pub open spec fn label(self) -> Seq<char> {
        match self {
            EntityStatus::Active => "Действующее"@,
            EntityStatus::Liquidated => "Ликвидировано"@,
            EntityStatus::Liquidating => "В процессе ликвидации"@,
            EntityStatus::Reorganized => "Реорганизовано"@,
            EntityStatus::Reorganizing => "В процессе реорганизации"@,
            EntityStatus::Excluded => "Исключено из реестра"@,
            EntityStatus::Bankrupt => "Банкрот"@,
            EntityStatus::Ceased => "Прекращена деятельность"@,
            EntityStatus::Unknown => "Неизвестно"@,
        }
    }

    /// Reads a status from a description that is already in lowercase.
    pub fn from_lowercase(lower: &str) -> (r: Self)
        ensures
            r == Self::of_lowercase(lower@),
    {
        if str_contains(lower, "актив") || str_contains(lower, "действ") {
            EntityStatus::Active
        } else if str_contains(lower, "ликвидир") && str_contains(lower, "процесс") {
            EntityStatus::Liquidating
        } else if str_contains(lower, "ликвидир") {
            EntityStatus::Liquidated
        } else if str_contains(lower, "реорганиз") && str_contains(lower, "процесс") {
            EntityStatus::Reorganizing
        } else if str_contains(lower, "реорганиз") {
            EntityStatus::Reorganized
        } else if str_contains(lower, "исключ") {
            EntityStatus::Excluded
        } else if str_contains(lower, "банкрот") || str_contains(lower, "несостоят") {
            EntityStatus::Bankrupt
        } else if str_contains(lower, "прекращ") {
            EntityStatus::Ceased
        } else {
            EntityStatus::Unknown
        }
    }

    /// Reads a status from a free-text description, whatever its case.
    pub fn from_str(s: &str) -> (r: Self)
        ensures
            r == Self::of_lowercase(lowercase(s@)),
    {
        let lower = str_to_lowercase(s);
        Self::from_lowercase(lower.as_str())
    }

    /// Reads a status from a registry code.
    pub fn from_code(code: &str) -> (r: Self)
        ensures
            r == Self::of_code(code@),
    {
        let code = trim(code);
        let c = code.as_str();
        if str_eq(c, "актив") || str_eq(c, "1") {
            EntityStatus::Active
        } else if str_eq(c, "ликвид") || str_eq(c, "2") {
            EntityStatus::Liquidated
        } else if str_eq(c, "реорг") || str_eq(c, "3") {
            EntityStatus::Reorganized
        } else if str_eq(c, "исключ") || str_eq(c, "4") {
            EntityStatus::Excluded
        } else if str_eq(c, "банкрот") || str_eq(c, "5") {
            EntityStatus::Bankrupt
        } else if str_eq(c, "101") || str_eq(c, "102") || str_eq(c, "103") || str_eq(c, "104") {
            EntityStatus::Active
        } else if str_eq(c, "201") || str_eq(c, "202") || str_eq(c, "203") || str_eq(c, "211")
            || str_eq(c, "212") || str_eq(c, "221") {
            EntityStatus::Ceased
        } else if str_eq(c, "114") {
            EntityStatus::Bankrupt
        } else {
            EntityStatus::Unknown
        }
    }

    /// The normalised code under which the status is stored.
    pub fn as_code(self) -> (r: &'static str)
        ensures
            r@ == self.code(),
    {
        match self {
            EntityStatus::Active => "active",
            EntityStatus::Liquidated => "liquidated",
            EntityStatus::Liquidating => "liquidating",
            EntityStatus::Reorganized => "reorganized",
            EntityStatus::Reorganizing => "reorganizing",
            EntityStatus::Excluded => "excluded",
            EntityStatus::Bankrupt => "bankrupt",
            EntityStatus::Ceased => "ceased",
            EntityStatus::Unknown => "unknown",
        }
    }

    /// The label shown to the user.
    pub fn to_string(&self) -> (r: String)
        ensures
            r@ == self.label(),
    {
        match self {
            EntityStatus::Active => owned("Действующее"),
            EntityStatus::Liquidated => owned("Ликвидировано"),
            EntityStatus::Liquidating => owned("В процессе ликвидации"),
            EntityStatus::Reorganized => owned("Реорганизовано"),
            EntityStatus::Reorganizing => owned("В процессе реорганизации"),
            EntityStatus::Excluded => owned("Исключено из реестра"),
            EntityStatus::Bankrupt => owned("Банкрот"),
            EntityStatus::Ceased => owned("Прекращена деятельность"),
            EntityStatus::Unknown => owned("Неизвестно"),
        }
    }
}

} // verus!
