//! Sole proprietors.

use crate::date::Date;
use crate::models::common::Activity;
use crate::models::common::ActivityView;
use crate::models::common::Address;
use crate::models::common::AddressView;
use crate::models::common::EntityStatus;
use crate::models::common::HistoryRecord;
use crate::models::common::HistoryRecordView;
use crate::models::common::License;
use crate::models::common::LicenseView;
use crate::models::common::PensionFund;
use crate::models::common::PensionFundView;
use crate::models::common::Person;
use crate::models::common::PersonView;
use crate::models::common::RegistrationAuthority;
use crate::models::common::RegistrationAuthorityView;
use crate::models::common::SocialInsurance;
use crate::models::common::SocialInsuranceView;
use crate::models::common::TaxAuthority;
use crate::models::common::TaxAuthorityView;
use crate::models::egrul::activities_in_order;
use crate::models::egrul::collect_activities;
use crate::text::concat2;
use crate::text::owned;
use crate::text::str_eq;
use crate::text::is_blank;
use crate::text::trimmed;
use vstd::prelude::*;

verus! {

/// Gender of a person.
#[derive(Debug, Clone, Copy, PartialEq, Eq, Structural)]
pub enum Gender {
    Male,
    Female,
    Unknown,
}

impl Gender {
    /// The gender that a code stands for.
    pub open spec fn of_code(code: Seq<char>) -> Gender {
        if code == "1"@ || code == "м"@ || code == "М"@ || code == "male"@ {
            Gender::Male
        } else if code == "2"@ || code == "ж"@ || code == "Ж"@ || code == "female"@ {
            Gender::Female
        } else {
            Gender::Unknown
        }
    }

    /// The label shown to the user for each gender.
    pub open spec fn label(self) -> Seq<char> {
        match self {
            Gender::Male => "Мужской"@,
            Gender::Female => "Женский"@,
            Gender::Unknown => "Не указан"@,
        }
    }

    /// Reads a gender from a registry code.
    pub fn from_code(code: &str) -> (r: Self)
        ensures
            r == Self::of_code(code@),
    {
        if str_eq(code, "1") || str_eq(code, "м") || str_eq(code, "М") || str_eq(code, "male") {
            Gender::Male
        } else if str_eq(code, "2") || str_eq(code, "ж") || str_eq(code, "Ж") || str_eq(
            code,
            "female",
        ) {
            Gender::Female
        } else {
            Gender::Unknown
        }
    }

    /// The label shown to the user.
    pub fn to_string(&self) -> (r: String)
        ensures
            r@ == self.label(),
    {
        match self {
            Gender::Male => owned("Мужской"),
            Gender::Female => owned("Женский"),
            Gender::Unknown => owned("Не указан"),
        }
    }
}

/// Kind of citizenship.
#[derive(Debug, Clone, Copy, PartialEq, Eq, Structural)]
pub enum CitizenshipType {
    /// Citizen of Russia.
    Russian,
    /// Citizen of another state.
    Foreign,
    /// No citizenship.
    Stateless,
}

impl Default for CitizenshipType {
    fn default() -> (r: Self)
        ensures
            r == CitizenshipType::Russian,
    {
        CitizenshipType::Russian
    }
}

impl CitizenshipType {
    /// The kind that a code stands for; an unknown code counts as Russian.
    pub open spec fn of_code(code: Seq<char>) -> CitizenshipType {
        if code == "2"@ {
            CitizenshipType::Foreign
        } else if code == "3"@ {
            CitizenshipType::Stateless
        } else {
            CitizenshipType::Russian
        }
    }

    /// Reads the kind of citizenship from a registry code.
    pub fn from_code(code: &str) -> (r: Self)
        ensures
            r == Self::of_code(code@),
    {
        if str_eq(code, "2") {
            CitizenshipType::Foreign
        } else if str_eq(code, "3") {
            CitizenshipType::Stateless
        } else {
            CitizenshipType::Russian
        }
    }
}

/// Citizenship of a sole proprietor.
#[derive(Debug, Clone)]
pub struct CitizenshipInfo {
    pub citizenship_type: CitizenshipType,
    /// Country code by OKSM.
    pub country_code: Option<String>,
    pub country_name: Option<String>,
}

pub struct CitizenshipInfoView {
    pub citizenship_type: CitizenshipType,
    pub country_code: Option<Seq<char>>,
    pub country_name: Option<Seq<char>>,
}

impl DeepView for CitizenshipInfo {
    type V = CitizenshipInfoView;

    open spec fn deep_view(&self) -> CitizenshipInfoView {
        CitizenshipInfoView {
            citizenship_type: self.citizenship_type,
            country_code: self.country_code.deep_view(),
            country_name: self.country_name.deep_view(),
        }
    }
}

impl CitizenshipInfoView {
    pub open spec fn empty() -> CitizenshipInfoView {
        CitizenshipInfoView {
            citizenship_type: CitizenshipType::Russian,
            country_code: None,
            country_name: None,
        }
    }
}

impl CitizenshipInfo {
    /// Citizenship with nothing filled in.
    pub fn new() -> (r: Self)
        ensures
            r.deep_view() == CitizenshipInfoView::empty(),
    {
        let r = CitizenshipInfo {
            citizenship_type: CitizenshipType::Russian,
            country_code: None,
            country_name: None,
        };
        r
    }
}

impl Default for CitizenshipInfo {
    fn default() -> (r: Self)
        ensures
            r.deep_view() == CitizenshipInfoView::empty(),
    {
        CitizenshipInfo::new()
    }
}

/// How and where a sole proprietor was registered.
#[derive(Debug, Clone)]
pub struct IpRegistrationInfo {
    pub formation_method: Option<String>,
    pub formation_code: Option<String>,
    pub authority: Option<RegistrationAuthority>,
    pub certificate_series: Option<String>,
    pub certificate_number: Option<String>,
    pub certificate_date: Option<Date>,
}

pub struct IpRegistrationInfoView {
    pub formation_method: Option<Seq<char>>,
    pub formation_code: Option<Seq<char>>,
    pub authority: Option<RegistrationAuthorityView>,
    pub certificate_series: Option<Seq<char>>,
    pub certificate_number: Option<Seq<char>>,
    pub certificate_date: Option<Date>,
}

impl DeepView for IpRegistrationInfo {
    type V = IpRegistrationInfoView;

    open spec fn deep_view(&self) -> IpRegistrationInfoView {
        IpRegistrationInfoView {
            formation_method: self.formation_method.deep_view(),
            formation_code: self.formation_code.deep_view(),
            authority: self.authority.deep_view(),
            certificate_series: self.certificate_series.deep_view(),
            certificate_number: self.certificate_number.deep_view(),
            certificate_date: self.certificate_date,
        }
    }
}

impl IpRegistrationInfoView {
    pub open spec fn empty() -> IpRegistrationInfoView {
        IpRegistrationInfoView {
            formation_method: None,
            formation_code: None,
            authority: None,
            certificate_series: None,
            certificate_number: None,
            certificate_date: None,
        }
    }
}

impl IpRegistrationInfo {
    /// A registration with nothing filled in.
    pub fn new() -> (r: Self)
        ensures
            r.deep_view() == IpRegistrationInfoView::empty(),
    {
        let r = IpRegistrationInfo {
            formation_method: None,
            formation_code: None,
            authority: None,
            certificate_series: None,
            certificate_number: None,
            certificate_date: None,
        };
        r
    }
}

impl Default for IpRegistrationInfo {
    fn default() -> (r: Self)
        ensures
            r.deep_view() == IpRegistrationInfoView::empty(),
    {
        IpRegistrationInfo::new()
    }
}

/// A bankruptcy of a sole proprietor.
#[derive(Debug, Clone)]
pub struct IpBankruptcyInfo {
    pub is_bankrupt: bool,
    pub bankruptcy_date: Option<Date>,
    pub case_number: Option<String>,
    pub court: Option<String>,
    /// The insolvency practitioner.
    pub manager: Option<Person>,
}

pub struct IpBankruptcyInfoView {
    pub is_bankrupt: bool,
    pub bankruptcy_date: Option<Date>,
    pub case_number: Option<Seq<char>>,
    pub court: Option<Seq<char>>,
    pub manager: Option<PersonView>,
}

impl DeepView for IpBankruptcyInfo {
    type V = IpBankruptcyInfoView;

    open spec fn deep_view(&self) -> IpBankruptcyInfoView {
        IpBankruptcyInfoView {
            is_bankrupt: self.is_bankrupt,
            bankruptcy_date: self.bankruptcy_date,
            case_number: self.case_number.deep_view(),
            court: self.court.deep_view(),
            manager: self.manager.deep_view(),
        }
    }
}

impl IpBankruptcyInfoView {
    pub open spec fn empty() -> IpBankruptcyInfoView {
        IpBankruptcyInfoView {
            is_bankrupt: false,
            bankruptcy_date: None,
            case_number: None,
            court: None,
            manager: None,
        }
    }
}

impl IpBankruptcyInfo {
    /// A bankruptcy with nothing filled in.
    pub fn new() -> (r: Self)
        ensures
            r.deep_view() == IpBankruptcyInfoView::empty(),
    {
        let r = IpBankruptcyInfo {
            is_bankrupt: false,
            bankruptcy_date: None,
            case_number: None,
            court: None,
            manager: None,
        };
        r
    }
}

impl Default for IpBankruptcyInfo {
    fn default() -> (r: Self)
        ensures
            r.deep_view() == IpBankruptcyInfoView::empty(),
    {
        IpBankruptcyInfo::new()
    }
}

/// A sole proprietor as the registry describes them.
#[derive(Debug, Clone)]
pub struct EgripRecord {
    /// Primary state registration number.
    pub ogrnip: String,
    /// When the registration number was assigned.
    pub ogrnip_date: Option<Date>,
    /// Taxpayer number.
    pub inn: String,
    pub person: Person,
    pub gender: Option<Gender>,
    pub citizenship: Option<CitizenshipInfo>,
    pub status: EntityStatus,
    /// The status code exactly as the source gives it.
    pub status_code: Option<String>,
    pub termination_method: Option<String>,
    pub registration_date: Option<Date>,
    pub termination_date: Option<Date>,
    /// Date of the extract.
    pub extract_date: Option<Date>,
    /// Place of residence.
    pub address: Option<Address>,
    pub email: Option<String>,
    pub main_activity: Option<Activity>,
    pub additional_activities: Vec<Activity>,
    pub registration: Option<IpRegistrationInfo>,
    pub tax_authority: Option<TaxAuthority>,
    pub pension_fund: Option<PensionFund>,
    pub social_insurance: Option<SocialInsurance>,
    pub licenses: Vec<License>,
    pub history: Vec<HistoryRecord>,
    pub bankruptcy: Option<IpBankruptcyInfo>,
    pub document_id: Option<String>,
    /// Name of the file the record came from.
    pub source_file: Option<String>,
}

pub struct EgripRecordView {
    pub ogrnip: Seq<char>,
    pub ogrnip_date: Option<Date>,
    pub inn: Seq<char>,
    pub person: PersonView,
    pub gender: Option<Gender>,
    pub citizenship: Option<CitizenshipInfoView>,
    pub status: EntityStatus,
    pub status_code: Option<Seq<char>>,
    pub termination_method: Option<Seq<char>>,
    pub registration_date: Option<Date>,
    pub termination_date: Option<Date>,
    pub extract_date: Option<Date>,
    pub address: Option<AddressView>,
    pub email: Option<Seq<char>>,
    pub main_activity: Option<ActivityView>,
    pub additional_activities: Seq<ActivityView>,
    pub registration: Option<IpRegistrationInfoView>,
    pub tax_authority: Option<TaxAuthorityView>,
    pub pension_fund: Option<PensionFundView>,
    pub social_insurance: Option<SocialInsuranceView>,
    pub licenses: Seq<LicenseView>,
    pub history: Seq<HistoryRecordView>,
    pub bankruptcy: Option<IpBankruptcyInfoView>,
    pub document_id: Option<Seq<char>>,
    pub source_file: Option<Seq<char>>,
}

impl DeepView for EgripRecord {
    type V = EgripRecordView;

    open spec fn deep_view(&self) -> EgripRecordView {
        EgripRecordView {
            ogrnip: self.ogrnip@,
            ogrnip_date: self.ogrnip_date,
            inn: self.inn@,
            person: self.person.deep_view(),
            gender: self.gender,
            citizenship: self.citizenship.deep_view(),
            status: self.status,
            status_code: self.status_code.deep_view(),
            termination_method: self.termination_method.deep_view(),
            registration_date: self.registration_date,
            termination_date: self.termination_date,
            extract_date: self.extract_date,
            address: self.address.deep_view(),
            email: self.email.deep_view(),
            main_activity: self.main_activity.deep_view(),
            additional_activities: self.additional_activities.deep_view(),
            registration: self.registration.deep_view(),
            tax_authority: self.tax_authority.deep_view(),
            pension_fund: self.pension_fund.deep_view(),
            social_insurance: self.social_insurance.deep_view(),
            licenses: self.licenses.deep_view(),
            history: self.history.deep_view(),
            bankruptcy: self.bankruptcy.deep_view(),
            document_id: self.document_id.deep_view(),
            source_file: self.source_file.deep_view(),
        }
    }
}

impl EgripRecordView {
    pub open spec fn empty() -> EgripRecordView {
        EgripRecordView {
            ogrnip: Seq::empty(),
            ogrnip_date: None,
            inn: Seq::empty(),
            person: PersonView::empty(),
            gender: None,
            citizenship: None,
            status: EntityStatus::Unknown,
            status_code: None,
            termination_method: None,
            registration_date: None,
            termination_date: None,
            extract_date: None,
            address: None,
            email: None,
            main_activity: None,
            additional_activities: Seq::empty(),
            registration: None,
            tax_authority: None,
            pension_fund: None,
            social_insurance: None,
            licenses: Seq::empty(),
            history: Seq::empty(),
            bankruptcy: None,
            document_id: None,
            source_file: None,
        }
    }
}

impl EgripRecord {
    /// A record with nothing filled in.
    pub fn new() -> (r: Self)
        ensures
            r.deep_view() == EgripRecordView::empty(),
    {
        let r = EgripRecord {
            ogrnip: String::new(),
            ogrnip_date: None,
            inn: String::new(),
            person: Person::new(),
            gender: None,
            citizenship: None,
            status: EntityStatus::Unknown,
            status_code: None,
            termination_method: None,
            registration_date: None,
            termination_date: None,
            extract_date: None,
            address: None,
            email: None,
            main_activity: None,
            additional_activities: Vec::new(),
            registration: None,
            tax_authority: None,
            pension_fund: None,
            social_insurance: None,
            licenses: Vec::new(),
            history: Vec::new(),
            bankruptcy: None,
            document_id: None,
            source_file: None,
        };
        assert(r.additional_activities.deep_view() =~= Seq::empty());
        assert(r.licenses.deep_view() =~= Seq::empty());
        assert(r.history.deep_view() =~= Seq::empty());
        r
    }
}

impl Default for EgripRecord {
    fn default() -> (r: Self)
        ensures
            r.deep_view() == EgripRecordView::empty(),
    {
        EgripRecord::new()
    }
}


impl EgripRecordView {
    /// Registration number, taxpayer number, last name and first name are
    /// all present once surrounding whitespace is set aside.
    pub open spec fn is_valid(self) -> bool {
        trimmed(self.ogrnip).len() > 0 && trimmed(self.inn).len() > 0 && trimmed(
            self.person.last_name,
        ).len() > 0 && trimmed(self.person.first_name).len() > 0
    }
}

impl EgripRecord {
    /// Whether the record may be emitted.
    pub fn is_valid(&self) -> (r: bool)
        ensures
            r == self.deep_view().is_valid(),
    {
        !is_blank(self.ogrnip.as_str()) && !is_blank(self.inn.as_str()) && !is_blank(
            self.person.last_name.as_str(),
        ) && !is_blank(self.person.first_name.as_str())
    }

    /// The proprietor's full name behind the abbreviation `ИП`.
    pub fn full_name(&self) -> (r: String)
        ensures
            r@ == "ИП "@ + self.deep_view().person.full_name(),
    {
        let name = self.person.full_name();
        concat2("ИП ", name.as_str())
    }

    /// The proprietor's last name and initials behind the abbreviation `ИП`.
    pub fn short_name(&self) -> (r: String)
        ensures
            r@ == "ИП "@ + self.deep_view().person.short_name(),
    {
        let name = self.person.short_name();
        concat2("ИП ", name.as_str())
    }

    /// The main activity, if there is one, followed by the additional ones.
    pub fn all_activities(&self) -> (r: Vec<&Activity>)
        ensures
            r.deep_view() == activities_in_order(
                self.deep_view().main_activity,
                self.deep_view().additional_activities,
            ),
    {
        collect_activities(&self.main_activity, &self.additional_activities)
    }

    /// Whether the proprietor is in business.
    pub fn is_active(&self) -> (r: bool)
        ensures
            r == (self.status == EntityStatus::Active),
    {
        self.status == EntityStatus::Active
    }
}

} // verus!
