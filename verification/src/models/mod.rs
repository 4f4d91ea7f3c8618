//! The data model: records of the two registries and their value objects.

pub mod common;
pub mod egrip;
pub mod egrul;

pub use common::Activity;
pub use common::ActivityView;
pub use common::Address;
pub use common::AddressView;
pub use common::Capital;
pub use common::CapitalView;
pub use common::Document;
pub use common::EntityStatus;
pub use common::Founder;
pub use common::FounderView;
pub use common::HistoryRecord;
pub use common::HistoryRecordView;
pub use common::License;
pub use common::LicenseView;
pub use common::PensionFund;
pub use common::PensionFundView;
pub use common::Person;
pub use common::PersonView;
pub use common::RegistrationAuthority;
pub use common::RegistrationAuthorityView;
pub use common::Share;
pub use common::ShareView;
pub use common::SocialInsurance;
pub use common::SocialInsuranceView;
pub use common::TaxAuthority;
pub use common::TaxAuthorityView;
pub use egrip::CitizenshipInfo;
pub use egrip::CitizenshipType;
pub use egrip::EgripRecord;
pub use egrip::EgripRecordView;
pub use egrip::Gender;
pub use egrip::IpBankruptcyInfo;
pub use egrip::IpRegistrationInfo;
pub use egrul::BankruptcyInfo;
pub use egrul::Branch;
pub use egrul::BranchType;
pub use egrul::EgrulRecord;
pub use egrul::EgrulRecordView;
pub use egrul::HeadInfo;
pub use egrul::LiquidationInfo;
pub use egrul::PredecessorInfo;
pub use egrul::RegistrationInfo;
pub use egrul::ReorganizationInfo;
pub use egrul::SuccessorInfo;

use crate::text::has_substring;
use crate::text::owned;
use crate::text::str_contains;
use crate::text::str_to_uppercase;
use crate::text::uppercase;
use vstd::prelude::*;

verus! {

/// One of the two registries.
#[derive(Debug, Clone, Copy, PartialEq, Eq, Structural)]
pub enum RegistryType {
    /// The registry of legal entities.
    Egrul,
    /// The registry of sole proprietors.
    Egrip,
}

impl RegistryType {
    /// The registry that the tokens in an uppercase file name point to.
    pub open spec fn of_uppercase_name(upper: Seq<char>) -> Option<RegistryType> {
        if has_substring(upper, "RUGFO"@) || has_substring(upper, "EGRUL"@) {
            Some(RegistryType::Egrul)
        } else if has_substring(upper, "RIGFO"@) || has_substring(upper, "EGRIP"@) {
            Some(RegistryType::Egrip)
        } else {
            None
        }
    }

    /// The registry whose record tag a document holds: that of legal
    /// entities where it holds both.
    pub open spec fn of_content(content: Seq<char>) -> Option<RegistryType> {
        if has_substring(content, "СвЮЛ"@) {
            Some(RegistryType::Egrul)
        } else if has_substring(content, "СвИП"@) {
            Some(RegistryType::Egrip)
        } else {
            None
        }
    }

    /// The registry that content and file name show together: the content
    /// decides, the file name only where the content shows nothing.
    pub open spec fn of_document(content: Seq<char>, file_name: Seq<char>) -> Option<RegistryType> {
        match Self::of_content(content) {
            Some(kind) => Some(kind),
            None => Self::of_uppercase_name(uppercase(file_name)),
        }
    }

    /// The label shown to the user for each registry.
    pub open spec fn label(self) -> Seq<char> {
        match self {
            RegistryType::Egrul => "ЕГРЮЛ"@,
            RegistryType::Egrip => "ЕГРИП"@,
        }
    }

    /// The label of each registry's output stream.
    pub open spec fn stream(self) -> Seq<char> {
        match self {
            RegistryType::Egrul => "le"@,
            RegistryType::Egrip => "sp"@,
        }
    }

    /// Tells the registry from a file name that is already in uppercase.
    pub fn from_uppercase_name(upper: &str) -> (r: Option<Self>)
        ensures
            r == Self::of_uppercase_name(upper@),
    {
        if str_contains(upper, "RUGFO") || str_contains(upper, "EGRUL") {
            Some(RegistryType::Egrul)
        } else if str_contains(upper, "RIGFO") || str_contains(upper, "EGRIP") {
            Some(RegistryType::Egrip)
        } else {
            None
        }
    }

    /// Tells the registry from the tokens in a file name, whatever their
    /// case.
    pub fn from_filename(filename: &str) -> (r: Option<Self>)
        ensures
            r == Self::of_uppercase_name(uppercase(filename@)),
    {
        let upper = str_to_uppercase(filename);
        Self::from_uppercase_name(upper.as_str())
    }

    /// Tells the registry from the content of a document.
    pub fn from_content(content: &str) -> (r: Option<Self>)
        ensures
            r == Self::of_content(content@),
    {
        if str_contains(content, "СвЮЛ") {
            Some(RegistryType::Egrul)
        } else if str_contains(content, "СвИП") {
            Some(RegistryType::Egrip)
        } else {
            None
        }
    }

    /// Tells the registry of a document: by its content first, by its file
    /// name where the content shows nothing.
    pub fn detect(content: &str, file_name: &str) -> (r: Option<Self>)
        ensures
            r == Self::of_document(content@, file_name@),
    {
        match Self::from_content(content) {
            Some(kind) => Some(kind),
            None => Self::from_filename(file_name),
        }
    }

    /// The label shown to the user.
    pub fn to_string(&self) -> (r: String)
        ensures
            r@ == self.label(),
    {
        match self {
            RegistryType::Egrul => owned("ЕГРЮЛ"),
            RegistryType::Egrip => owned("ЕГРИП"),
        }
    }

    /// The label of the registry's output stream.
    pub fn stream_label(&self) -> (r: &'static str)
        ensures
            r@ == self.stream(),
    {
        match self {
            RegistryType::Egrul => "le",
            RegistryType::Egrip => "sp",
        }
    }
}

/// A record of either registry.
#[derive(Debug, Clone)]
pub enum RegistryRecord {
    Egrul(EgrulRecord),
    Egrip(EgripRecord),
}

pub enum RegistryRecordView {
    Egrul(EgrulRecordView),
    Egrip(EgripRecordView),
}

impl DeepView for RegistryRecord {
    type V = RegistryRecordView;

    open spec fn deep_view(&self) -> RegistryRecordView {
        match self {
            RegistryRecord::Egrul(r) => RegistryRecordView::Egrul(r.deep_view()),
            RegistryRecord::Egrip(r) => RegistryRecordView::Egrip(r.deep_view()),
        }
    }
}

impl RegistryRecordView {
    pub open spec fn registry_type(self) -> RegistryType {
        match self {
            RegistryRecordView::Egrul(_) => RegistryType::Egrul,
            RegistryRecordView::Egrip(_) => RegistryType::Egrip,
        }
    }

    pub open spec fn inn(self) -> Seq<char> {
        match self {
            RegistryRecordView::Egrul(r) => r.inn,
            RegistryRecordView::Egrip(r) => r.inn,
        }
    }

    pub open spec fn ogrn(self) -> Seq<char> {
        match self {
            RegistryRecordView::Egrul(r) => r.ogrn,
            RegistryRecordView::Egrip(r) => r.ogrnip,
        }
    }

    pub open spec fn is_valid(self) -> bool {
        match self {
            RegistryRecordView::Egrul(r) => r.is_valid(),
            RegistryRecordView::Egrip(r) => r.is_valid(),
        }
    }
}

impl RegistryRecord {
    /// The registry the record belongs to.
    pub fn registry_type(&self) -> (r: RegistryType)
        ensures
            r == self.deep_view().registry_type(),
    {
        match self {
            RegistryRecord::Egrul(_) => RegistryType::Egrul,
            RegistryRecord::Egrip(_) => RegistryType::Egrip,
        }
    }

    /// The taxpayer number.
    pub fn inn(&self) -> (r: &str)
        ensures
            r@ == self.deep_view().inn(),
    {
        match self {
            RegistryRecord::Egrul(r) => r.inn.as_str(),
            RegistryRecord::Egrip(r) => r.inn.as_str(),
        }
    }

    /// The primary state registration number.
    pub fn ogrn(&self) -> (r: &str)
        ensures
            r@ == self.deep_view().ogrn(),
    {
        match self {
            RegistryRecord::Egrul(r) => r.ogrn.as_str(),
            RegistryRecord::Egrip(r) => r.ogrnip.as_str(),
        }
    }
}

} // verus!
