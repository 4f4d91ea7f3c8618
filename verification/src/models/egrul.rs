//! Legal entities.

use crate::date::Date;
use crate::models::common::Activity;
use crate::models::common::ActivityView;
use crate::models::common::Address;
use crate::models::common::AddressView;
use crate::models::common::Capital;
use crate::models::common::CapitalView;
use crate::models::common::EntityStatus;
use crate::models::common::Founder;
use crate::models::common::FounderView;
use crate::models::common::HistoryRecord;
use crate::models::common::HistoryRecordView;
use crate::models::common::License;
use crate::models::common::LicenseView;
use crate::models::common::PensionFund;
use crate::models::common::PensionFundView;
use crate::models::common::Person;
use crate::models::common::PersonView;
use crate::models::common::RegistrationAuthority;
use crate::models::common::RegistrationAuthorityView;
use crate::models::common::SocialInsurance;
use crate::models::common::SocialInsuranceView;
use crate::models::common::TaxAuthority;
use crate::models::common::TaxAuthorityView;
use crate::text::is_blank;
use crate::text::trimmed;
use vstd::prelude::*;

verus! {

/// The kind of a structural subdivision.
#[derive(Debug, Clone, Copy, PartialEq, Eq, Structural)]
pub enum BranchType {
    Branch,
    Representative,
}

impl Default for BranchType {
    fn default() -> (r: Self)
        ensures
            r == BranchType::Branch,
    {
        BranchType::Branch
    }
}

/// The head officer of a legal entity.
#[derive(Debug, Clone)]
pub struct HeadInfo {
    pub person: Person,
    pub position: Option<String>,
    pub position_code: Option<String>,
    pub start_date: Option<Date>,
    /// State registration number of the entry.
    pub grn: Option<String>,
    pub grn_date: Option<Date>,
    pub is_disqualified: bool,
}

pub struct HeadInfoView {
    pub person: PersonView,
    pub position: Option<Seq<char>>,
    pub position_code: Option<Seq<char>>,
    pub start_date: Option<Date>,
    pub grn: Option<Seq<char>>,
    pub grn_date: Option<Date>,
    pub is_disqualified: bool,
}

impl DeepView for HeadInfo {
    type V = HeadInfoView;

    open spec fn deep_view(&self) -> HeadInfoView {
        HeadInfoView {
            person: self.person.deep_view(),
            position: self.position.deep_view(),
            position_code: self.position_code.deep_view(),
            start_date: self.start_date,
            grn: self.grn.deep_view(),
            grn_date: self.grn_date,
            is_disqualified: self.is_disqualified,
        }
    }
}

impl HeadInfoView {
    pub open spec fn empty() -> HeadInfoView {
        HeadInfoView {
            person: PersonView::empty(),
            position: None,
            position_code: None,
            start_date: None,
            grn: None,
            grn_date: None,
            is_disqualified: false,
        }
    }
}

impl HeadInfo {
    /// A head officer with nothing filled in.
    pub fn new() -> (r: Self)
        ensures
            r.deep_view() == HeadInfoView::empty(),
    {
        let r = HeadInfo {
            person: Person::new(),
            position: None,
            position_code: None,
            start_date: None,
            grn: None,
            grn_date: None,
            is_disqualified: false,
        };
        r
    }
}

impl Default for HeadInfo {
    fn default() -> (r: Self)
        ensures
            r.deep_view() == HeadInfoView::empty(),
    {
        HeadInfo::new()
    }
}

/// How and where a legal entity was registered.
#[derive(Debug, Clone)]
pub struct RegistrationInfo {
    pub formation_method: Option<String>,
    pub formation_code: Option<String>,
    pub authority: Option<RegistrationAuthority>,
    /// Registration number from before 1 July 2002.
    pub old_reg_number: Option<String>,
    pub old_reg_date: Option<Date>,
    pub old_authority: Option<String>,
    pub certificate_series: Option<String>,
    pub certificate_number: Option<String>,
    pub certificate_date: Option<Date>,
}

pub struct RegistrationInfoView {
    pub formation_method: Option<Seq<char>>,
    pub formation_code: Option<Seq<char>>,
    pub authority: Option<RegistrationAuthorityView>,
    pub old_reg_number: Option<Seq<char>>,
    pub old_reg_date: Option<Date>,
    pub old_authority: Option<Seq<char>>,
    pub certificate_series: Option<Seq<char>>,
    pub certificate_number: Option<Seq<char>>,
    pub certificate_date: Option<Date>,
}

impl DeepView for RegistrationInfo {
    type V = RegistrationInfoView;

    open spec fn deep_view(&self) -> RegistrationInfoView {
        RegistrationInfoView {
            formation_method: self.formation_method.deep_view(),
            formation_code: self.formation_code.deep_view(),
            authority: self.authority.deep_view(),
            old_reg_number: self.old_reg_number.deep_view(),
            old_reg_date: self.old_reg_date,
            old_authority: self.old_authority.deep_view(),
            certificate_series: self.certificate_series.deep_view(),
            certificate_number: self.certificate_number.deep_view(),
            certificate_date: self.certificate_date,
        }
    }
}

impl RegistrationInfoView {
    pub open spec fn empty() -> RegistrationInfoView {
        RegistrationInfoView {
            formation_method: None,
            formation_code: None,
            authority: None,
            old_reg_number: None,
            old_reg_date: None,
            old_authority: None,
            certificate_series: None,
            certificate_number: None,
            certificate_date: None,
        }
    }
}

impl RegistrationInfo {
    /// A registration with nothing filled in.
    pub fn new() -> (r: Self)
        ensures
            r.deep_view() == RegistrationInfoView::empty(),
    {
        let r = RegistrationInfo {
            formation_method: None,
            formation_code: None,
            authority: None,
            old_reg_number: None,
            old_reg_date: None,
            old_authority: None,
            certificate_series: None,
            certificate_number: None,
            certificate_date: None,
        };
        r
    }
}

impl Default for RegistrationInfo {
    fn default() -> (r: Self)
        ensures
            r.deep_view() == RegistrationInfoView::empty(),
    {
        RegistrationInfo::new()
    }
}

/// A branch or a representative office.
#[derive(Debug, Clone)]
pub struct Branch {
    pub branch_type: BranchType,
    pub name: Option<String>,
    pub address: Option<Address>,
    pub kpp: Option<String>,
    pub grn: Option<String>,
    pub grn_date: Option<Date>,
}

pub struct BranchView {
    pub branch_type: BranchType,
    pub name: Option<Seq<char>>,
    pub address: Option<AddressView>,
    pub kpp: Option<Seq<char>>,
    pub grn: Option<Seq<char>>,
    pub grn_date: Option<Date>,
}

impl DeepView for Branch {
    type V = BranchView;

    open spec fn deep_view(&self) -> BranchView {
        BranchView {
            branch_type: self.branch_type,
            name: self.name.deep_view(),
            address: self.address.deep_view(),
            kpp: self.kpp.deep_view(),
            grn: self.grn.deep_view(),
            grn_date: self.grn_date,
        }
    }
}

impl BranchView {
    pub open spec fn empty() -> BranchView {
        BranchView {
            branch_type: BranchType::Branch,
            name: None,
            address: None,
            kpp: None,
            grn: None,
            grn_date: None,
        }
    }
}

impl Branch {
    /// A branch with nothing filled in.
    pub fn new() -> (r: Self)
        ensures
            r.deep_view() == BranchView::empty(),
    {
        let r = Branch {
            branch_type: BranchType::Branch,
            name: None,
            address: None,
            kpp: None,
            grn: None,
            grn_date: None,
        };
        r
    }
}

impl Default for Branch {
    fn default() -> (r: Self)
        ensures
            r.deep_view() == BranchView::empty(),
    {
        Branch::new()
    }
}

/// A bankruptcy proceeding against a legal entity.
#[derive(Debug, Clone)]
pub struct BankruptcyInfo {
    pub stage: Option<String>,
    pub stage_code: Option<String>,
    pub stage_date: Option<Date>,
    /// The insolvency practitioner.
    pub manager: Option<Person>,
    pub sro_name: Option<String>,
}

pub struct BankruptcyInfoView {
    pub stage: Option<Seq<char>>,
    pub stage_code: Option<Seq<char>>,
    pub stage_date: Option<Date>,
    pub manager: Option<PersonView>,
    pub sro_name: Option<Seq<char>>,
}

impl DeepView for BankruptcyInfo {
    type V = BankruptcyInfoView;

    open spec fn deep_view(&self) -> BankruptcyInfoView {
        BankruptcyInfoView {
            stage: self.stage.deep_view(),
            stage_code: self.stage_code.deep_view(),
            stage_date: self.stage_date,
            manager: self.manager.deep_view(),
            sro_name: self.sro_name.deep_view(),
        }
    }
}

impl BankruptcyInfoView {
    pub open spec fn empty() -> BankruptcyInfoView {
        BankruptcyInfoView {
            stage: None,
            stage_code: None,
            stage_date: None,
            manager: None,
            sro_name: None,
        }
    }
}

impl BankruptcyInfo {
    /// A proceeding with nothing filled in.
    pub fn new() -> (r: Self)
        ensures
            r.deep_view() == BankruptcyInfoView::empty(),
    {
        let r = BankruptcyInfo {
            stage: None,
            stage_code: None,
            stage_date: None,
            manager: None,
            sro_name: None,
        };
        r
    }
}

impl Default for BankruptcyInfo {
    fn default() -> (r: Self)
        ensures
            r.deep_view() == BankruptcyInfoView::empty(),
    {
        BankruptcyInfo::new()
    }
}

/// A legal successor.
#[derive(Debug, Clone)]
pub struct SuccessorInfo {
    pub ogrn: String,
    pub inn: Option<String>,
    pub name: Option<String>,
}

pub struct SuccessorInfoView {
    pub ogrn: Seq<char>,
    pub inn: Option<Seq<char>>,
    pub name: Option<Seq<char>>,
}

impl DeepView for SuccessorInfo {
    type V = SuccessorInfoView;

    open spec fn deep_view(&self) -> SuccessorInfoView {
        SuccessorInfoView {
            ogrn: self.ogrn@,
            inn: self.inn.deep_view(),
            name: self.name.deep_view(),
        }
    }
}

impl SuccessorInfoView {
    pub open spec fn empty() -> SuccessorInfoView {
        SuccessorInfoView {
            ogrn: Seq::empty(),
            inn: None,
            name: None,
        }
    }
}

impl SuccessorInfo {
    /// A successor with nothing filled in.
    pub fn new() -> (r: Self)
        ensures
            r.deep_view() == SuccessorInfoView::empty(),
    {
        let r = SuccessorInfo {
            ogrn: String::new(),
            inn: None,
            name: None,
        };
        r
    }
}

impl Default for SuccessorInfo {
    fn default() -> (r: Self)
        ensures
            r.deep_view() == SuccessorInfoView::empty(),
    {
        SuccessorInfo::new()
    }
}

/// A legal predecessor.
#[derive(Debug, Clone)]
pub struct PredecessorInfo {
    pub ogrn: String,
    pub inn: Option<String>,
    pub name: Option<String>,
}

pub struct PredecessorInfoView {
    pub ogrn: Seq<char>,
    pub inn: Option<Seq<char>>,
    pub name: Option<Seq<char>>,
}

impl DeepView for PredecessorInfo {
    type V = PredecessorInfoView;

    open spec fn deep_view(&self) -> PredecessorInfoView {
        PredecessorInfoView {
            ogrn: self.ogrn@,
            inn: self.inn.deep_view(),
            name: self.name.deep_view(),
        }
    }
}

impl PredecessorInfoView {
    pub open spec fn empty() -> PredecessorInfoView {
        PredecessorInfoView {
            ogrn: Seq::empty(),
            inn: None,
            name: None,
        }
    }
}

impl PredecessorInfo {
    /// A predecessor with nothing filled in.
    pub fn new() -> (r: Self)
        ensures
            r.deep_view() == PredecessorInfoView::empty(),
    {
        let r = PredecessorInfo {
            ogrn: String::new(),
            inn: None,
            name: None,
        };
        r
    }
}

impl Default for PredecessorInfo {
    fn default() -> (r: Self)
        ensures
            r.deep_view() == PredecessorInfoView::empty(),
    {
        PredecessorInfo::new()
    }
}

/// A reorganisation.
#[derive(Debug, Clone)]
pub struct ReorganizationInfo {
    pub form: Option<String>,
    pub form_code: Option<String>,
    pub successors: Vec<SuccessorInfo>,
    pub predecessors: Vec<PredecessorInfo>,
}

pub struct ReorganizationInfoView {
    pub form: Option<Seq<char>>,
    pub form_code: Option<Seq<char>>,
    pub successors: Seq<SuccessorInfoView>,
    pub predecessors: Seq<PredecessorInfoView>,
}

impl DeepView for ReorganizationInfo {
    type V = ReorganizationInfoView;

    open spec fn deep_view(&self) -> ReorganizationInfoView {
        ReorganizationInfoView {
            form: self.form.deep_view(),
            form_code: self.form_code.deep_view(),
            successors: self.successors.deep_view(),
            predecessors: self.predecessors.deep_view(),
        }
    }
}

impl ReorganizationInfoView {
    pub open spec fn empty() -> ReorganizationInfoView {
        ReorganizationInfoView {
            form: None,
            form_code: None,
            successors: Seq::empty(),
            predecessors: Seq::empty(),
        }
    }
}

impl ReorganizationInfo {
    /// A reorganisation with nothing filled in.
    pub fn new() -> (r: Self)
        ensures
            r.deep_view() == ReorganizationInfoView::empty(),
    {
        let r = ReorganizationInfo {
            form: None,
            form_code: None,
            successors: Vec::new(),
            predecessors: Vec::new(),
        };
        assert(r.successors.deep_view() =~= Seq::empty());
        assert(r.predecessors.deep_view() =~= Seq::empty());
        r
    }
}

impl Default for ReorganizationInfo {
    fn default() -> (r: Self)
        ensures
            r.deep_view() == ReorganizationInfoView::empty(),
    {
        ReorganizationInfo::new()
    }
}

/// A liquidation.
#[derive(Debug, Clone)]
pub struct LiquidationInfo {
    pub method: Option<String>,
    pub method_code: Option<String>,
    pub decision_date: Option<Date>,
    pub liquidator: Option<Person>,
    /// The liquidator, where it is an organisation.
    pub liquidator_org: Option<String>,
}

pub struct LiquidationInfoView {
    pub method: Option<Seq<char>>,
    pub method_code: Option<Seq<char>>,
    pub decision_date: Option<Date>,
    pub liquidator: Option<PersonView>,
    pub liquidator_org: Option<Seq<char>>,
}

impl DeepView for LiquidationInfo {
    type V = LiquidationInfoView;

    open spec fn deep_view(&self) -> LiquidationInfoView {
        LiquidationInfoView {
            method: self.method.deep_view(),
            method_code: self.method_code.deep_view(),
            decision_date: self.decision_date,
            liquidator: self.liquidator.deep_view(),
            liquidator_org: self.liquidator_org.deep_view(),
        }
    }
}

impl LiquidationInfoView {
    pub open spec fn empty() -> LiquidationInfoView {
        LiquidationInfoView {
            method: None,
            method_code: None,
            decision_date: None,
            liquidator: None,
            liquidator_org: None,
        }
    }
}

impl LiquidationInfo {
    /// A liquidation with nothing filled in.
    pub fn new() -> (r: Self)
        ensures
            r.deep_view() == LiquidationInfoView::empty(),
    {
        let r = LiquidationInfo {
            method: None,
            method_code: None,
            decision_date: None,
            liquidator: None,
            liquidator_org: None,
        };
        r
    }
}

impl Default for LiquidationInfo {
    fn default() -> (r: Self)
        ensures
            r.deep_view() == LiquidationInfoView::empty(),
    {
        LiquidationInfo::new()
    }
}

/// A legal entity as the registry describes it.
#[derive(Debug, Clone)]
pub struct EgrulRecord {
    /// Primary state registration number.
    pub ogrn: String,
    /// When the registration number was assigned.
    pub ogrn_date: Option<Date>,
    /// Taxpayer number.
    pub inn: String,
    /// Tax registration reason code.
    pub kpp: Option<String>,
    pub full_name: String,
    pub short_name: Option<String>,
    pub brand_name: Option<String>,
    /// Code of the organisational form.
    pub opf_code: Option<String>,
    pub opf_name: Option<String>,
    pub status: EntityStatus,
    /// The status code exactly as the source gives it.
    pub status_code: Option<String>,
    pub termination_method: Option<String>,
    pub registration_date: Option<Date>,
    pub termination_date: Option<Date>,
    /// Date of the extract.
    pub extract_date: Option<Date>,
    pub address: Option<Address>,
    pub email: Option<String>,
    pub capital: Option<Capital>,
    pub head: Option<HeadInfo>,
    pub founders: Vec<Founder>,
    pub main_activity: Option<Activity>,
    pub additional_activities: Vec<Activity>,
    pub registration: Option<RegistrationInfo>,
    pub tax_authority: Option<TaxAuthority>,
    pub pension_fund: Option<PensionFund>,
    pub social_insurance: Option<SocialInsurance>,
    pub licenses: Vec<License>,
    pub branches: Vec<Branch>,
    pub history: Vec<HistoryRecord>,
    pub bankruptcy: Option<BankruptcyInfo>,
    pub reorganization: Option<ReorganizationInfo>,
    pub liquidation: Option<LiquidationInfo>,
    pub document_id: Option<String>,
    /// Name of the file the record came from.
    pub source_file: Option<String>,
}

pub struct EgrulRecordView {
    pub ogrn: Seq<char>,
    pub ogrn_date: Option<Date>,
    pub inn: Seq<char>,
    pub kpp: Option<Seq<char>>,
    pub full_name: Seq<char>,
    pub short_name: Option<Seq<char>>,
    pub brand_name: Option<Seq<char>>,
    pub opf_code: Option<Seq<char>>,
    pub opf_name: Option<Seq<char>>,
    pub status: EntityStatus,
    pub status_code: Option<Seq<char>>,
    pub termination_method: Option<Seq<char>>,
    pub registration_date: Option<Date>,
    pub termination_date: Option<Date>,
    pub extract_date: Option<Date>,
    pub address: Option<AddressView>,
    pub email: Option<Seq<char>>,
    pub capital: Option<CapitalView>,
    pub head: Option<HeadInfoView>,
    pub founders: Seq<FounderView>,
    pub main_activity: Option<ActivityView>,
    pub additional_activities: Seq<ActivityView>,
    pub registration: Option<RegistrationInfoView>,
    pub tax_authority: Option<TaxAuthorityView>,
    pub pension_fund: Option<PensionFundView>,
    pub social_insurance: Option<SocialInsuranceView>,
    pub licenses: Seq<LicenseView>,
    pub branches: Seq<BranchView>,
    pub history: Seq<HistoryRecordView>,
    pub bankruptcy: Option<BankruptcyInfoView>,
    pub reorganization: Option<ReorganizationInfoView>,
    pub liquidation: Option<LiquidationInfoView>,
    pub document_id: Option<Seq<char>>,
    pub source_file: Option<Seq<char>>,
}

impl DeepView for EgrulRecord {
    type V = EgrulRecordView;

    open spec fn deep_view(&self) -> EgrulRecordView {
        EgrulRecordView {
            ogrn: self.ogrn@,
            ogrn_date: self.ogrn_date,
            inn: self.inn@,
            kpp: self.kpp.deep_view(),
            full_name: self.full_name@,
            short_name: self.short_name.deep_view(),
            brand_name: self.brand_name.deep_view(),
            opf_code: self.opf_code.deep_view(),
            opf_name: self.opf_name.deep_view(),
            status: self.status,
            status_code: self.status_code.deep_view(),
            termination_method: self.termination_method.deep_view(),
            registration_date: self.registration_date,
            termination_date: self.termination_date,
            extract_date: self.extract_date,
            address: self.address.deep_view(),
            email: self.email.deep_view(),
            capital: self.capital.deep_view(),
            head: self.head.deep_view(),
            founders: self.founders.deep_view(),
            main_activity: self.main_activity.deep_view(),
            additional_activities: self.additional_activities.deep_view(),
            registration: self.registration.deep_view(),
            tax_authority: self.tax_authority.deep_view(),
            pension_fund: self.pension_fund.deep_view(),
            social_insurance: self.social_insurance.deep_view(),
            licenses: self.licenses.deep_view(),
            branches: self.branches.deep_view(),
            history: self.history.deep_view(),
            bankruptcy: self.bankruptcy.deep_view(),
            reorganization: self.reorganization.deep_view(),
            liquidation: self.liquidation.deep_view(),
            document_id: self.document_id.deep_view(),
            source_file: self.source_file.deep_view(),
        }
    }
}

impl EgrulRecordView {
    pub open spec fn empty() -> EgrulRecordView {
        EgrulRecordView {
            ogrn: Seq::empty(),
            ogrn_date: None,
            inn: Seq::empty(),
            kpp: None,
            full_name: Seq::empty(),
            short_name: None,
            brand_name: None,
            opf_code: None,
            opf_name: None,
            status: EntityStatus::Unknown,
            status_code: None,
            termination_method: None,
            registration_date: None,
            termination_date: None,
            extract_date: None,
            address: None,
            email: None,
            capital: None,
            head: None,
            founders: Seq::empty(),
            main_activity: None,
            additional_activities: Seq::empty(),
            registration: None,
            tax_authority: None,
            pension_fund: None,
            social_insurance: None,
            licenses: Seq::empty(),
            branches: Seq::empty(),
            history: Seq::empty(),
            bankruptcy: None,
            reorganization: None,
            liquidation: None,
            document_id: None,
            source_file: None,
        }
    }
}

impl EgrulRecord {
    /// A record with nothing filled in.
    pub fn new() -> (r: Self)
        ensures
            r.deep_view() == EgrulRecordView::empty(),
    {
        let r = EgrulRecord {
            ogrn: String::new(),
            ogrn_date: None,
            inn: String::new(),
            kpp: None,
            full_name: String::new(),
            short_name: None,
            brand_name: None,
            opf_code: None,
            opf_name: None,
            status: EntityStatus::Unknown,
            status_code: None,
            termination_method: None,
            registration_date: None,
            termination_date: None,
            extract_date: None,
            address: None,
            email: None,
            capital: None,
            head: None,
            founders: Vec::new(),
            main_activity: None,
            additional_activities: Vec::new(),
            registration: None,
            tax_authority: None,
            pension_fund: None,
            social_insurance: None,
            licenses: Vec::new(),
            branches: Vec::new(),
            history: Vec::new(),
            bankruptcy: None,
            reorganization: None,
            liquidation: None,
            document_id: None,
            source_file: None,
        };
        assert(r.founders.deep_view() =~= Seq::empty());
        assert(r.additional_activities.deep_view() =~= Seq::empty());
        assert(r.licenses.deep_view() =~= Seq::empty());
        assert(r.branches.deep_view() =~= Seq::empty());
        assert(r.history.deep_view() =~= Seq::empty());
        r
    }
}

impl Default for EgrulRecord {
    fn default() -> (r: Self)
        ensures
            r.deep_view() == EgrulRecordView::empty(),
    {
        EgrulRecord::new()
    }
}


/// The main activity, if there is one, followed by the additional ones.
pub open spec fn activities_in_order(
    main: Option<ActivityView>,
    additional: Seq<ActivityView>,
) -> Seq<ActivityView> {
    match main {
        Some(a) => seq![a] + additional,
        None => additional,
    }
}

/// References to the main activity, if there is one, and then to the
/// additional ones.
pub fn collect_activities<'a>(main: &'a Option<Activity>, additional: &'a Vec<Activity>) -> (r: Vec<
    &'a Activity,
>)
    ensures
        r.deep_view() == activities_in_order(main.deep_view(), additional.deep_view()),
{
    let mut all: Vec<&Activity> = Vec::new();
    if let Some(a) = main {
        all.push(a);
    }
    let ghost lead = all.deep_view();
    assert(lead =~= match main.deep_view() {
        Some(a) => seq![a],
        None => Seq::empty(),
    });
    let mut i: usize = 0;
    while i < additional.len()
        invariant
            i <= additional.len(),
            all.deep_view() =~= lead + additional.deep_view().take(i as int),
        decreases additional.len() - i,
    {
        let ghost before = all.deep_view();
        all.push(&additional[i]);
        proof {
            let views = additional.deep_view();
            assert(views[i as int] == additional[i as int].deep_view());
            assert(all.deep_view() =~= before.push(views[i as int]));
            assert(views.take(i + 1) =~= views.take(i as int).push(views[i as int]));
        }
        i = i + 1;
    }
    assert(additional.deep_view().take(i as int) =~= additional.deep_view());
    assert(all.deep_view() =~= activities_in_order(main.deep_view(), additional.deep_view()));
    all
}

impl EgrulRecordView {
    /// Registration number, taxpayer number and full name are all present
    /// once surrounding whitespace is set aside.
    pub open spec fn is_valid(self) -> bool {
        trimmed(self.ogrn).len() > 0 && trimmed(self.inn).len() > 0 && trimmed(
            self.full_name,
        ).len() > 0
    }
}

impl EgrulRecord {
    /// Whether the record may be emitted.
    pub fn is_valid(&self) -> (r: bool)
        ensures
            r == self.deep_view().is_valid(),
    {
        !is_blank(self.ogrn.as_str()) && !is_blank(self.inn.as_str()) && !is_blank(
            self.full_name.as_str(),
        )
    }

    /// The main activity, if there is one, followed by the additional ones.
    pub fn all_activities(&self) -> (r: Vec<&Activity>)
        ensures
            r.deep_view() == activities_in_order(
                self.deep_view().main_activity,
                self.deep_view().additional_activities,
            ),
    {
        collect_activities(&self.main_activity, &self.additional_activities)
    }

    /// Whether the entity is in operation.
    pub fn is_active(&self) -> (r: bool)
        ensures
            r == (self.status == EntityStatus::Active),
    {
        self.status == EntityStatus::Active
    }
}

} // verus!
