//! Shared field types that appear inside many resource kinds.

use vstd::prelude::*;
use vstd::string::StringExecFns;

use crate::scalar::Timestamp;

verus! {

/// A lightweight cross-entity pointer: relation and lookup only, never
/// ownership.  `entity_ref_type` names the target's kind, `name` carries a
/// display name, and `value` carries the target's id.
#[derive(Clone, Debug, PartialEq, Eq)]
pub struct NtRef {
    pub entity_ref_type: Option<String>,
    pub name: Option<String>,
    pub value: Option<String>,
}

/// Mathematical model of a reference.
#[verifier::ext_equal]
pub struct NtRefView {
    pub entity_ref_type: Option<Seq<char>>,
    pub name: Option<Seq<char>>,
    pub value: Option<Seq<char>>,
}

/// The view of an optional string.
pub open spec fn view_opt_str(o: Option<String>) -> Option<Seq<char>> {
    match o {
        Some(s) => Some(s@),
        None => None,
    }
}

impl View for NtRef {
    type V = NtRefView;

    open spec fn view(&self) -> NtRefView {
        NtRefView {
            entity_ref_type: view_opt_str(self.entity_ref_type),
            name: view_opt_str(self.name),
            value: view_opt_str(self.value),
        }
    }
}

impl Default for NtRef {
    /// A reference with no fields set.
    fn default() -> (r: NtRef)
        ensures
            r.entity_ref_type is None && r.name is None && r.value is None,
    {
        NtRef { entity_ref_type: None, name: None, value: None }
    }
}

impl From<String> for NtRef {
    /// A bare reference holding only a target id.
    fn from(value: String) -> (r: NtRef) {
        NtRef { entity_ref_type: None, name: None, value: Some(value) }
    }
}

impl vstd::std_specs::convert::FromSpecImpl<String> for NtRef {
    open spec fn obeys_from_spec() -> bool {
        true
    }

    open spec fn from_spec(value: String) -> NtRef {
        NtRef { entity_ref_type: None, name: None, value: Some(value) }
    }
}

impl From<&str> for NtRef {
    /// A bare reference holding only a target id, copied from the slice.
    ///
    /// A character sequence cannot stand for an owned string in a
    /// specification, so this conversion carries no contract; callers that
    /// need one use the owned form.
    fn from(value: &str) -> (r: NtRef) {
        NtRef { entity_ref_type: None, name: None, value: Some(value.to_owned()) }
    }
}

impl vstd::std_specs::convert::FromSpecImpl<&str> for NtRef {
    open spec fn obeys_from_spec() -> bool {
        false
    }

    open spec fn from_spec(value: &str) -> NtRef {
        NtRef { entity_ref_type: None, name: None, value: None }
    }
}

impl From<(&str, &str)> for NtRef {
    /// A reference holding a display name and a target id, copied from the
    /// slices; as with the single-slice form, the owned conversion carries
    /// the contract.
    fn from(pair: (&str, &str)) -> (r: NtRef) {
        NtRef {
            entity_ref_type: None,
            name: Some(pair.0.to_owned()),
            value: Some(pair.1.to_owned()),
        }
    }
}

impl vstd::std_specs::convert::FromSpecImpl<(&str, &str)> for NtRef {
    open spec fn obeys_from_spec() -> bool {
        false
    }

    open spec fn from_spec(pair: (&str, &str)) -> NtRef {
        NtRef { entity_ref_type: None, name: None, value: None }
    }
}

impl From<(String, String)> for NtRef {
    /// A reference holding a display name and a target id.
    fn from(pair: (String, String)) -> (r: NtRef) {
        NtRef { entity_ref_type: None, name: Some(pair.0), value: Some(pair.1) }
    }
}

impl vstd::std_specs::convert::FromSpecImpl<(String, String)> for NtRef {
    open spec fn obeys_from_spec() -> bool {
        true
    }

    open spec fn from_spec(pair: (String, String)) -> NtRef {
        NtRef { entity_ref_type: None, name: Some(pair.0), value: Some(pair.1) }
    }
}

/// Creation and last-update stamps attached by the remote platform.
#[derive(Clone, Copy, Debug, PartialEq, Eq, Structural)]
pub struct MetaData {
    pub create_time: Timestamp,
    pub last_updated_time: Timestamp,
}

/// An email address holder.
#[derive(Clone, Debug, PartialEq, Eq)]
pub struct Email {
    pub address: Option<String>,
}

impl Default for Email {
    fn default() -> (r: Email)
        ensures
            r.address is None,
    {
        Email { address: None }
    }
}

/// A postal address.
#[derive(Clone, Debug, PartialEq, Eq)]
pub struct Addr {
    pub city: Option<String>,
    pub country: Option<String>,
    pub country_sub_division_code: Option<String>,
    pub id: Option<String>,
    pub line1: Option<String>,
    pub postal_code: Option<String>,
}

impl Default for Addr {
    fn default() -> (r: Addr)
        ensures
            r.city is None && r.country is None && r.country_sub_division_code is None
                && r.id is None && r.line1 is None && r.postal_code is None,
    {
        Addr {
            city: None,
            country: None,
            country_sub_division_code: None,
            id: None,
            line1: None,
            postal_code: None,
        }
    }
}

/// The contents of an optional string, or the empty sequence.
pub open spec fn or_empty(o: Option<Seq<char>>) -> Seq<char> {
    match o {
        Some(s) => s,
        None => Seq::empty(),
    }
}

impl Addr {
    /// One-line rendering: street, city, region, country and postal code.
    pub fn display_line(&self) -> (r: String)
        ensures
            r@ == or_empty(view_opt_str(self.line1)) + (", ")@ + or_empty(
                view_opt_str(self.city),
            ) + (", ")@ + or_empty(view_opt_str(self.country_sub_division_code)) + (", ")@
                + or_empty(view_opt_str(self.country)) + (" ")@ + or_empty(
                view_opt_str(self.postal_code),
            ),
    {
        let mut s = match &self.line1 {
            Some(v) => v.clone(),
            None => String::new(),
        };
        s.append(", ");
        match &self.city {
            Some(v) => s.append(v.as_str()),
            None => (),
        }
        s.append(", ");
        match &self.country_sub_division_code {
            Some(v) => s.append(v.as_str()),
            None => (),
        }
        s.append(", ");
        match &self.country {
            Some(v) => s.append(v.as_str()),
            None => (),
        }
        s.append(" ");
        match &self.postal_code {
            Some(v) => s.append(v.as_str()),
            None => (),
        }
        proof {
            assert(s@ =~= or_empty(view_opt_str(self.line1)) + (", ")@ + or_empty(
                view_opt_str(self.city),
            ) + (", ")@ + or_empty(view_opt_str(self.country_sub_division_code)) + (", ")@
                + or_empty(view_opt_str(self.country)) + (" ")@ + or_empty(
                view_opt_str(self.postal_code),
            ));
        }
        s
    }
}

/// A web address holder.
#[derive(Clone, Debug, PartialEq, Eq)]
pub struct WebAddr {
    pub url: Option<String>,
}

/// A free-form phone number holder.
#[derive(Clone, Debug, PartialEq, Eq)]
pub struct PhoneNumber {
    pub free_form_number: Option<String>,
}

/// A pointer to a transaction linked to this one.
#[derive(Clone, Debug, PartialEq, Eq)]
pub struct LinkedTxn {
    pub txn_id: Option<String>,
    pub txn_type: Option<String>,
}

/// Mathematical model of a linked transaction.
#[verifier::ext_equal]
pub struct LinkedTxnView {
    pub txn_id: Option<Seq<char>>,
    pub txn_type: Option<Seq<char>>,
}

impl View for LinkedTxn {
    type V = LinkedTxnView;

    open spec fn view(&self) -> LinkedTxnView {
        LinkedTxnView {
            txn_id: view_opt_str(self.txn_id),
            txn_type: view_opt_str(self.txn_type),
        }
    }
}

impl Default for LinkedTxn {
    fn default() -> (r: LinkedTxn)
        ensures
            r.txn_id is None && r.txn_type is None,
    {
        LinkedTxn { txn_id: None, txn_type: None }
    }
}

/// A caller-defined field attached to a record.
#[derive(Clone, Debug, PartialEq, Eq)]
pub struct CustomField {
    pub definition_id: Option<String>,
    pub string_value: Option<String>,
    pub name: Option<String>,
    pub field_type: Option<String>,
}

/// Status of a credit-card payment.
#[derive(Clone, Copy, Debug, PartialEq, Eq, Structural, Hash)]
pub enum CCPaymentStatus {
    Completed,
    Unkown,
}

/// Whether a document still needs to be printed.
#[derive(Clone, Copy, Debug, PartialEq, Eq, Structural, Hash)]
pub enum PrintStatus {
    NotSet,
    NeedToPrint,
    PrintComplete,
}

/// Whether a document still needs to be sent by email.
#[derive(Clone, Copy, Debug, PartialEq, Eq, Structural, Hash)]
pub enum EmailStatus {
    NotSet,
    NotSent,
    NeedToSend,
    EmailSent,
}

/// Method by which tax is applied to a transaction.
#[derive(Clone, Copy, Debug, PartialEq, Eq, Structural, Hash)]
pub enum GlobalTaxCalculation {
    WithinFrance,
    FranceOverseas,
    OutsideFranceWithEU,
    OutsideEU,
    Other,
}

/// How a bill payment is made.
#[derive(Clone, Copy, Debug, PartialEq, Eq, Structural, Hash)]
pub enum PayType {
    CreditCard,
    Check,
}

/// Details of a bill payment made by check.
#[derive(Clone, Debug, PartialEq, Eq)]
pub struct CheckBillPayment {
    pub print_status: Option<String>,
    pub bank_account_ref: Option<NtRef>,
}

/// Details of a bill payment made by credit card.
#[derive(Clone, Debug, PartialEq, Eq)]
pub struct CreditCardBillPayment {
    pub cc_account_ref: Option<NtRef>,
}

/// Reason codes for tax exemption.  The remote platform numbers them 1 to
/// 15; anything else maps to `Other`.
#[derive(Clone, Copy, Debug, PartialEq, Eq, Structural, Hash)]
pub enum TaxExemptStatus {
    FederalGovernment,
    StateGovernment,
    LocalGovernment,
    TribalGovernment,
    CharitableOrganization,
    ReligiousOrganization,
    EducationalOrganization,
    Hospital,
    Resale,
    DirectPayPermit,
    MultiplePointsOfUse,
    DirectMail,
    AgriculturalProduction,
    IndustrialProductionOrManufacturing,
    ForeignDiplomat,
    Other,
}

/// The status a numeric reason code denotes.
pub open spec fn tax_exempt_of_code(value: u8) -> TaxExemptStatus {
    if value == 1 {
        TaxExemptStatus::FederalGovernment
    } else if value == 2 {
        TaxExemptStatus::StateGovernment
    } else if value == 3 {
        TaxExemptStatus::LocalGovernment
    } else if value == 4 {
        TaxExemptStatus::TribalGovernment
    } else if value == 5 {
        TaxExemptStatus::CharitableOrganization
    } else if value == 6 {
        TaxExemptStatus::ReligiousOrganization
    } else if value == 7 {
        TaxExemptStatus::EducationalOrganization
    } else if value == 8 {
        TaxExemptStatus::Hospital
    } else if value == 9 {
        TaxExemptStatus::Resale
    } else if value == 10 {
        TaxExemptStatus::DirectPayPermit
    } else if value == 11 {
        TaxExemptStatus::MultiplePointsOfUse
    } else if value == 12 {
        TaxExemptStatus::DirectMail
    } else if value == 13 {
        TaxExemptStatus::AgriculturalProduction
    } else if value == 14 {
        TaxExemptStatus::IndustrialProductionOrManufacturing
    } else if value == 15 {
        TaxExemptStatus::ForeignDiplomat
    } else {
        TaxExemptStatus::Other
    }
}

/// The numeric reason code of a status; `Other` carries code 0.
pub open spec fn tax_exempt_code(status: TaxExemptStatus) -> u8 {
    match status {
        TaxExemptStatus::Other => 0,
        TaxExemptStatus::FederalGovernment => 1,
        TaxExemptStatus::StateGovernment => 2,
        TaxExemptStatus::LocalGovernment => 3,
        TaxExemptStatus::TribalGovernment => 4,
        TaxExemptStatus::CharitableOrganization => 5,
        TaxExemptStatus::ReligiousOrganization => 6,
        TaxExemptStatus::EducationalOrganization => 7,
        TaxExemptStatus::Hospital => 8,
        TaxExemptStatus::Resale => 9,
        TaxExemptStatus::DirectPayPermit => 10,
        TaxExemptStatus::MultiplePointsOfUse => 11,
        TaxExemptStatus::DirectMail => 12,
        TaxExemptStatus::AgriculturalProduction => 13,
        TaxExemptStatus::IndustrialProductionOrManufacturing => 14,
        TaxExemptStatus::ForeignDiplomat => 15,
    }
}

impl From<u8> for TaxExemptStatus {
    /// Decodes a numeric reason code; unknown codes map to `Other`.
    fn from(value: u8) -> (r: TaxExemptStatus) {
        match value {
            1 => TaxExemptStatus::FederalGovernment,
            2 => TaxExemptStatus::StateGovernment,
            3 => TaxExemptStatus::LocalGovernment,
            4 => TaxExemptStatus::TribalGovernment,
            5 => TaxExemptStatus::CharitableOrganization,
            6 => TaxExemptStatus::ReligiousOrganization,
            7 => TaxExemptStatus::EducationalOrganization,
            8 => TaxExemptStatus::Hospital,
            9 => TaxExemptStatus::Resale,
            10 => TaxExemptStatus::DirectPayPermit,
            11 => TaxExemptStatus::MultiplePointsOfUse,
            12 => TaxExemptStatus::DirectMail,
            13 => TaxExemptStatus::AgriculturalProduction,
            14 => TaxExemptStatus::IndustrialProductionOrManufacturing,
            15 => TaxExemptStatus::ForeignDiplomat,
            _ => TaxExemptStatus::Other,
        }
    }
}

impl vstd::std_specs::convert::FromSpecImpl<u8> for TaxExemptStatus {
    open spec fn obeys_from_spec() -> bool {
        true
    }

    open spec fn from_spec(value: u8) -> TaxExemptStatus {
        tax_exempt_of_code(value)
    }
}

impl From<TaxExemptStatus> for u8 {
    /// Encodes a status as its numeric reason code.
    fn from(status: TaxExemptStatus) -> (r: u8) {
        match status {
            TaxExemptStatus::Other => 0,
            TaxExemptStatus::FederalGovernment => 1,
            TaxExemptStatus::StateGovernment => 2,
            TaxExemptStatus::LocalGovernment => 3,
            TaxExemptStatus::TribalGovernment => 4,
            TaxExemptStatus::CharitableOrganization => 5,
            TaxExemptStatus::ReligiousOrganization => 6,
            TaxExemptStatus::EducationalOrganization => 7,
            TaxExemptStatus::Hospital => 8,
            TaxExemptStatus::Resale => 9,
            TaxExemptStatus::DirectPayPermit => 10,
            TaxExemptStatus::MultiplePointsOfUse => 11,
            TaxExemptStatus::DirectMail => 12,
            TaxExemptStatus::AgriculturalProduction => 13,
            TaxExemptStatus::IndustrialProductionOrManufacturing => 14,
            TaxExemptStatus::ForeignDiplomat => 15,
        }
    }
}

impl vstd::std_specs::convert::FromSpecImpl<TaxExemptStatus> for u8 {
    open spec fn obeys_from_spec() -> bool {
        true
    }

    open spec fn from_spec(status: TaxExemptStatus) -> u8 {
        tax_exempt_code(status)
    }
}

/// A known reason code maps back to itself through its status.
pub proof fn lemma_tax_exempt_code_roundtrip(value: u8)
    requires
        1 <= value <= 15,
    ensures
        tax_exempt_code(tax_exempt_of_code(value)) == value,
{
}

} // verus!
