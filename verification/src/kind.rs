//! The kind registry.
//!
//! Every resource kind is described by one descriptor bundle: its canonical
//! name, its lowercase request-path identifier, the field its references are
//! named from, and its membership in each lifecycle capability.  The
//! registry replaces per-kind generated boilerplate with one explicit table.

use vstd::prelude::*;

verus! {

/// One resource kind of the remote platform.
#[derive(Clone, Copy, Debug, PartialEq, Eq, Structural, Hash)]
pub enum EntityKind {
    Account,
    Attachable,
    Bill,
    BillPayment,
    Budget,
    Class,
    CompanyInfo,
    CreditMemo,
    Currency,
    Customer,
    Department,
    Employee,
    Estimate,
    Invoice,
    Item,
    Payment,
    PaymentMethod,
    Preferences,
    SalesReceipt,
    TaxAgency,
    Term,
    Vendor,
}

/// The field a kind's references take their display name from.
#[derive(Clone, Copy, Debug, PartialEq, Eq, Structural, Hash)]
pub enum NamingField {
    DisplayName,
    Name,
    DocNumber,
    FullyQualifiedName,
    FileName,
    CompanyName,
    Unnamed,
}

/// Canonical name of the kind, as the wire format and reference type tags
/// spell it.
pub open spec fn spec_canonical_name(k: EntityKind) -> Seq<char> {
    match k {
        EntityKind::Account => ("Account")@,
        EntityKind::Attachable => ("Attachable")@,
        EntityKind::Bill => ("Bill")@,
        EntityKind::BillPayment => ("BillPayment")@,
        EntityKind::Budget => ("Budget")@,
        EntityKind::Class => ("Class")@,
        EntityKind::CompanyInfo => ("CompanyInfo")@,
        EntityKind::CreditMemo => ("CreditMemo")@,
        EntityKind::Currency => ("CompanyCurrency")@,
        EntityKind::Customer => ("Customer")@,
        EntityKind::Department => ("Department")@,
        EntityKind::Employee => ("Employee")@,
        EntityKind::Estimate => ("Estimate")@,
        EntityKind::Invoice => ("Invoice")@,
        EntityKind::Item => ("Item")@,
        EntityKind::Payment => ("Payment")@,
        EntityKind::PaymentMethod => ("PaymentMethod")@,
        EntityKind::Preferences => ("Preferences")@,
        EntityKind::SalesReceipt => ("SalesReceipt")@,
        EntityKind::TaxAgency => ("TaxAgency")@,
        EntityKind::Term => ("Term")@,
        EntityKind::Vendor => ("Vendor")@,
    }
}

/// Lowercase identifier of the kind, used in request paths.
pub open spec fn spec_api_id(k: EntityKind) -> Seq<char> {
    match k {
        EntityKind::Account => ("account")@,
        EntityKind::Attachable => ("attachable")@,
        EntityKind::Bill => ("bill")@,
        EntityKind::BillPayment => ("billpayment")@,
        EntityKind::Budget => ("budget")@,
        EntityKind::Class => ("class")@,
        EntityKind::CompanyInfo => ("companyinfo")@,
        EntityKind::CreditMemo => ("creditmemo")@,
        EntityKind::Currency => ("companycurrency")@,
        EntityKind::Customer => ("customer")@,
        EntityKind::Department => ("department")@,
        EntityKind::Employee => ("employee")@,
        EntityKind::Estimate => ("estimate")@,
        EntityKind::Invoice => ("invoice")@,
        EntityKind::Item => ("item")@,
        EntityKind::Payment => ("payment")@,
        EntityKind::PaymentMethod => ("paymentmethod")@,
        EntityKind::Preferences => ("preferences")@,
        EntityKind::SalesReceipt => ("salesreceipt")@,
        EntityKind::TaxAgency => ("taxagency")@,
        EntityKind::Term => ("term")@,
        EntityKind::Vendor => ("vendor")@,
    }
}

/// The naming field of each kind.
pub open spec fn spec_naming_field(k: EntityKind) -> NamingField {
    match k {
        EntityKind::Account => NamingField::FullyQualifiedName,
        EntityKind::Attachable => NamingField::FileName,
        EntityKind::Bill => NamingField::DocNumber,
        EntityKind::BillPayment => NamingField::DocNumber,
        EntityKind::Budget => NamingField::Name,
        EntityKind::Class => NamingField::Name,
        EntityKind::CompanyInfo => NamingField::CompanyName,
        EntityKind::CreditMemo => NamingField::DocNumber,
        EntityKind::Currency => NamingField::Name,
        EntityKind::Customer => NamingField::DisplayName,
        EntityKind::Department => NamingField::Name,
        EntityKind::Employee => NamingField::DisplayName,
        EntityKind::Estimate => NamingField::DocNumber,
        EntityKind::Invoice => NamingField::DocNumber,
        EntityKind::Item => NamingField::Name,
        EntityKind::Payment => NamingField::Unnamed,
        EntityKind::PaymentMethod => NamingField::Name,
        EntityKind::Preferences => NamingField::Unnamed,
        EntityKind::SalesReceipt => NamingField::DocNumber,
        EntityKind::TaxAgency => NamingField::DisplayName,
        EntityKind::Term => NamingField::Name,
        EntityKind::Vendor => NamingField::DisplayName,
    }
}

/// Membership of each kind in the create capability.
pub open spec fn spec_supports_create(k: EntityKind) -> bool {
    !(k == EntityKind::CompanyInfo || k == EntityKind::Preferences)
}

/// Membership of each kind in the delete capability.
pub open spec fn spec_supports_delete(k: EntityKind) -> bool {
    ||| k == EntityKind::Attachable
    ||| k == EntityKind::Bill
    ||| k == EntityKind::BillPayment
    ||| k == EntityKind::Budget
    ||| k == EntityKind::CreditMemo
    ||| k == EntityKind::Estimate
    ||| k == EntityKind::Invoice
    ||| k == EntityKind::Payment
}

/// Membership of each kind in the void capability.
pub open spec fn spec_supports_void(k: EntityKind) -> bool {
    ||| k == EntityKind::BillPayment
    ||| k == EntityKind::Invoice
    ||| k == EntityKind::Payment
    ||| k == EntityKind::SalesReceipt
}

/// Membership of each kind in the full-update capability.
pub open spec fn spec_supports_full_update(k: EntityKind) -> bool {
    k != EntityKind::TaxAgency
}

/// Membership of each kind in the sparse-update capability.
pub open spec fn spec_supports_sparse_update(k: EntityKind) -> bool {
    ||| k == EntityKind::CompanyInfo
    ||| k == EntityKind::Customer
    ||| k == EntityKind::Estimate
    ||| k == EntityKind::Invoice
    ||| k == EntityKind::SalesReceipt
}

/// Membership of each kind in the send capability.
pub open spec fn spec_supports_send(k: EntityKind) -> bool {
    ||| k == EntityKind::CreditMemo
    ||| k == EntityKind::Estimate
    ||| k == EntityKind::Invoice
    ||| k == EntityKind::Payment
    ||| k == EntityKind::SalesReceipt
}

/// Membership of each kind in the produce-document capability.
pub open spec fn spec_supports_pdf(k: EntityKind) -> bool {
    ||| k == EntityKind::CreditMemo
    ||| k == EntityKind::Estimate
    ||| k == EntityKind::Invoice
    ||| k == EntityKind::Payment
    ||| k == EntityKind::SalesReceipt
}

/// The descriptor bundle of one kind.
pub struct KindDescriptor {
    pub name: &'static str,
    pub api_id: &'static str,
    pub naming_field: NamingField,
    pub supports_create: bool,
    pub supports_delete: bool,
    pub supports_void: bool,
    pub supports_full_update: bool,
    pub supports_sparse_update: bool,
    pub supports_send: bool,
    pub supports_pdf: bool,
}

impl EntityKind {
    /// Canonical name of the kind.
    pub fn canonical_name(self) -> (r: &'static str)
        ensures
            r@ == spec_canonical_name(self),
    {
        match self {
            EntityKind::Account => "Account",
            EntityKind::Attachable => "Attachable",
            EntityKind::Bill => "Bill",
            EntityKind::BillPayment => "BillPayment",
            EntityKind::Budget => "Budget",
            EntityKind::Class => "Class",
            EntityKind::CompanyInfo => "CompanyInfo",
            EntityKind::CreditMemo => "CreditMemo",
            EntityKind::Currency => "CompanyCurrency",
            EntityKind::Customer => "Customer",
            EntityKind::Department => "Department",
            EntityKind::Employee => "Employee",
            EntityKind::Estimate => "Estimate",
            EntityKind::Invoice => "Invoice",
            EntityKind::Item => "Item",
            EntityKind::Payment => "Payment",
            EntityKind::PaymentMethod => "PaymentMethod",
            EntityKind::Preferences => "Preferences",
            EntityKind::SalesReceipt => "SalesReceipt",
            EntityKind::TaxAgency => "TaxAgency",
            EntityKind::Term => "Term",
            EntityKind::Vendor => "Vendor",
        }
    }

    /// Lowercase identifier of the kind, used in request paths.
    pub fn qb_id(self) -> (r: &'static str)
        ensures
            r@ == spec_api_id(self),
    {
        match self {
            EntityKind::Account => "account",
            EntityKind::Attachable => "attachable",
            EntityKind::Bill => "bill",
            EntityKind::BillPayment => "billpayment",
            EntityKind::Budget => "budget",
            EntityKind::Class => "class",
            EntityKind::CompanyInfo => "companyinfo",
            EntityKind::CreditMemo => "creditmemo",
            EntityKind::Currency => "companycurrency",
            EntityKind::Customer => "customer",
            EntityKind::Department => "department",
            EntityKind::Employee => "employee",
            EntityKind::Estimate => "estimate",
            EntityKind::Invoice => "invoice",
            EntityKind::Item => "item",
            EntityKind::Payment => "payment",
            EntityKind::PaymentMethod => "paymentmethod",
            EntityKind::Preferences => "preferences",
            EntityKind::SalesReceipt => "salesreceipt",
            EntityKind::TaxAgency => "taxagency",
            EntityKind::Term => "term",
            EntityKind::Vendor => "vendor",
        }
    }

    /// The naming field of the kind.
    pub fn naming_field(self) -> (r: NamingField)
        ensures
            r == spec_naming_field(self),
    {
        match self {
            EntityKind::Account => NamingField::FullyQualifiedName,
            EntityKind::Attachable => NamingField::FileName,
            EntityKind::Bill => NamingField::DocNumber,
            EntityKind::BillPayment => NamingField::DocNumber,
            EntityKind::Budget => NamingField::Name,
            EntityKind::Class => NamingField::Name,
            EntityKind::CompanyInfo => NamingField::CompanyName,
            EntityKind::CreditMemo => NamingField::DocNumber,
            EntityKind::Currency => NamingField::Name,
            EntityKind::Customer => NamingField::DisplayName,
            EntityKind::Department => NamingField::Name,
            EntityKind::Employee => NamingField::DisplayName,
            EntityKind::Estimate => NamingField::DocNumber,
            EntityKind::Invoice => NamingField::DocNumber,
            EntityKind::Item => NamingField::Name,
            EntityKind::Payment => NamingField::Unnamed,
            EntityKind::PaymentMethod => NamingField::Name,
            EntityKind::Preferences => NamingField::Unnamed,
            EntityKind::SalesReceipt => NamingField::DocNumber,
            EntityKind::TaxAgency => NamingField::DisplayName,
            EntityKind::Term => NamingField::Name,
            EntityKind::Vendor => NamingField::DisplayName,
        }
    }

    /// The full descriptor bundle of the kind.
    pub fn descriptor(self) -> (r: KindDescriptor)
        ensures
            r.name@ == spec_canonical_name(self),
            r.api_id@ == spec_api_id(self),
            r.naming_field == spec_naming_field(self),
            r.supports_create == spec_supports_create(self),
            r.supports_delete == spec_supports_delete(self),
            r.supports_void == spec_supports_void(self),
            r.supports_full_update == spec_supports_full_update(self),
            r.supports_sparse_update == spec_supports_sparse_update(self),
            r.supports_send == spec_supports_send(self),
            r.supports_pdf == spec_supports_pdf(self),
    {
        KindDescriptor {
            name: self.canonical_name(),
            api_id: self.qb_id(),
            naming_field: self.naming_field(),
            supports_create: !(matches!(self, EntityKind::CompanyInfo) || matches!(
                self,
                EntityKind::Preferences,
            )),
            supports_delete: matches!(
                self,
                EntityKind::Attachable | EntityKind::Bill | EntityKind::BillPayment
                    | EntityKind::Budget | EntityKind::CreditMemo | EntityKind::Estimate
                    | EntityKind::Invoice | EntityKind::Payment,
            ),
            supports_void: matches!(
                self,
                EntityKind::BillPayment | EntityKind::Invoice | EntityKind::Payment
                    | EntityKind::SalesReceipt,
            ),
            supports_full_update: !(matches!(self, EntityKind::TaxAgency)),
            supports_sparse_update: matches!(
                self,
                EntityKind::CompanyInfo | EntityKind::Customer | EntityKind::Estimate
                    | EntityKind::Invoice | EntityKind::SalesReceipt,
            ),
            supports_send: matches!(
                self,
                EntityKind::CreditMemo | EntityKind::Estimate | EntityKind::Invoice
                    | EntityKind::Payment | EntityKind::SalesReceipt,
            ),
            supports_pdf: matches!(
                self,
                EntityKind::CreditMemo | EntityKind::Estimate | EntityKind::Invoice
                    | EntityKind::Payment | EntityKind::SalesReceipt,
            ),
        }
    }
}

} // verus!
