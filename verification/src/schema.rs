//! Auxiliary per-kind field types.
//!
//! These are plain data carriers read and written by callers; the
//! capability evaluator consults only a few of them (account and item
//! classifications).

use vstd::prelude::*;

use crate::common::NtRef;
use crate::common::PhoneNumber;

verus! {

/// High-level classification of a ledger account.
#[derive(Clone, Copy, Debug, PartialEq, Eq, Structural, Hash)]
pub enum AccountType {
    /// Placeholder until concrete classifications are carried.
    Unspecified,
}

/// Classification of a catalog item.
#[derive(Clone, Copy, Debug, PartialEq, Eq, Structural, Hash)]
pub enum ItemType {
    Inventory,
    Service,
    NonInventory,
}

/// Granularity of one budget entry.
#[derive(Clone, Copy, Debug, PartialEq, Eq, Structural, Hash)]
pub enum BudgetEntryType {
    Monthly,
    Quarterly,
    Annually,
}

/// Kind of budget.
#[derive(Clone, Copy, Debug, PartialEq, Eq, Structural, Hash)]
pub enum BudgetType {
    ProfitAndLoss,
}

/// Kind of payment method.
#[derive(Clone, Copy, Debug, PartialEq, Eq, Structural, Hash)]
pub enum PaymentMethodType {
    CreditCard,
    NonCreditCard,
}

/// How a recurring transaction is triggered.
#[derive(Clone, Copy, Debug, PartialEq, Eq, Structural, Hash)]
pub enum RecurType {
    Automated,
    Reminded,
    UnScheduled,
}

/// Interval unit of a recurring schedule.
#[derive(Clone, Copy, Debug, PartialEq, Eq, Structural, Hash)]
pub enum IntervalType {
    Daily,
    Weekly,
    Monthly,
    Yearly,
}

/// Who configured a tax agency.
#[derive(Clone, Copy, Debug, PartialEq, Eq, Structural, Hash)]
pub enum TaxAgencyConfig {
    UserDefined,
    SystemGenerated,
}

/// One rate entry of a tax code.
#[derive(Clone, Debug, PartialEq, Eq)]
pub struct TaxRateDetail {
    pub tax_rate_ref: NtRef,
    pub tax_type_applicable: Option<TaxTypeApplicable>,
    pub tax_order: Option<i32>,
}

/// What a tax rate applies to.
#[derive(Clone, Copy, Debug, PartialEq, Eq, Structural, Hash)]
pub enum TaxTypeApplicable {
    TaxOnAmount,
    TaxOnTax,
    TaxOnAmountPlusTax,
}

/// Who configured a tax code.
#[derive(Clone, Copy, Debug, PartialEq, Eq, Structural, Hash)]
pub enum TaxCodeConfigType {
    UserDefined,
    SystemGenerated,
}

/// How a payment term falls due.
#[derive(Clone, Copy, Debug, PartialEq, Eq, Structural, Hash)]
pub enum TermType {
    Standard,
    DateDriven,
}

/// Additional contact information of a vendor.
#[derive(Clone, Debug, PartialEq, Eq)]
pub struct ContactInfo {
    pub contact_type: Option<String>,
    pub telephone: Option<PhoneNumber>,
}

/// Bank details used for vendor payments.
#[derive(Clone, Debug, PartialEq, Eq)]
pub struct VendorPaymentBankDetail {
    pub bank_account_name: Option<String>,
    pub bank_branch_identifier: Option<String>,
    pub bank_account_number: Option<String>,
    pub statement_text: Option<String>,
}

/// Default email messages for outgoing documents.
#[derive(Clone, Debug, PartialEq, Eq)]
pub struct EmailMessagePrefs {
    pub invoice_message: Option<EmailMessageType>,
    pub estimate_message: Option<EmailMessageType>,
    pub sales_receipt_message: Option<EmailMessageType>,
    pub statement_message: Option<EmailMessageType>,
}

/// One default email message: subject and body.
#[derive(Clone, Debug, PartialEq, Eq)]
pub struct EmailMessageType {
    pub message: Option<String>,
    pub subject: Option<String>,
}

/// Settings for products and services.
#[derive(Clone, Debug, PartialEq, Eq)]
pub struct ProductAndServicesPrefs {
    pub revenue_recognition_enabled: Option<bool>,
    pub recognition_frequency_type: Option<String>,
    pub for_sales: Option<bool>,
    pub quantity_on_hand: Option<bool>,
    pub quantity_with_price_and_rate: Option<bool>,
    pub for_purchase: Option<bool>,
}

/// Settings for reports.
#[derive(Clone, Debug, PartialEq, Eq)]
pub struct ReportPrefs {
    pub report_basis: Option<String>,
    pub calc_aging_report_from_txn_date: Option<bool>,
}

/// Settings for taxes.
#[derive(Clone, Debug, PartialEq, Eq)]
pub struct TaxPrefs {
    pub partner_tax_enabled: Option<bool>,
    pub tax_group_code_ref: Option<String>,
    pub using_sales_tax: Option<bool>,
}

/// Settings for time tracking.
#[derive(Clone, Debug, PartialEq, Eq)]
pub struct TimeTrackingPrefs {
    pub work_week_start_date: Option<String>,
    pub mark_time_entries_billable: Option<bool>,
    pub show_bill_rate_to_all: Option<bool>,
    pub using_sales_tax: Option<bool>,
    pub bill_customers: Option<bool>,
}

} // verus!
