//! The generic entity record and its capability evaluator.
//!
//! One record carries the named optional fields that the lifecycle
//! predicates read, plus its kind.  Every predicate is a pure function of
//! the record's current field values; callers re-evaluate them immediately
//! before each transport call.

use vstd::prelude::*;

use crate::common::CheckBillPayment;
use crate::common::CreditCardBillPayment;
use crate::common::Email;
use crate::common::EmailStatus;
use crate::common::MetaData;
use crate::common::NtRef;
use crate::common::PayType;
use crate::common::view_opt_str;
use crate::common::Addr;
use crate::error::QBTypeError;
use crate::kind::spec_canonical_name;
use crate::kind::spec_naming_field;
use crate::kind::EntityKind;
use crate::kind::NamingField;
use crate::line::LineField;
use crate::scalar::Date;
use crate::scalar::Decimal;
use crate::schema::AccountType;
use crate::schema::ItemType;
use crate::text::has_visible_char;
use crate::text::str_has_visible;
use crate::QBCreatable;
use crate::QBDeletable;
use crate::QBFullUpdatable;
use crate::QBItem;
use crate::QBQueryable;
use crate::QBSparseUpdateable;
use crate::QBToRef;
use crate::QBVoidable;

verus! {

/// One resource record: the common fields every kind carries, plus the
/// kind-specific optional fields that the lifecycle predicates read.
///
/// A record is created empty and filled field by field by the caller, or
/// produced by decoding a wire payload.  The id and the concurrency stamp
/// are both present exactly when the record was read back from the
/// platform.
pub struct EntityRecord {
    /// Which resource kind this record is.
    pub kind: EntityKind,
    /// The unique id of the record.
    pub id: Option<String>,
    /// The opaque optimistic-concurrency stamp.
    pub sync_token: Option<String>,
    /// Creation and last-update stamps.
    pub meta_data: Option<MetaData>,
    /// Whether a partial-field update is intended.
    pub sparse: Option<bool>,
    /// Display name (person and organization kinds).
    pub display_name: Option<String>,
    /// Title of a person's name.
    pub title: Option<String>,
    /// First name.
    pub given_name: Option<String>,
    /// Middle name.
    pub middle_name: Option<String>,
    /// Last name.
    pub family_name: Option<String>,
    /// Suffix of a person's name.
    pub suffix: Option<String>,
    /// Plain name (catalog and list kinds).
    pub name: Option<String>,
    /// Fully qualified name (ledger accounts).
    pub fully_qualified_name: Option<String>,
    /// Company name (company information).
    pub company_name: Option<String>,
    /// Document number (transaction kinds).
    pub doc_number: Option<String>,
    /// The customer or vendor the transaction targets.
    pub target_ref: Option<NtRef>,
    /// The parent record, for hierarchical kinds.
    pub parent_ref: Option<NtRef>,
    /// The rows of a multi-line document.
    pub line: Option<LineField>,
    /// Whether the document still needs to be sent by email.
    pub email_status: Option<EmailStatus>,
    /// The billing email address.
    pub bill_email: Option<Email>,
    /// High-level classification of a ledger account.
    pub account_type: Option<AccountType>,
    /// Sub-type of a ledger account.
    pub account_sub_type: Option<String>,
    /// Classification of a catalog item.
    pub item_type: Option<ItemType>,
    /// Income account of a catalog item.
    pub income_account_ref: Option<NtRef>,
    /// Expense account of a catalog item.
    pub expense_account_ref: Option<NtRef>,
    /// Inventory asset account of a catalog item.
    pub asset_account_ref: Option<NtRef>,
    /// Inventory start date of a catalog item.
    pub inv_start_date: Option<Date>,
    /// Quantity on hand of a catalog item.
    pub qty_on_hand: Option<i64>,
    /// Total amount of a transaction.
    pub total_amt: Option<Decimal>,
    /// How a bill payment is made.
    pub pay_type: Option<PayType>,
    /// Check details of a bill payment.
    pub check_payment: Option<CheckBillPayment>,
    /// Credit-card details of a bill payment.
    pub credit_card_payment: Option<CreditCardBillPayment>,
    /// File name of an attachment.
    pub file_name: Option<String>,
    /// Local path of an attachment file awaiting upload.
    pub file_path: Option<String>,
    /// Content type of an attachment.
    pub content_type: Option<String>,
    /// Note text of an attachment.
    pub note: Option<String>,
    /// Company address (company information).
    pub company_addr: Option<Addr>,
    /// Whether the record is a sub-entry of a hierarchical kind.
    pub sub_entry: Option<bool>,
    /// Currency code (currency kinds).
    pub code: Option<String>,
    /// Day of month a term falls due.
    pub day_of_month_due: Option<u32>,
    /// Days until a term falls due.
    pub due_days: Option<u32>,
}

impl EntityRecord {
    /// A record of the kind with every field unset.
    pub fn new(kind: EntityKind) -> (r: EntityRecord)
        ensures
            r.kind == kind,
            r.id is None,
            r.sync_token is None,
            r.meta_data is None,
            r.sparse is None,
            r.display_name is None,
            r.title is None,
            r.given_name is None,
            r.middle_name is None,
            r.family_name is None,
            r.suffix is None,
            r.name is None,
            r.fully_qualified_name is None,
            r.company_name is None,
            r.doc_number is None,
            r.target_ref is None,
            r.parent_ref is None,
            r.line is None,
            r.email_status is None,
            r.bill_email is None,
            r.account_type is None,
            r.account_sub_type is None,
            r.item_type is None,
            r.income_account_ref is None,
            r.expense_account_ref is None,
            r.asset_account_ref is None,
            r.inv_start_date is None,
            r.qty_on_hand is None,
            r.total_amt is None,
            r.pay_type is None,
            r.check_payment is None,
            r.credit_card_payment is None,
            r.file_name is None,
            r.file_path is None,
            r.content_type is None,
            r.note is None,
            r.company_addr is None,
            r.sub_entry is None,
            r.code is None,
            r.day_of_month_due is None,
            r.due_days is None,
    {
        EntityRecord {
            kind,
            id: None,
            sync_token: None,
            meta_data: None,
            sparse: None,
            display_name: None,
            title: None,
            given_name: None,
            middle_name: None,
            family_name: None,
            suffix: None,
            name: None,
            fully_qualified_name: None,
            company_name: None,
            doc_number: None,
            target_ref: None,
            parent_ref: None,
            line: None,
            email_status: None,
            bill_email: None,
            account_type: None,
            account_sub_type: None,
            item_type: None,
            income_account_ref: None,
            expense_account_ref: None,
            asset_account_ref: None,
            inv_start_date: None,
            qty_on_hand: None,
            total_amt: None,
            pay_type: None,
            check_payment: None,
            credit_card_payment: None,
            file_name: None,
            file_path: None,
            content_type: None,
            note: None,
            company_addr: None,
            sub_entry: None,
            code: None,
            day_of_month_due: None,
            due_days: None,
        }
    }
}

// ------------------------------------------------------------------
// The capability evaluator
// ------------------------------------------------------------------

/// Whether at least one row of the optional collection satisfies its own
/// create precondition.
pub open spec fn spec_lines_ready(o: Option<Seq<crate::line::Line>>) -> bool {
    match o {
        Some(ls) => exists|i: int| 0 <= i < ls.len() && ls[i].spec_can_create(),
        None => false,
    }
}

/// Whether the record holds every field its kind requires of a new
/// instance.
///
/// Line-bearing documents (bill, credit memo, estimate, invoice, sales
/// receipt) require the target reference and at least one row whose amount
/// is set and whose detail is concrete.  Person and organization kinds
/// require at least one name component.  Catalog items require a name, an
/// expense account and, depending on the item type, further inventory
/// fields.
pub open spec fn spec_can_create(e: &EntityRecord) -> bool {
    match e.kind {
        EntityKind::Account => e.name is Some && (e.account_type is Some
            || e.account_sub_type is Some),
        EntityKind::Attachable => e.file_name is Some || e.note is Some,
        EntityKind::Bill => e.target_ref is Some && spec_lines_ready(opt_lines_view(&e.line)),
        EntityKind::BillPayment => e.target_ref is Some && e.total_amt is Some && e.line is Some
            && match e.pay_type {
            Some(PayType::CreditCard) => e.credit_card_payment is Some,
            Some(PayType::Check) => e.check_payment is Some,
            None => false,
        },
        EntityKind::Budget => true,
        EntityKind::Class => (visible_name(&e.name) && e.sub_entry != Some(true))
            || e.parent_ref is Some,
        EntityKind::CompanyInfo => false,
        EntityKind::CreditMemo => e.target_ref is Some && spec_lines_ready(
            opt_lines_view(&e.line),
        ),
        EntityKind::Currency => e.code is Some,
        EntityKind::Customer => any_person_name(e),
        EntityKind::Department => e.name is Some && (e.sub_entry != Some(true)
            || e.parent_ref is Some),
        EntityKind::Employee => e.given_name is Some || e.family_name is Some,
        EntityKind::Estimate => e.target_ref is Some && spec_lines_ready(
            opt_lines_view(&e.line),
        ),
        EntityKind::Invoice => e.target_ref is Some && spec_lines_ready(opt_lines_view(&e.line)),
        EntityKind::Item => e.name is Some && e.expense_account_ref is Some && match e.item_type {
            Some(ItemType::Inventory) => e.income_account_ref is Some
                && e.asset_account_ref is Some && e.inv_start_date is Some
                && e.qty_on_hand is Some,
            Some(ItemType::Service) => e.income_account_ref is Some,
            Some(ItemType::NonInventory) => true,
            None => e.asset_account_ref is Some,
        },
        EntityKind::Payment => e.total_amt is Some && e.target_ref is Some,
        EntityKind::PaymentMethod => visible_name(&e.name),
        EntityKind::Preferences => false,
        EntityKind::SalesReceipt => e.target_ref is Some && spec_lines_ready(
            opt_lines_view(&e.line),
        ),
        EntityKind::TaxAgency => visible_name(&e.display_name),
        EntityKind::Term => e.name is Some && (e.day_of_month_due is Some || e.due_days is Some),
        EntityKind::Vendor => any_person_name(e),
    }
}

/// The rows of the optional collection, as a sequence.
pub open spec fn opt_lines_view(o: &Option<LineField>) -> Option<Seq<crate::line::Line>> {
    match o {
        Some(ls) => Some(ls@),
        None => None,
    }
}

/// Whether the optional name is set and holds a visible character.
pub open spec fn visible_name(o: &Option<String>) -> bool {
    match o {
        Some(n) => has_visible_char(n@),
        None => false,
    }
}

/// Whether any of the person-name components is set.
pub open spec fn any_person_name(e: &EntityRecord) -> bool {
    ||| e.display_name is Some
    ||| e.suffix is Some
    ||| e.title is Some
    ||| e.middle_name is Some
    ||| e.family_name is Some
    ||| e.given_name is Some
}

/// Whether the record was read back: id and concurrency stamp both present.
pub open spec fn spec_has_read(e: &EntityRecord) -> bool {
    e.id is Some && e.sync_token is Some
}

/// Whether the record holds what its kind requires for a full update:
/// it was read back (id and concurrency stamp both present) and meets its
/// kind's creation requirements, with a few kinds adding or substituting a
/// clause (a document pending send also needs a billing email; company
/// information and catalog items name the fields a full write must carry).
pub open spec fn spec_can_full_update(e: &EntityRecord) -> bool {
    match e.kind {
        EntityKind::Account => e.name is Some && spec_has_read(e),
        EntityKind::Attachable => spec_has_read(e) && spec_can_create(e),
        EntityKind::Bill => spec_has_read(e) && spec_can_create(e),
        EntityKind::BillPayment => spec_can_create(e) && spec_has_read(e),
        EntityKind::Budget => spec_has_read(e),
        EntityKind::Class => spec_has_read(e) && spec_can_create(e),
        EntityKind::CompanyInfo => spec_has_read(e) && e.company_name is Some
            && e.company_addr is Some,
        EntityKind::CreditMemo => spec_has_read(e) && spec_can_create(e) && (e.email_status
            == Some(EmailStatus::NeedToSend) ==> e.bill_email is Some),
        EntityKind::Currency => spec_has_read(e) && spec_can_create(e),
        EntityKind::Customer => spec_has_read(e) && spec_can_create(e),
        EntityKind::Department => spec_has_read(e) && spec_can_create(e),
        EntityKind::Employee => spec_has_read(e),
        EntityKind::Estimate => spec_has_read(e) && spec_can_create(e) && (e.email_status
            == Some(EmailStatus::NeedToSend) ==> e.bill_email is Some),
        EntityKind::Invoice => spec_has_read(e) && spec_can_create(e),
        EntityKind::Item => spec_has_read(e) && e.name is Some,
        EntityKind::Payment => spec_has_read(e) && spec_can_create(e),
        EntityKind::PaymentMethod => spec_has_read(e) && spec_can_create(e),
        EntityKind::Preferences => spec_has_read(e),
        EntityKind::SalesReceipt => spec_has_read(e) && spec_can_create(e),
        EntityKind::TaxAgency => false,
        EntityKind::Term => spec_has_read(e) && spec_can_create(e),
        EntityKind::Vendor => spec_has_read(e) && spec_can_create(e),
    }
}

/// Whether the record can take a sparse (partial-field) update: a full
/// update must be possible and the sparse flag must be set to `true`.
pub open spec fn spec_can_sparse_update(e: &EntityRecord) -> bool {
    spec_can_full_update(e) && e.sparse == Some(true)
}

impl QBItem for EntityRecord {
    open spec fn spec_id(&self) -> Option<Seq<char>> {
        view_opt_str(self.id)
    }

    open spec fn spec_sync_token(&self) -> Option<Seq<char>> {
        view_opt_str(self.sync_token)
    }

    open spec fn spec_meta_data(&self) -> Option<MetaData> {
        self.meta_data
    }

    fn id(&self) -> (r: Option<&String>) {
        self.id.as_ref()
    }

    fn clone_id(&self) -> (r: Option<String>) {
        self.id.clone()
    }

    fn sync_token(&self) -> (r: Option<&String>) {
        self.sync_token.as_ref()
    }

    fn meta_data(&self) -> (r: Option<&MetaData>) {
        self.meta_data.as_ref()
    }
}

impl QBCreatable for EntityRecord {
    open spec fn spec_can_create(&self) -> bool {
        spec_can_create(self)
    }

    fn can_create(&self) -> (r: bool) {
        match self.kind {
            EntityKind::Account => self.name.is_some() && (self.account_type.is_some()
                || self.account_sub_type.is_some()),
            EntityKind::Attachable => self.file_name.is_some() || self.note.is_some(),
            EntityKind::Bill => self.target_ref.is_some() && self.line.can_create(),
            EntityKind::BillPayment => self.target_ref.is_some() && self.total_amt.is_some()
                && self.line.is_some() && match &self.pay_type {
                Some(PayType::CreditCard) => self.credit_card_payment.is_some(),
                Some(PayType::Check) => self.check_payment.is_some(),
                None => false,
            },
            EntityKind::Budget => true,
            EntityKind::Class => (name_is_visible(&self.name) && !(matches!(
                self.sub_entry,
                Some(true),
            ))) || self.parent_ref.is_some(),
            EntityKind::CompanyInfo => false,
            EntityKind::CreditMemo => self.target_ref.is_some() && self.line.can_create(),
            EntityKind::Currency => self.code.is_some(),
            EntityKind::Customer => self.display_name.is_some() || self.suffix.is_some()
                || self.title.is_some() || self.middle_name.is_some()
                || self.family_name.is_some() || self.given_name.is_some(),
            EntityKind::Department => self.name.is_some() && (!(matches!(
                self.sub_entry,
                Some(true),
            )) || self.parent_ref.is_some()),
            EntityKind::Employee => self.given_name.is_some() || self.family_name.is_some(),
            EntityKind::Estimate => self.target_ref.is_some() && self.line.can_create(),
            EntityKind::Invoice => self.target_ref.is_some() && self.line.can_create(),
            EntityKind::Item => self.name.is_some() && self.expense_account_ref.is_some()
                && match &self.item_type {
                Some(ItemType::Inventory) => self.income_account_ref.is_some()
                    && self.asset_account_ref.is_some() && self.inv_start_date.is_some()
                    && self.qty_on_hand.is_some(),
                Some(ItemType::Service) => self.income_account_ref.is_some(),
                Some(ItemType::NonInventory) => true,
                None => self.asset_account_ref.is_some(),
            },
            EntityKind::Payment => self.total_amt.is_some() && self.target_ref.is_some(),
            EntityKind::PaymentMethod => name_is_visible(&self.name),
            EntityKind::Preferences => false,
            EntityKind::SalesReceipt => self.target_ref.is_some() && self.line.can_create(),
            EntityKind::TaxAgency => name_is_visible(&self.display_name),
            EntityKind::Term => self.name.is_some() && (self.day_of_month_due.is_some()
                || self.due_days.is_some()),
            EntityKind::Vendor => self.display_name.is_some() || self.suffix.is_some()
                || self.title.is_some() || self.middle_name.is_some()
                || self.family_name.is_some() || self.given_name.is_some(),
        }
    }
}

/// Runtime check mirroring [`visible_name`].
fn name_is_visible(o: &Option<String>) -> (r: bool)
    ensures
        r == visible_name(o),
{
    match o {
        Some(n) => str_has_visible(n.as_str()),
        None => false,
    }
}

impl QBDeletable for EntityRecord {

}

impl QBVoidable for EntityRecord {

}

impl QBFullUpdatable for EntityRecord {
    open spec fn spec_can_full_update(&self) -> bool {
        spec_can_full_update(self)
    }

    fn can_full_update(&self) -> (r: bool) {
        match self.kind {
            EntityKind::Account => self.name.is_some() && self.has_read(),
            EntityKind::Attachable => self.has_read() && self.can_create(),
            EntityKind::Bill => self.has_read() && self.can_create(),
            EntityKind::BillPayment => self.can_create() && self.has_read(),
            EntityKind::Budget => self.has_read(),
            EntityKind::Class => self.has_read() && self.can_create(),
            EntityKind::CompanyInfo => self.has_read() && self.company_name.is_some()
                && self.company_addr.is_some(),
            EntityKind::CreditMemo => self.has_read() && self.can_create() && (!(matches!(
                self.email_status,
                Some(EmailStatus::NeedToSend),
            )) || self.bill_email.is_some()),
            EntityKind::Currency => self.has_read() && self.can_create(),
            EntityKind::Customer => self.has_read() && self.can_create(),
            EntityKind::Department => self.has_read() && self.can_create(),
            EntityKind::Employee => self.has_read(),
            EntityKind::Estimate => self.has_read() && self.can_create() && (!(matches!(
                self.email_status,
                Some(EmailStatus::NeedToSend),
            )) || self.bill_email.is_some()),
            EntityKind::Invoice => self.has_read() && self.can_create(),
            EntityKind::Item => self.has_read() && self.name.is_some(),
            EntityKind::Payment => self.has_read() && self.can_create(),
            EntityKind::PaymentMethod => self.has_read() && self.can_create(),
            EntityKind::Preferences => self.has_read(),
            EntityKind::SalesReceipt => self.has_read() && self.can_create(),
            EntityKind::TaxAgency => false,
            EntityKind::Term => self.has_read() && self.can_create(),
            EntityKind::Vendor => self.has_read() && self.can_create(),
        }
    }
}

impl QBSparseUpdateable for EntityRecord {
    open spec fn spec_can_sparse_update(&self) -> bool {
        spec_can_sparse_update(self)
    }

    fn can_sparse_update(&self) -> (r: bool) {
        self.can_full_update() && matches!(self.sparse, Some(true))
    }
}

impl QBToRef for EntityRecord {
    open spec fn spec_ref_type(&self) -> Seq<char> {
        spec_canonical_name(self.kind)
    }

    open spec fn spec_ref_name(&self) -> Option<Seq<char>> {
        match spec_naming_field(self.kind) {
            NamingField::DisplayName => view_opt_str(self.display_name),
            NamingField::Name => view_opt_str(self.name),
            NamingField::DocNumber => view_opt_str(self.doc_number),
            NamingField::FullyQualifiedName => view_opt_str(self.fully_qualified_name),
            NamingField::FileName => view_opt_str(self.file_name),
            NamingField::CompanyName => view_opt_str(self.company_name),
            NamingField::Unnamed => None,
        }
    }

    fn to_ref(&self) -> (r: Result<NtRef, QBTypeError>) {
        if self.id.is_some() {
            let name = match self.kind.naming_field() {
                NamingField::DisplayName => self.display_name.clone(),
                NamingField::Name => self.name.clone(),
                NamingField::DocNumber => self.doc_number.clone(),
                NamingField::FullyQualifiedName => self.fully_qualified_name.clone(),
                NamingField::FileName => self.file_name.clone(),
                NamingField::CompanyName => self.company_name.clone(),
                NamingField::Unnamed => None,
            };
            Ok(
                NtRef {
                    entity_ref_type: Some(self.kind.canonical_name().to_owned()),
                    name,
                    value: self.id.clone(),
                },
            )
        } else {
            Err(QBTypeError::QBToRefError)
        }
    }
}

/// Read-only navigation to an already-stored reference field, without
/// constructing a new reference.
pub trait LinkedTo {
    /// The stored reference this record points through.
    spec fn spec_linked(&self) -> Option<NtRef>;

    fn linked(&self) -> (r: Option<&NtRef>)
        ensures
            match r {
                Some(n) => self.spec_linked() == Some(*n),
                None => self.spec_linked() is None,
            },
    ;
}

impl LinkedTo for EntityRecord {
    /// The target (customer or vendor) reference, when one is stored.
    open spec fn spec_linked(&self) -> Option<NtRef> {
        self.target_ref
    }

    fn linked(&self) -> (r: Option<&NtRef>) {
        self.target_ref.as_ref()
    }
}

// ------------------------------------------------------------------
// Laws of the evaluator
// ------------------------------------------------------------------

/// A bare person or organization record with no name component set cannot
/// be created; setting any one of the display, given or family name makes
/// it creatable.
pub proof fn lemma_person_name_gates_create(e: &EntityRecord)
    requires
        e.kind == EntityKind::Customer || e.kind == EntityKind::Vendor,
    ensures
        (e.display_name is None && e.given_name is None && e.family_name is None
            && e.middle_name is None && e.title is None && e.suffix is None) ==> !spec_can_create(
            e,
        ),
        (e.display_name is Some || e.given_name is Some || e.family_name is Some)
            ==> spec_can_create(e),
{
}

/// A line-bearing document with no target reference cannot be created,
/// whatever its rows hold; with a target reference and at least one row
/// whose amount is set and whose detail is concrete, it can.
pub proof fn lemma_document_target_gates_create(e: &EntityRecord)
    requires
        e.kind == EntityKind::Bill || e.kind == EntityKind::CreditMemo || e.kind
            == EntityKind::Estimate || e.kind == EntityKind::Invoice || e.kind
            == EntityKind::SalesReceipt,
    ensures
        e.target_ref is None ==> !spec_can_create(e),
        (e.target_ref is Some && spec_lines_ready(opt_lines_view(&e.line))) ==> spec_can_create(
            e,
        ),
{
}

/// A sparse update is allowed exactly when a full update is allowed and
/// the sparse flag is set to `true`; with the flag unset or `false` it is
/// refused even where a full update would go through.
pub proof fn lemma_sparse_update_needs_flag(e: &EntityRecord)
    ensures
        spec_can_sparse_update(e) == (spec_can_full_update(e) && e.sparse == Some(true)),
        (spec_can_full_update(e) && e.sparse == Some(false)) ==> !spec_can_sparse_update(e),
{
}

} // verus!
