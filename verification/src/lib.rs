//! Structural validation for resources exchanged with a remote accounting
//! platform.
//!
//! The crate models three tightly coupled pieces:
//! * a polymorphic line-item codec (encode/decode of per-row detail payloads
//!   against a wire-object model),
//! * a capability evaluator: per-kind predicates that decide whether a record
//!   is eligible for a lifecycle operation (create, read, update, delete,
//!   void, send, produce a document),
//! * a reference resolver that turns a saved record into a lightweight
//!   cross-entity pointer.
//!
//! All predicates are pure functions over a record's current field values;
//! the crate performs no I/O and holds no session state.

use vstd::prelude::*;

mod attachable;
mod codec;
mod common;
mod entity;
mod error;
mod kind;
mod line;
mod report;
mod scalar;
mod schema;
mod text;
mod wire;

pub use common::Addr;
pub use common::CCPaymentStatus;
pub use common::CheckBillPayment;
pub use common::CreditCardBillPayment;
pub use common::CustomField;
pub use common::Email;
pub use common::EmailStatus;
pub use common::GlobalTaxCalculation;
pub use common::LinkedTxn;
pub use common::LinkedTxnView;
pub use common::MetaData;
pub use common::NtRef;
pub use common::NtRefView;
pub use common::PayType;
pub use common::PhoneNumber;
pub use common::PrintStatus;
pub use common::TaxExemptStatus;
pub use common::WebAddr;
pub use attachable::after_last;
pub use attachable::has_extension;
pub use attachable::content_type_from_ext;
pub use attachable::spec_content_type;
pub use attachable::AttachableBuilder;
pub use attachable::AttachableRef;
pub use attachable::AttachmentCategory;
pub use attachable::QBAttachable;
pub use attachable::QBToAttachableRef;
pub use codec::check_encodable;
pub use codec::decode_line;
pub use codec::detail_encodable;
pub use codec::detail_name;
pub use codec::detail_wf;
pub use codec::encode_line;
pub use codec::lemma_detail_type_emitted;
pub use codec::lemma_line_roundtrip;
pub use codec::line_encodable;
pub use codec::line_wf;
pub use codec::spec_dec_line;
pub use codec::spec_enc_line;
pub use codec::DecodeError;
pub use codec::EncodeError;
pub use entity::spec_can_create;
pub use entity::spec_can_full_update;
pub use entity::spec_can_sparse_update;
pub use entity::spec_has_read;
pub use entity::spec_lines_ready;
pub use entity::EntityRecord;
pub use entity::LinkedTo;
pub use error::QBTypeError;
pub use kind::EntityKind;
pub use kind::KindDescriptor;
pub use kind::NamingField;
pub use line::AccountBasedExpenseLineDetail;
pub use line::BillableStatus;
pub use line::DescriptionLineDetail;
pub use line::DiscountLineDetail;
pub use line::GroupLineDetail;
pub use line::ItemBasedExpenseLineDetail;
pub use line::Line;
pub use line::LineDetail;
pub use line::LineField;
pub use line::SalesItemLineDetail;
pub use line::SubTotalLineDetail;
pub use line::TaxLineDetail;
pub use line::TaxableLine;
pub use report::collect_from_row;
pub use report::collect_leaf_rows;
pub use report::flatten_columns;
pub use report::Attribute;
pub use report::Attributes;
pub use report::ColData;
pub use report::ColDataCollection;
pub use report::Column;
pub use report::ColumnTypeEnum;
pub use report::Columns;
pub use report::NameValue;
pub use report::QBPolarsError;
pub use report::Report;
pub use report::ReportBasisEnum;
pub use report::ReportHeader;
pub use report::Row;
pub use report::RowContent;
pub use report::RowTypeEnum;
pub use report::Rows;
pub use schema::AccountType;
pub use schema::BudgetEntryType;
pub use schema::BudgetType;
pub use schema::ContactInfo;
pub use schema::EmailMessagePrefs;
pub use schema::EmailMessageType;
pub use schema::IntervalType;
pub use schema::ItemType;
pub use schema::PaymentMethodType;
pub use schema::ProductAndServicesPrefs;
pub use schema::RecurType;
pub use schema::ReportPrefs;
pub use schema::TaxAgencyConfig;
pub use schema::TaxCodeConfigType;
pub use schema::TaxPrefs;
pub use schema::TaxRateDetail;
pub use schema::TaxTypeApplicable;
pub use schema::TermType;
pub use schema::TimeTrackingPrefs;
pub use schema::VendorPaymentBankDetail;
pub use scalar::Date;
pub use scalar::Decimal;
pub use scalar::Timestamp;
pub use wire::WireField;
pub use wire::WireFieldView;
pub use wire::WireValue;
pub use wire::WireValueView;

verus! {

/// Core interface of every resource: access to the common id, concurrency
/// stamp and metadata fields.
pub trait QBItem {
    /// The id, as an abstract optional character sequence.
    spec fn spec_id(&self) -> Option<Seq<char>>;

    /// The concurrency stamp, likewise.
    spec fn spec_sync_token(&self) -> Option<Seq<char>>;

    fn id(&self) -> (r: Option<&String>)
        ensures
            r.deep_view() == self.spec_id(),
    ;

    fn clone_id(&self) -> (r: Option<String>)
        ensures
            r.deep_view() == self.spec_id(),
    ;

    fn sync_token(&self) -> (r: Option<&String>)
        ensures
            r.deep_view() == self.spec_sync_token(),
    ;

    /// The creation and last-update stamps, when the platform attached
    /// them.
    spec fn spec_meta_data(&self) -> Option<MetaData>;

    fn meta_data(&self) -> (r: Option<&MetaData>)
        ensures
            match r {
                Some(m) => self.spec_meta_data() == Some(*m),
                None => self.spec_meta_data() is None,
            },
    ;

    /// Base readiness check for any mutation: the record was read back from
    /// the platform, so it carries an id and a concurrency stamp.
    fn has_read(&self) -> (r: bool)
        ensures
            r == (self.spec_id() is Some && self.spec_sync_token() is Some),
    {
        self.id().is_some() && self.sync_token().is_some()
    }
}

/// Eligibility for creation: the record holds every field the platform
/// requires of a new instance of its kind.
pub trait QBCreatable {
    spec fn spec_can_create(&self) -> bool;

    fn can_create(&self) -> (r: bool)
        ensures
            r == self.spec_can_create(),
    ;
}

/// Eligibility for a read by id: only the id is needed.
pub trait QBReadable: QBItem {
    open spec fn spec_can_read(&self) -> bool {
        self.spec_id() is Some
    }

    fn can_read(&self) -> (r: bool)
        ensures
            r == self.spec_can_read(),
    ;
}

impl<T: QBItem> QBReadable for T {
    fn can_read(&self) -> (r: bool) {
        self.id().is_some()
    }
}

/// Support for query operations; carries no extra precondition.
pub trait QBQueryable: QBItem {

}

impl<T: QBItem> QBQueryable for T {

}

/// Eligibility for deletion: the record must have been read back.  Whether a
/// kind supports deletion at all is a membership question answered by the
/// kind's descriptor, not by this predicate.
pub trait QBDeletable: QBItem {
    fn can_delete(&self) -> (r: bool)
        ensures
            r == (self.spec_id() is Some && self.spec_sync_token() is Some),
    {
        self.has_read()
    }
}

/// Eligibility for voiding, under the same reading as deletion.
pub trait QBVoidable: QBItem {
    fn can_void(&self) -> (r: bool)
        ensures
            r == (self.spec_id() is Some && self.spec_sync_token() is Some),
    {
        self.has_read()
    }
}

/// Eligibility for a full update, replacing every field.
pub trait QBFullUpdatable {
    spec fn spec_can_full_update(&self) -> bool;

    fn can_full_update(&self) -> (r: bool)
        ensures
            r == self.spec_can_full_update(),
    ;
}

/// Eligibility for a sparse (partial-field) update: a full update must be
/// possible and the record's sparse flag must be set.
pub trait QBSparseUpdateable {
    spec fn spec_can_sparse_update(&self) -> bool;

    fn can_sparse_update(&self) -> (r: bool)
        ensures
            r == self.spec_can_sparse_update(),
    ;
}

/// Marker: the kind supports sending by email.
pub trait QBSendable {

}

/// Marker: the kind supports rendering as a document.
pub trait QBPDFable {

}

/// Conversion of a saved record into a reference for embedding in other
/// records.
pub trait QBToRef: QBItem {
    /// The kind name carried in the reference's type field.
    spec fn spec_ref_type(&self) -> Seq<char>;

    /// The naming field used for the reference's display name.
    spec fn spec_ref_name(&self) -> Option<Seq<char>>;

    /// Succeeds exactly when the record has an id; a reference to an
    /// unsaved record is meaningless.
    fn to_ref(&self) -> (r: Result<NtRef, QBTypeError>)
        ensures
            r is Ok <==> self.spec_id() is Some,
            r matches Ok(nt) ==> nt@.entity_ref_type == Some(self.spec_ref_type())
                && nt@.name == self.spec_ref_name() && nt@.value == self.spec_id(),
            r matches Err(e) ==> e == QBTypeError::QBToRefError,
    ;
}

} // verus!
