//! The line-item codec.
//!
//! Encoding a row emits its active detail payload under a field key equal to
//! the payload's canonical name, together with a sibling `DetailType` field
//! whose string value is that same name (the platform's write contract
//! requires the explicit tag even though the payload key already identifies
//! the shape).  Encoding the `Empty` sentinel is rejected.
//!
//! Decoding ignores `DetailType` and dispatches on which single known
//! payload key is present.  Two or more known keys are ambiguous and fail;
//! none at all leaves the row with the `Empty` sentinel, which tolerates
//! partially populated summary rows as well as rows tagged with a detail
//! kind this crate does not know.  Optional fields are omitted when absent
//! and never emitted as null; absent non-optional fields decode to their
//! neutral defaults.  Timestamps carry whole seconds with a UTC offset; a
//! fractional-seconds part on the wire is accepted and discarded.

use vstd::prelude::*;

use crate::common::NtRefView;
use crate::line::AccountBasedExpenseLineDetailView;
use crate::line::BillableStatus;
use crate::line::DescriptionLineDetailView;
use crate::line::DiscountLineDetailView;
use crate::line::GroupLineDetailView;
use crate::line::ItemBasedExpenseLineDetailView;
use crate::line::LineDetailView;
use crate::line::LineView;
use crate::line::SalesItemLineDetailView;
use crate::line::SubTotalLineDetailView;
use crate::line::TaxLineDetailView;
use crate::common::LinkedTxnView;
use crate::scalar::Date;
use crate::scalar::Decimal;
use crate::scalar::Timestamp;
use crate::text::date_chars;
use crate::text::spec_parse_date;
use crate::text::spec_parse_timestamp;
use crate::text::timestamp_chars;
use crate::common::view_opt_str;
use crate::common::NtRef;
use crate::line::view_opt_ref;
use crate::line::AccountBasedExpenseLineDetail;
use crate::line::DescriptionLineDetail;
use crate::line::DiscountLineDetail;
use crate::line::GroupLineDetail;
use crate::line::ItemBasedExpenseLineDetail;
use crate::line::Line;
use crate::line::LineDetail;
use crate::line::SalesItemLineDetail;
use crate::line::SubTotalLineDetail;
use crate::line::TaxLineDetail;
use crate::line::view_lines;
use crate::line::view_txns;
use crate::common::LinkedTxn;
use crate::text::date_to_string;
use crate::text::parse_date;
use crate::text::parse_timestamp;
use crate::text::timestamp_to_string;
use crate::wire::lemma_sobj_get_concat;
use crate::wire::obj_get;
use crate::wire::str_eq;
use crate::wire::sobj_get;
use crate::wire::view_fields;
use crate::wire::view_values;
use crate::wire::WireField;
use crate::wire::WireValue;
use crate::wire::WireFieldView;
use crate::wire::WireValueView;

verus! {

/// Why a wire payload could not be decoded.
#[derive(Clone, Copy, Debug, PartialEq, Eq, Structural)]
pub enum DecodeError {
    /// The wire value for a row was not an object.
    NotAnObject,
    /// Two or more known detail payload keys were present at once.
    AmbiguousDetail,
    /// A field was present with the wrong shape for its meaning.
    FieldShape,
}

/// Why a row could not be encoded.
#[derive(Clone, Copy, Debug, PartialEq, Eq, Structural)]
pub enum EncodeError {
    /// The row (or a row nested in a group detail) still carries the
    /// `Empty` sentinel instead of a concrete detail payload.
    EmptyDetail,
    /// A date or timestamp field is outside calendar range and cannot be
    /// rendered.
    InvalidDate,
}

// ------------------------------------------------------------------
// Spec-level encoding
// ------------------------------------------------------------------

/// A single keyed field.
pub open spec fn fld(k: Seq<char>, v: WireValueView) -> Seq<WireFieldView> {
    seq![WireFieldView { key: k, value: v }]
}

/// An optional fixed-point field: omitted when absent.
pub open spec fn opt_num_fld(k: Seq<char>, o: Option<Decimal>) -> Seq<WireFieldView> {
    match o {
        Some(d) => fld(k, WireValueView::Num(d)),
        None => Seq::empty(),
    }
}

/// An optional string field: omitted when absent.
pub open spec fn opt_str_fld(k: Seq<char>, o: Option<Seq<char>>) -> Seq<WireFieldView> {
    match o {
        Some(s) => fld(k, WireValueView::Str(s)),
        None => Seq::empty(),
    }
}

/// An optional boolean field: omitted when absent.
pub open spec fn opt_bool_fld(k: Seq<char>, o: Option<bool>) -> Seq<WireFieldView> {
    match o {
        Some(b) => fld(k, WireValueView::Bool(b)),
        None => Seq::empty(),
    }
}

/// An optional date field, rendered as `YYYY-MM-DD`: omitted when absent.
pub open spec fn opt_date_fld(k: Seq<char>, o: Option<Date>) -> Seq<WireFieldView> {
    match o {
        Some(d) => fld(k, WireValueView::Str(date_chars(d))),
        None => Seq::empty(),
    }
}

/// The encoded fields of a reference.
pub open spec fn enc_ref(r: NtRefView) -> Seq<WireFieldView> {
    opt_str_fld(("type")@, r.entity_ref_type) + opt_str_fld(("name")@, r.name) + opt_str_fld(
        ("value")@,
        r.value,
    )
}

/// An optional reference field: omitted when absent.
pub open spec fn opt_ref_fld(k: Seq<char>, o: Option<NtRefView>) -> Seq<WireFieldView> {
    match o {
        Some(r) => fld(k, WireValueView::Obj(enc_ref(r))),
        None => Seq::empty(),
    }
}

/// A required reference field, always emitted.
pub open spec fn req_ref_fld(k: Seq<char>, r: NtRefView) -> Seq<WireFieldView> {
    fld(k, WireValueView::Obj(enc_ref(r)))
}

/// The wire string of a billable status.
pub open spec fn billable_chars(b: BillableStatus) -> Seq<char> {
    match b {
        BillableStatus::Billable => ("Billable")@,
        BillableStatus::NotBillable => ("NotBillable")@,
        BillableStatus::HasBeenBilled => ("HasBeenBilled")@,
    }
}

/// The encoded fields of a sold-item detail.
pub open spec fn enc_sales(d: SalesItemLineDetailView) -> Seq<WireFieldView> {
    opt_num_fld(("TaxInclusiveAmt")@, d.tax_inclusive_amt) + opt_num_fld(
        ("DiscountAmt")@,
        d.discount_amt,
    ) + opt_ref_fld(("ItemRef")@, d.item_ref) + opt_ref_fld(("ClassRef")@, d.class_ref)
        + opt_ref_fld(("TaxCodeRef")@, d.tax_code_ref) + opt_date_fld(
        ("ServiceDate")@,
        d.service_date,
    ) + opt_num_fld(("DiscountRate")@, d.discount_rate) + opt_num_fld(("Qty")@, d.qty)
        + opt_num_fld(("UnitPrice")@, d.unit_price) + opt_ref_fld(
        ("TaxClassificationRef")@,
        d.tax_classification_ref,
    )
}

/// The encoded fields of a description-only detail.
pub open spec fn enc_description(d: DescriptionLineDetailView) -> Seq<WireFieldView> {
    req_ref_fld(("TaxCodeRef")@, d.tax_code_ref) + fld(
        ("ServiceDate")@,
        WireValueView::Str(timestamp_chars(d.service_date)),
    )
}

/// The encoded fields of a discount detail.
pub open spec fn enc_discount(d: DiscountLineDetailView) -> Seq<WireFieldView> {
    req_ref_fld(("ClassRef")@, d.class_ref) + req_ref_fld(("TaxCodeRef")@, d.tax_code_ref)
        + req_ref_fld(("DiscountAccountRef")@, d.discount_account_ref) + fld(
        ("PercentBased")@,
        WireValueView::Bool(d.percent_based),
    ) + opt_num_fld(("DiscountPercent")@, d.discount_percent)
}

/// The encoded fields of a subtotal detail.
pub open spec fn enc_subtotal(d: SubTotalLineDetailView) -> Seq<WireFieldView> {
    req_ref_fld(("ItemRef")@, d.item_ref)
}

/// The encoded fields of an item-based expense detail.
pub open spec fn enc_item_expense(d: ItemBasedExpenseLineDetailView) -> Seq<WireFieldView> {
    fld(("TaxInclusiveAmt")@, WireValueView::Num(d.tax_inclusive_amt)) + req_ref_fld(
        ("ItemRef")@,
        d.item_ref,
    ) + req_ref_fld(("CustomerRef")@, d.customer_ref) + req_ref_fld(
        ("PriceLevelRef")@,
        d.price_level_ref,
    ) + req_ref_fld(("ClassRef")@, d.class_ref) + req_ref_fld(("TaxCodeRef")@, d.tax_code_ref)
        + fld(("BillableStatus")@, WireValueView::Str(billable_chars(d.billable_status))) + fld(
        ("Qty")@,
        WireValueView::Num(d.qty),
    ) + fld(("UnitPrice")@, WireValueView::Num(d.unit_price))
}

/// The encoded fields of an account-based expense detail.
pub open spec fn enc_account_expense(d: AccountBasedExpenseLineDetailView) -> Seq<WireFieldView> {
    req_ref_fld(("AccountRef")@, d.account_ref) + req_ref_fld(("TaxCodeRef")@, d.tax_code_ref)
        + fld(("TaxAmount")@, WireValueView::Num(d.tax_amount)) + fld(
        ("TaxInclusiveAmt")@,
        WireValueView::Num(d.tax_inclusive_amt),
    ) + req_ref_fld(("ClassRef")@, d.class_ref) + req_ref_fld(("CustomerRef")@, d.customer_ref)
        + fld(("BillableStatus")@, WireValueView::Str(billable_chars(d.billable_status)))
}

/// The encoded fields of a tax detail.
pub open spec fn enc_tax(d: TaxLineDetailView) -> Seq<WireFieldView> {
    opt_ref_fld(("TaxRateRef")@, d.tax_rate_ref) + opt_num_fld(
        ("NetAmountTaxable")@,
        d.net_amount_taxable,
    ) + opt_bool_fld(("PercentBased")@, d.percent_based) + opt_num_fld(
        ("TaxInclusiveAmount")@,
        d.tax_inclusive_amount,
    ) + opt_num_fld(("OverrideDeltaAmount")@, d.override_delta_amount) + opt_num_fld(
        ("TaxPercent")@,
        d.tax_percent,
    )
}

/// The encoded wire values of a row list.
pub open spec fn enc_lines(ls: Seq<LineView>) -> Seq<WireValueView>
    decreases ls,
{
    Seq::new(
        ls.len(),
        |i: int|
            if 0 <= i < ls.len() {
                spec_enc_line(ls[i])
            } else {
                WireValueView::Null
            },
    )
}

/// The encoded wire values of a linked-transaction list.
pub open spec fn enc_txns(ts: Seq<LinkedTxnView>) -> Seq<WireValueView> {
    Seq::new(
        ts.len(),
        |i: int|
            if 0 <= i < ts.len() {
                WireValueView::Obj(enc_txn(ts[i]))
            } else {
                WireValueView::Null
            },
    )
}

/// The canonical name of a detail payload; the `Empty` sentinel has none
/// and yields the empty sequence.
pub open spec fn detail_name(d: LineDetailView) -> Seq<char> {
    match d {
        LineDetailView::SalesItemLineDetail(_) => ("SalesItemLineDetail")@,
        LineDetailView::GroupLineDetail(_) => ("GroupLineDetail")@,
        LineDetailView::DescriptionLineDetail(_) => ("DescriptionLineDetail")@,
        LineDetailView::DiscountLineDetail(_) => ("DiscountLineDetail")@,
        LineDetailView::SubTotalLineDetail(_) => ("SubTotalLineDetail")@,
        LineDetailView::ItemBasedExpenseLineDetail(_) => ("ItemBasedExpenseLineDetail")@,
        LineDetailView::AccountBasedExpenseLineDetail(_) => ("AccountBasedExpenseLineDetail")@,
        LineDetailView::TaxLineDetail(_) => ("TaxLineDetail")@,
        LineDetailView::Empty => Seq::empty(),
    }
}

/// Whether a detail payload is concrete (non-`Empty`), recursively through
/// the rows bundled in a group detail.
pub open spec fn detail_encodable(d: LineDetailView) -> bool
    decreases d,
{
    match d {
        LineDetailView::Empty => false,
        LineDetailView::GroupLineDetail(g) => forall|i: int|
            0 <= i < g.line.len() ==> line_encodable(#[trigger] g.line[i]),
        _ => true,
    }
}

/// Whether a row, recursively through group details, carries a concrete
/// detail payload everywhere and so can be encoded.
pub open spec fn line_encodable(l: LineView) -> bool
    decreases l,
{
    detail_encodable(l.line_detail)
}

/// The encoded fields of a detail payload: the payload under its canonical
/// name, then the redundant `DetailType` tag.  The `Empty` sentinel encodes
/// to no fields; [`spec_enc_line`] is only meaningful for encodable rows.
pub open spec fn enc_detail(d: LineDetailView) -> Seq<WireFieldView>
    decreases d,
{
    match d {
        LineDetailView::SalesItemLineDetail(p) => fld(
            ("SalesItemLineDetail")@,
            WireValueView::Obj(enc_sales(p)),
        ) + fld(("DetailType")@, WireValueView::Str(("SalesItemLineDetail")@)),
        LineDetailView::GroupLineDetail(g) => fld(
            ("GroupLineDetail")@,
            WireValueView::Obj(
                fld(("Quantity")@, WireValueView::Num(g.quantity)) + fld(
                    ("Line")@,
                    WireValueView::Arr(enc_lines(g.line)),
                ) + req_ref_fld(("GroupItemRef")@, g.group_item_ref),
            ),
        ) + fld(("DetailType")@, WireValueView::Str(("GroupLineDetail")@)),
        LineDetailView::DescriptionLineDetail(p) => fld(
            ("DescriptionLineDetail")@,
            WireValueView::Obj(enc_description(p)),
        ) + fld(("DetailType")@, WireValueView::Str(("DescriptionLineDetail")@)),
        LineDetailView::DiscountLineDetail(p) => fld(
            ("DiscountLineDetail")@,
            WireValueView::Obj(enc_discount(p)),
        ) + fld(("DetailType")@, WireValueView::Str(("DiscountLineDetail")@)),
        LineDetailView::SubTotalLineDetail(p) => fld(
            ("SubTotalLineDetail")@,
            WireValueView::Obj(enc_subtotal(p)),
        ) + fld(("DetailType")@, WireValueView::Str(("SubTotalLineDetail")@)),
        LineDetailView::ItemBasedExpenseLineDetail(p) => fld(
            ("ItemBasedExpenseLineDetail")@,
            WireValueView::Obj(enc_item_expense(p)),
        ) + fld(("DetailType")@, WireValueView::Str(("ItemBasedExpenseLineDetail")@)),
        LineDetailView::AccountBasedExpenseLineDetail(p) => fld(
            ("AccountBasedExpenseLineDetail")@,
            WireValueView::Obj(enc_account_expense(p)),
        ) + fld(("DetailType")@, WireValueView::Str(("AccountBasedExpenseLineDetail")@)),
        LineDetailView::TaxLineDetail(p) => fld(
            ("TaxLineDetail")@,
            WireValueView::Obj(enc_tax(p)),
        ) + fld(("DetailType")@, WireValueView::Str(("TaxLineDetail")@)),
        LineDetailView::Empty => Seq::empty(),
    }
}

/// The encoded fields of a linked transaction.
pub open spec fn enc_txn(t: LinkedTxnView) -> Seq<WireFieldView> {
    opt_str_fld(("TxnId")@, t.txn_id) + opt_str_fld(("TxnType")@, t.txn_type)
}

/// An optional linked-transaction list field: omitted when absent.
pub open spec fn opt_txns_fld(k: Seq<char>, o: Option<Seq<LinkedTxnView>>) -> Seq<WireFieldView> {
    match o {
        Some(ts) => fld(k, WireValueView::Arr(enc_txns(ts))),
        None => Seq::empty(),
    }
}

/// The encoded wire object of a row: its detail payload and tag first, then
/// the row's own fields, each omitted when absent.
pub open spec fn spec_enc_line(l: LineView) -> WireValueView
    decreases l,
{
    WireValueView::Obj(
        enc_detail(l.line_detail) + opt_num_fld(("Amount")@, l.amount) + opt_str_fld(
            ("Description")@,
            l.description,
        ) + opt_str_fld(("Id")@, l.id) + opt_txns_fld(("LinkedTxn")@, l.linked_txn),
    )
}

// ------------------------------------------------------------------
// Spec-level decoding
// ------------------------------------------------------------------

/// An optional fixed-point field: absent is `None`, any non-number shape
/// fails.
pub open spec fn dec_num_opt(o: Seq<WireFieldView>, k: Seq<char>) -> Result<
    Option<Decimal>,
    DecodeError,
> {
    match sobj_get(o, k) {
        None => Ok(None),
        Some(WireValueView::Num(d)) => Ok(Some(d)),
        Some(_) => Err(DecodeError::FieldShape),
    }
}

/// An optional string field.
pub open spec fn dec_str_opt(o: Seq<WireFieldView>, k: Seq<char>) -> Result<
    Option<Seq<char>>,
    DecodeError,
> {
    match sobj_get(o, k) {
        None => Ok(None),
        Some(WireValueView::Str(s)) => Ok(Some(s)),
        Some(_) => Err(DecodeError::FieldShape),
    }
}

/// An optional boolean field.
pub open spec fn dec_bool_opt(o: Seq<WireFieldView>, k: Seq<char>) -> Result<
    Option<bool>,
    DecodeError,
> {
    match sobj_get(o, k) {
        None => Ok(None),
        Some(WireValueView::Bool(b)) => Ok(Some(b)),
        Some(_) => Err(DecodeError::FieldShape),
    }
}

/// An optional date field, parsed from `YYYY-MM-DD`.
pub open spec fn dec_date_opt(o: Seq<WireFieldView>, k: Seq<char>) -> Result<
    Option<Date>,
    DecodeError,
> {
    match sobj_get(o, k) {
        None => Ok(None),
        Some(WireValueView::Str(s)) => match spec_parse_date(s) {
            Some(d) => Ok(Some(d)),
            None => Err(DecodeError::FieldShape),
        },
        Some(_) => Err(DecodeError::FieldShape),
    }
}

/// A required fixed-point field: absent decodes to zero.
pub open spec fn dec_num_req(o: Seq<WireFieldView>, k: Seq<char>) -> Result<
    Decimal,
    DecodeError,
> {
    match sobj_get(o, k) {
        None => Ok(Decimal { hundredths: 0 }),
        Some(WireValueView::Num(d)) => Ok(d),
        Some(_) => Err(DecodeError::FieldShape),
    }
}

/// A required boolean field: absent decodes to `false`.
pub open spec fn dec_bool_req(o: Seq<WireFieldView>, k: Seq<char>) -> Result<bool, DecodeError> {
    match sobj_get(o, k) {
        None => Ok(false),
        Some(WireValueView::Bool(b)) => Ok(b),
        Some(_) => Err(DecodeError::FieldShape),
    }
}

/// The neutral timestamp an absent required timestamp field decodes to.
pub open spec fn epoch_timestamp() -> Timestamp {
    Timestamp {
        date: Date { year: 1970, month: 1, day: 1 },
        hour: 0,
        minute: 0,
        second: 0,
        offset_minutes: 0,
    }
}

/// A required timestamp field: absent decodes to the epoch.
pub open spec fn dec_ts_req(o: Seq<WireFieldView>, k: Seq<char>) -> Result<
    Timestamp,
    DecodeError,
> {
    match sobj_get(o, k) {
        None => Ok(epoch_timestamp()),
        Some(WireValueView::Str(s)) => match spec_parse_timestamp(s) {
            Some(t) => Ok(t),
            None => Err(DecodeError::FieldShape),
        },
        Some(_) => Err(DecodeError::FieldShape),
    }
}

/// A required billable status: absent decodes to `Billable`.
pub open spec fn dec_billable_req(o: Seq<WireFieldView>, k: Seq<char>) -> Result<
    BillableStatus,
    DecodeError,
> {
    match sobj_get(o, k) {
        None => Ok(BillableStatus::Billable),
        Some(WireValueView::Str(s)) => if s == ("Billable")@ {
            Ok(BillableStatus::Billable)
        } else if s == ("NotBillable")@ {
            Ok(BillableStatus::NotBillable)
        } else if s == ("HasBeenBilled")@ {
            Ok(BillableStatus::HasBeenBilled)
        } else {
            Err(DecodeError::FieldShape)
        },
        Some(_) => Err(DecodeError::FieldShape),
    }
}

/// The reference a reference object's fields denote.  The display-name and
/// id fields accept a legacy capitalized alias beside the canonical
/// lowercase key, preferring the canonical one.
pub open spec fn dec_ref_fields(ro: Seq<WireFieldView>) -> Result<NtRefView, DecodeError> {
    let t = dec_str_opt(ro, ("type")@);
    let n = if sobj_get(ro, ("name")@) is Some {
        dec_str_opt(ro, ("name")@)
    } else {
        dec_str_opt(ro, ("Name")@)
    };
    let v = if sobj_get(ro, ("value")@) is Some {
        dec_str_opt(ro, ("value")@)
    } else {
        dec_str_opt(ro, ("Value")@)
    };
    if t is Err || n is Err || v is Err {
        Err(DecodeError::FieldShape)
    } else {
        Ok(NtRefView { entity_ref_type: t->Ok_0, name: n->Ok_0, value: v->Ok_0 })
    }
}

/// An optional reference field.
pub open spec fn dec_ref_opt(o: Seq<WireFieldView>, k: Seq<char>) -> Result<
    Option<NtRefView>,
    DecodeError,
> {
    match sobj_get(o, k) {
        None => Ok(None),
        Some(WireValueView::Obj(ro)) => match dec_ref_fields(ro) {
            Ok(r) => Ok(Some(r)),
            Err(e) => Err(e),
        },
        Some(_) => Err(DecodeError::FieldShape),
    }
}

/// A required reference field: absent decodes to the bare reference.
pub open spec fn dec_ref_req(o: Seq<WireFieldView>, k: Seq<char>) -> Result<
    NtRefView,
    DecodeError,
> {
    match sobj_get(o, k) {
        None => Ok(NtRefView { entity_ref_type: None, name: None, value: None }),
        Some(WireValueView::Obj(ro)) => dec_ref_fields(ro),
        Some(_) => Err(DecodeError::FieldShape),
    }
}

/// The sold-item detail a payload object denotes.
pub open spec fn dec_sales(po: Seq<WireFieldView>) -> Result<
    SalesItemLineDetailView,
    DecodeError,
> {
    if dec_num_opt(po, ("TaxInclusiveAmt")@) is Err || dec_num_opt(po, ("DiscountAmt")@) is Err
        || dec_ref_opt(po, ("ItemRef")@) is Err || dec_ref_opt(po, ("ClassRef")@) is Err
        || dec_ref_opt(po, ("TaxCodeRef")@) is Err || dec_date_opt(po, ("ServiceDate")@) is Err
        || dec_num_opt(po, ("DiscountRate")@) is Err || dec_num_opt(po, ("Qty")@) is Err
        || dec_num_opt(po, ("UnitPrice")@) is Err || dec_ref_opt(
        po,
        ("TaxClassificationRef")@,
    ) is Err {
        Err(DecodeError::FieldShape)
    } else {
        Ok(
            SalesItemLineDetailView {
                tax_inclusive_amt: dec_num_opt(po, ("TaxInclusiveAmt")@)->Ok_0,
                discount_amt: dec_num_opt(po, ("DiscountAmt")@)->Ok_0,
                item_ref: dec_ref_opt(po, ("ItemRef")@)->Ok_0,
                class_ref: dec_ref_opt(po, ("ClassRef")@)->Ok_0,
                tax_code_ref: dec_ref_opt(po, ("TaxCodeRef")@)->Ok_0,
                service_date: dec_date_opt(po, ("ServiceDate")@)->Ok_0,
                discount_rate: dec_num_opt(po, ("DiscountRate")@)->Ok_0,
                qty: dec_num_opt(po, ("Qty")@)->Ok_0,
                unit_price: dec_num_opt(po, ("UnitPrice")@)->Ok_0,
                tax_classification_ref: dec_ref_opt(po, ("TaxClassificationRef")@)->Ok_0,
            },
        )
    }
}

/// The description-only detail a payload object denotes.
pub open spec fn dec_description(po: Seq<WireFieldView>) -> Result<
    DescriptionLineDetailView,
    DecodeError,
> {
    if dec_ref_req(po, ("TaxCodeRef")@) is Err || dec_ts_req(po, ("ServiceDate")@) is Err {
        Err(DecodeError::FieldShape)
    } else {
        Ok(
            DescriptionLineDetailView {
                tax_code_ref: dec_ref_req(po, ("TaxCodeRef")@)->Ok_0,
                service_date: dec_ts_req(po, ("ServiceDate")@)->Ok_0,
            },
        )
    }
}

/// The discount detail a payload object denotes.
pub open spec fn dec_discount(po: Seq<WireFieldView>) -> Result<
    DiscountLineDetailView,
    DecodeError,
> {
    if dec_ref_req(po, ("ClassRef")@) is Err || dec_ref_req(po, ("TaxCodeRef")@) is Err
        || dec_ref_req(po, ("DiscountAccountRef")@) is Err || dec_bool_req(
        po,
        ("PercentBased")@,
    ) is Err || dec_num_opt(po, ("DiscountPercent")@) is Err {
        Err(DecodeError::FieldShape)
    } else {
        Ok(
            DiscountLineDetailView {
                class_ref: dec_ref_req(po, ("ClassRef")@)->Ok_0,
                tax_code_ref: dec_ref_req(po, ("TaxCodeRef")@)->Ok_0,
                discount_account_ref: dec_ref_req(po, ("DiscountAccountRef")@)->Ok_0,
                percent_based: dec_bool_req(po, ("PercentBased")@)->Ok_0,
                discount_percent: dec_num_opt(po, ("DiscountPercent")@)->Ok_0,
            },
        )
    }
}

/// The subtotal detail a payload object denotes.
pub open spec fn dec_subtotal(po: Seq<WireFieldView>) -> Result<
    SubTotalLineDetailView,
    DecodeError,
> {
    match dec_ref_req(po, ("ItemRef")@) {
        Ok(r) => Ok(SubTotalLineDetailView { item_ref: r }),
        Err(e) => Err(e),
    }
}

/// The item-based expense detail a payload object denotes.
pub open spec fn dec_item_expense(po: Seq<WireFieldView>) -> Result<
    ItemBasedExpenseLineDetailView,
    DecodeError,
> {
    if dec_num_req(po, ("TaxInclusiveAmt")@) is Err || dec_ref_req(po, ("ItemRef")@) is Err
        || dec_ref_req(po, ("CustomerRef")@) is Err || dec_ref_req(po, ("PriceLevelRef")@) is Err
        || dec_ref_req(po, ("ClassRef")@) is Err || dec_ref_req(po, ("TaxCodeRef")@) is Err
        || dec_billable_req(po, ("BillableStatus")@) is Err || dec_num_req(po, ("Qty")@) is Err
        || dec_num_req(po, ("UnitPrice")@) is Err {
        Err(DecodeError::FieldShape)
    } else {
        Ok(
            ItemBasedExpenseLineDetailView {
                tax_inclusive_amt: dec_num_req(po, ("TaxInclusiveAmt")@)->Ok_0,
                item_ref: dec_ref_req(po, ("ItemRef")@)->Ok_0,
                customer_ref: dec_ref_req(po, ("CustomerRef")@)->Ok_0,
                price_level_ref: dec_ref_req(po, ("PriceLevelRef")@)->Ok_0,
                class_ref: dec_ref_req(po, ("ClassRef")@)->Ok_0,
                tax_code_ref: dec_ref_req(po, ("TaxCodeRef")@)->Ok_0,
                billable_status: dec_billable_req(po, ("BillableStatus")@)->Ok_0,
                qty: dec_num_req(po, ("Qty")@)->Ok_0,
                unit_price: dec_num_req(po, ("UnitPrice")@)->Ok_0,
            },
        )
    }
}

/// The account-based expense detail a payload object denotes.
pub open spec fn dec_account_expense(po: Seq<WireFieldView>) -> Result<
    AccountBasedExpenseLineDetailView,
    DecodeError,
> {
    if dec_ref_req(po, ("AccountRef")@) is Err || dec_ref_req(po, ("TaxCodeRef")@) is Err
        || dec_num_req(po, ("TaxAmount")@) is Err || dec_num_req(po, ("TaxInclusiveAmt")@) is Err
        || dec_ref_req(po, ("ClassRef")@) is Err || dec_ref_req(po, ("CustomerRef")@) is Err
        || dec_billable_req(po, ("BillableStatus")@) is Err {
        Err(DecodeError::FieldShape)
    } else {
        Ok(
            AccountBasedExpenseLineDetailView {
                account_ref: dec_ref_req(po, ("AccountRef")@)->Ok_0,
                tax_code_ref: dec_ref_req(po, ("TaxCodeRef")@)->Ok_0,
                tax_amount: dec_num_req(po, ("TaxAmount")@)->Ok_0,
                tax_inclusive_amt: dec_num_req(po, ("TaxInclusiveAmt")@)->Ok_0,
                class_ref: dec_ref_req(po, ("ClassRef")@)->Ok_0,
                customer_ref: dec_ref_req(po, ("CustomerRef")@)->Ok_0,
                billable_status: dec_billable_req(po, ("BillableStatus")@)->Ok_0,
            },
        )
    }
}

/// The tax detail a payload object denotes.
pub open spec fn dec_tax(po: Seq<WireFieldView>) -> Result<TaxLineDetailView, DecodeError> {
    if dec_ref_opt(po, ("TaxRateRef")@) is Err || dec_num_opt(po, ("NetAmountTaxable")@) is Err
        || dec_bool_opt(po, ("PercentBased")@) is Err || dec_num_opt(
        po,
        ("TaxInclusiveAmount")@,
    ) is Err || dec_num_opt(po, ("OverrideDeltaAmount")@) is Err || dec_num_opt(
        po,
        ("TaxPercent")@,
    ) is Err {
        Err(DecodeError::FieldShape)
    } else {
        Ok(
            TaxLineDetailView {
                tax_rate_ref: dec_ref_opt(po, ("TaxRateRef")@)->Ok_0,
                net_amount_taxable: dec_num_opt(po, ("NetAmountTaxable")@)->Ok_0,
                percent_based: dec_bool_opt(po, ("PercentBased")@)->Ok_0,
                tax_inclusive_amount: dec_num_opt(po, ("TaxInclusiveAmount")@)->Ok_0,
                override_delta_amount: dec_num_opt(po, ("OverrideDeltaAmount")@)->Ok_0,
                tax_percent: dec_num_opt(po, ("TaxPercent")@)->Ok_0,
            },
        )
    }
}

/// The linked transaction a wire value denotes.
pub open spec fn dec_txn(v: WireValueView) -> Result<LinkedTxnView, DecodeError> {
    match v {
        WireValueView::Obj(to) => if dec_str_opt(to, ("TxnId")@) is Err || dec_str_opt(
            to,
            ("TxnType")@,
        ) is Err {
            Err(DecodeError::FieldShape)
        } else {
            Ok(
                LinkedTxnView {
                    txn_id: dec_str_opt(to, ("TxnId")@)->Ok_0,
                    txn_type: dec_str_opt(to, ("TxnType")@)->Ok_0,
                },
            )
        },
        _ => Err(DecodeError::FieldShape),
    }
}

/// The linked transactions an array's items denote.
pub open spec fn dec_txns(items: Seq<WireValueView>) -> Result<Seq<LinkedTxnView>, DecodeError>
    decreases items.len(),
{
    if items.len() == 0 {
        Ok(Seq::empty())
    } else {
        match dec_txn(items[0]) {
            Err(e) => Err(e),
            Ok(t) => match dec_txns(items.drop_first()) {
                Err(e) => Err(e),
                Ok(rest) => Ok(seq![t] + rest),
            },
        }
    }
}

/// An optional linked-transaction list field.
pub open spec fn dec_txns_opt(o: Seq<WireFieldView>, k: Seq<char>) -> Result<
    Option<Seq<LinkedTxnView>>,
    DecodeError,
> {
    match sobj_get(o, k) {
        None => Ok(None),
        Some(WireValueView::Arr(items)) => match dec_txns(items) {
            Ok(ts) => Ok(Some(ts)),
            Err(e) => Err(e),
        },
        Some(_) => Err(DecodeError::FieldShape),
    }
}

/// How many of the known detail payload keys are present.
pub open spec fn detail_key_count(o: Seq<WireFieldView>) -> int {
    (if sobj_get(o, ("SalesItemLineDetail")@) is Some {
        1int
    } else {
        0int
    }) + (if sobj_get(o, ("GroupLineDetail")@) is Some {
        1int
    } else {
        0int
    }) + (if sobj_get(o, ("DescriptionLineDetail")@) is Some {
        1int
    } else {
        0int
    }) + (if sobj_get(o, ("DiscountLineDetail")@) is Some {
        1int
    } else {
        0int
    }) + (if sobj_get(o, ("SubTotalLineDetail")@) is Some {
        1int
    } else {
        0int
    }) + (if sobj_get(o, ("ItemBasedExpenseLineDetail")@) is Some {
        1int
    } else {
        0int
    }) + (if sobj_get(o, ("AccountBasedExpenseLineDetail")@) is Some {
        1int
    } else {
        0int
    }) + (if sobj_get(o, ("TaxLineDetail")@) is Some {
        1int
    } else {
        0int
    })
}

/// A value looked up in a field list sits below the list in the
/// termination order.
pub proof fn lemma_sobj_get_smaller(o: Seq<WireFieldView>, k: Seq<char>)
    ensures
        sobj_get(o, k) matches Some(v) ==> decreases_to!(o => v),
    decreases o.len(),
{
    if o.len() > 0 {
        if o[0].key == k {
            assert(decreases_to!(o => o[0]));
            assert(decreases_to!(o[0] => o[0].value));
        } else {
            lemma_sobj_get_smaller(o.drop_first(), k);
            assert(decreases_to!(o => o.drop_first()));
        }
    }
}

/// The detail payload a row object denotes: the single known payload key
/// decides the shape; no known key at all leaves the `Empty` sentinel.
pub open spec fn dec_detail(o: Seq<WireFieldView>) -> Result<LineDetailView, DecodeError>
    decreases o,
    via dec_detail_via
{
    if detail_key_count(o) >= 2 {
        Err(DecodeError::AmbiguousDetail)
    } else {
        match sobj_get(o, ("SalesItemLineDetail")@) {
            Some(WireValueView::Obj(po)) => match dec_sales(po) {
                Ok(p) => Ok(LineDetailView::SalesItemLineDetail(p)),
                Err(e) => Err(e),
            },
            Some(_) => Err(DecodeError::FieldShape),
            None => match sobj_get(o, ("GroupLineDetail")@) {
                Some(WireValueView::Obj(po)) => match dec_group(po) {
                    Ok(p) => Ok(LineDetailView::GroupLineDetail(p)),
                    Err(e) => Err(e),
                },
                Some(_) => Err(DecodeError::FieldShape),
                None => match sobj_get(o, ("DescriptionLineDetail")@) {
                    Some(WireValueView::Obj(po)) => match dec_description(po) {
                        Ok(p) => Ok(LineDetailView::DescriptionLineDetail(p)),
                        Err(e) => Err(e),
                    },
                    Some(_) => Err(DecodeError::FieldShape),
                    None => match sobj_get(o, ("DiscountLineDetail")@) {
                        Some(WireValueView::Obj(po)) => match dec_discount(po) {
                            Ok(p) => Ok(LineDetailView::DiscountLineDetail(p)),
                            Err(e) => Err(e),
                        },
                        Some(_) => Err(DecodeError::FieldShape),
                        None => match sobj_get(o, ("SubTotalLineDetail")@) {
                            Some(WireValueView::Obj(po)) => match dec_subtotal(po) {
                                Ok(p) => Ok(LineDetailView::SubTotalLineDetail(p)),
                                Err(e) => Err(e),
                            },
                            Some(_) => Err(DecodeError::FieldShape),
                            None => match sobj_get(o, ("ItemBasedExpenseLineDetail")@) {
                                Some(WireValueView::Obj(po)) => match dec_item_expense(po) {
                                    Ok(p) => Ok(LineDetailView::ItemBasedExpenseLineDetail(p)),
                                    Err(e) => Err(e),
                                },
                                Some(_) => Err(DecodeError::FieldShape),
                                None => match sobj_get(o, ("AccountBasedExpenseLineDetail")@) {
                                    Some(WireValueView::Obj(po)) => match dec_account_expense(po) {
                                        Ok(p) => Ok(
                                            LineDetailView::AccountBasedExpenseLineDetail(p),
                                        ),
                                        Err(e) => Err(e),
                                    },
                                    Some(_) => Err(DecodeError::FieldShape),
                                    None => match sobj_get(o, ("TaxLineDetail")@) {
                                        Some(WireValueView::Obj(po)) => match dec_tax(po) {
                                            Ok(p) => Ok(LineDetailView::TaxLineDetail(p)),
                                            Err(e) => Err(e),
                                        },
                                        Some(_) => Err(DecodeError::FieldShape),
                                        None => Ok(LineDetailView::Empty),
                                    },
                                },
                            },
                        },
                    },
                },
            },
        }
    }
}

#[via_fn]
proof fn dec_detail_via(o: Seq<WireFieldView>) {
    lemma_sobj_get_smaller(o, ("GroupLineDetail")@);
    if let Some(v) = sobj_get(o, ("GroupLineDetail")@) {
        if let WireValueView::Obj(po) = v {
            assert(decreases_to!(v => po));
        }
    }
}

/// The group detail a payload object denotes: its bundled rows decode
/// through the row codec itself.
pub open spec fn dec_group(po: Seq<WireFieldView>) -> Result<GroupLineDetailView, DecodeError>
    decreases po,
    via dec_group_via
{
    if dec_num_req(po, ("Quantity")@) is Err || dec_ref_req(po, ("GroupItemRef")@) is Err {
        Err(DecodeError::FieldShape)
    } else {
        match sobj_get(po, ("Line")@) {
            None => Ok(
                GroupLineDetailView {
                    quantity: dec_num_req(po, ("Quantity")@)->Ok_0,
                    line: Seq::empty(),
                    group_item_ref: dec_ref_req(po, ("GroupItemRef")@)->Ok_0,
                },
            ),
            Some(WireValueView::Arr(items)) => match dec_lines(items) {
                Ok(ls) => Ok(
                    GroupLineDetailView {
                        quantity: dec_num_req(po, ("Quantity")@)->Ok_0,
                        line: ls,
                        group_item_ref: dec_ref_req(po, ("GroupItemRef")@)->Ok_0,
                    },
                ),
                Err(e) => Err(e),
            },
            Some(_) => Err(DecodeError::FieldShape),
        }
    }
}

#[via_fn]
proof fn dec_group_via(po: Seq<WireFieldView>) {
    lemma_sobj_get_smaller(po, ("Line")@);
    if let Some(v) = sobj_get(po, ("Line")@) {
        if let WireValueView::Arr(items) = v {
            assert(decreases_to!(v => items));
        }
    }
}

/// The rows an array's items denote.
pub open spec fn dec_lines(items: Seq<WireValueView>) -> Result<Seq<LineView>, DecodeError>
    decreases items,
{
    if items.len() == 0 {
        Ok(Seq::empty())
    } else {
        match spec_dec_line(items[0]) {
            Err(e) => Err(e),
            Ok(l) => match dec_lines(items.drop_first()) {
                Err(e) => Err(e),
                Ok(rest) => Ok(seq![l] + rest),
            },
        }
    }
}

/// The row a wire value denotes.
pub open spec fn spec_dec_line(v: WireValueView) -> Result<LineView, DecodeError>
    decreases v,
{
    match v {
        WireValueView::Obj(o) => if dec_detail(o) is Err || dec_num_opt(o, ("Amount")@) is Err
            || dec_str_opt(o, ("Description")@) is Err || dec_str_opt(o, ("Id")@) is Err
            || dec_txns_opt(o, ("LinkedTxn")@) is Err {
            Err(
                match dec_detail(o) {
                    Err(e) => e,
                    Ok(_) => DecodeError::FieldShape,
                },
            )
        } else {
            Ok(
                LineView {
                    line_detail: dec_detail(o)->Ok_0,
                    amount: dec_num_opt(o, ("Amount")@)->Ok_0,
                    description: dec_str_opt(o, ("Description")@)->Ok_0,
                    id: dec_str_opt(o, ("Id")@)->Ok_0,
                    linked_txn: dec_txns_opt(o, ("LinkedTxn")@)->Ok_0,
                },
            )
        },
        _ => Err(DecodeError::NotAnObject),
    }
}

// ------------------------------------------------------------------
// Round-trip lemmas
// ------------------------------------------------------------------

/// Looking any key up in a one-field list.
pub proof fn lemma_get_fld(k: Seq<char>, v: WireValueView)
    ensures
        forall|k2: Seq<char>|
            #![trigger sobj_get(fld(k, v), k2)]
            sobj_get(fld(k, v), k2) == if k2 == k {
                Some(v)
            } else {
                None::<WireValueView>
            },
{
    assert forall|k2: Seq<char>| sobj_get(fld(k, v), k2) == (if k2 == k {
        Some(v)
    } else {
        None::<WireValueView>
    }) by {
        reveal_with_fuel(sobj_get, 2);
        assert(fld(k, v).drop_first() =~= Seq::<WireFieldView>::empty());
    }
}

/// Looking any key up in the empty list.
pub proof fn lemma_get_empty()
    ensures
        forall|k2: Seq<char>|
            #![trigger sobj_get(Seq::<WireFieldView>::empty(), k2)]
            sobj_get(Seq::<WireFieldView>::empty(), k2) is None,
{
}

/// Lookup distributes over concatenation, for every key at once.
pub proof fn lemma_concat_all(a: Seq<WireFieldView>, b: Seq<WireFieldView>)
    ensures
        forall|k: Seq<char>|
            #![trigger sobj_get(a + b, k)]
            sobj_get(a + b, k) == if sobj_get(a, k) is Some {
                sobj_get(a, k)
            } else {
                sobj_get(b, k)
            },
{
    assert forall|k: Seq<char>| sobj_get(a + b, k) == (if sobj_get(a, k) is Some {
        sobj_get(a, k)
    } else {
        sobj_get(b, k)
    }) by {
        lemma_sobj_get_concat(a, b, k);
    }
}

/// An encoded reference decodes to the reference itself.
pub proof fn lemma_ref_roundtrip(r: NtRefView)
    ensures
        dec_ref_fields(enc_ref(r)) == Ok::<NtRefView, DecodeError>(r),
{
    reveal_strlit("type");
    reveal_strlit("name");
    reveal_strlit("value");
    reveal_strlit("Name");
    reveal_strlit("Value");
    assert(("type")@[0] != ("name")@[0]);
    assert(("type")@[0] != ("value")@[0]);
    assert(("type")@[0] != ("Name")@[0]);
    assert(("type")@[0] != ("Value")@[0]);
    assert(("name")@[0] != ("value")@[0]);
    assert(("name")@[0] != ("Name")@[0]);
    assert(("name")@[0] != ("Value")@[0]);
    assert(("value")@[0] != ("Name")@[0]);
    assert(("value")@[0] != ("Value")@[0]);
    assert(("Name")@[0] != ("Value")@[0]);
    lemma_get_empty();
    match r.entity_ref_type {
        Some(x) => lemma_get_fld(("type")@, WireValueView::Str(x)),
        None => (),
    }
    match r.name {
        Some(x) => lemma_get_fld(("name")@, WireValueView::Str(x)),
        None => (),
    }
    match r.value {
        Some(x) => lemma_get_fld(("value")@, WireValueView::Str(x)),
        None => (),
    }
    lemma_concat_all(opt_str_fld(("type")@, r.entity_ref_type), opt_str_fld(("name")@, r.name));
    lemma_concat_all(
        opt_str_fld(("type")@, r.entity_ref_type) + opt_str_fld(("name")@, r.name),
        opt_str_fld(("value")@, r.value),
    );
}


/// Whether a sold-item detail's date field can be rendered and re-parsed.
pub open spec fn sales_wf(d: SalesItemLineDetailView) -> bool {
    match d.service_date {
        Some(x) => x.is_valid(),
        None => true,
    }
}

/// Whether a detail payload's date and time fields, recursively through
/// group details, can be rendered and re-parsed.
pub open spec fn detail_wf(d: LineDetailView) -> bool
    decreases d,
{
    match d {
        LineDetailView::SalesItemLineDetail(p) => sales_wf(p),
        LineDetailView::DescriptionLineDetail(p) => p.service_date.is_valid(),
        LineDetailView::GroupLineDetail(g) => forall|i: int|
            0 <= i < g.line.len() ==> line_wf(#[trigger] g.line[i]),
        _ => true,
    }
}

/// Whether a row's date and time fields can be rendered and re-parsed.
pub open spec fn line_wf(l: LineView) -> bool
    decreases l,
{
    detail_wf(l.line_detail)
}

/// An encoded sales detail decodes to the detail itself.
#[verifier::rlimit(100)]
pub proof fn lemma_sales_roundtrip(d: SalesItemLineDetailView)
    requires
        sales_wf(d),
    ensures
        dec_sales(enc_sales(d)) == Ok::<SalesItemLineDetailView, DecodeError>(d),
{
    reveal_strlit("ClassRef");
    reveal_strlit("DiscountAmt");
    reveal_strlit("DiscountRate");
    reveal_strlit("ItemRef");
    reveal_strlit("Qty");
    reveal_strlit("ServiceDate");
    reveal_strlit("TaxClassificationRef");
    reveal_strlit("TaxCodeRef");
    reveal_strlit("TaxInclusiveAmt");
    reveal_strlit("UnitPrice");
    assert(("ClassRef")@[0] != ("DiscountAmt")@[0]);
    assert(("ClassRef")@[0] != ("DiscountRate")@[0]);
    assert(("ClassRef")@[0] != ("ItemRef")@[0]);
    assert(("ClassRef")@[0] != ("Qty")@[0]);
    assert(("ClassRef")@[0] != ("ServiceDate")@[0]);
    assert(("ClassRef")@[0] != ("TaxClassificationRef")@[0]);
    assert(("ClassRef")@[0] != ("TaxCodeRef")@[0]);
    assert(("ClassRef")@[0] != ("TaxInclusiveAmt")@[0]);
    assert(("ClassRef")@[0] != ("UnitPrice")@[0]);
    assert(("DiscountAmt")@[8] != ("DiscountRate")@[8]);
    assert(("DiscountAmt")@[0] != ("ItemRef")@[0]);
    assert(("DiscountAmt")@[0] != ("Qty")@[0]);
    assert(("DiscountAmt")@[0] != ("ServiceDate")@[0]);
    assert(("DiscountAmt")@[0] != ("TaxClassificationRef")@[0]);
    assert(("DiscountAmt")@[0] != ("TaxCodeRef")@[0]);
    assert(("DiscountAmt")@[0] != ("TaxInclusiveAmt")@[0]);
    assert(("DiscountAmt")@[0] != ("UnitPrice")@[0]);
    assert(("DiscountRate")@[0] != ("ItemRef")@[0]);
    assert(("DiscountRate")@[0] != ("Qty")@[0]);
    assert(("DiscountRate")@[0] != ("ServiceDate")@[0]);
    assert(("DiscountRate")@[0] != ("TaxClassificationRef")@[0]);
    assert(("DiscountRate")@[0] != ("TaxCodeRef")@[0]);
    assert(("DiscountRate")@[0] != ("TaxInclusiveAmt")@[0]);
    assert(("DiscountRate")@[0] != ("UnitPrice")@[0]);
    assert(("ItemRef")@[0] != ("Qty")@[0]);
    assert(("ItemRef")@[0] != ("ServiceDate")@[0]);
    assert(("ItemRef")@[0] != ("TaxClassificationRef")@[0]);
    assert(("ItemRef")@[0] != ("TaxCodeRef")@[0]);
    assert(("ItemRef")@[0] != ("TaxInclusiveAmt")@[0]);
    assert(("ItemRef")@[0] != ("UnitPrice")@[0]);
    assert(("Qty")@[0] != ("ServiceDate")@[0]);
    assert(("Qty")@[0] != ("TaxClassificationRef")@[0]);
    assert(("Qty")@[0] != ("TaxCodeRef")@[0]);
    assert(("Qty")@[0] != ("TaxInclusiveAmt")@[0]);
    assert(("Qty")@[0] != ("UnitPrice")@[0]);
    assert(("ServiceDate")@[0] != ("TaxClassificationRef")@[0]);
    assert(("ServiceDate")@[0] != ("TaxCodeRef")@[0]);
    assert(("ServiceDate")@[0] != ("TaxInclusiveAmt")@[0]);
    assert(("ServiceDate")@[0] != ("UnitPrice")@[0]);
    assert(("TaxClassificationRef")@[4] != ("TaxCodeRef")@[4]);
    assert(("TaxClassificationRef")@[3] != ("TaxInclusiveAmt")@[3]);
    assert(("TaxClassificationRef")@[0] != ("UnitPrice")@[0]);
    assert(("TaxCodeRef")@[3] != ("TaxInclusiveAmt")@[3]);
    assert(("TaxCodeRef")@[0] != ("UnitPrice")@[0]);
    assert(("TaxInclusiveAmt")@[0] != ("UnitPrice")@[0]);
    lemma_get_empty();
    match d.tax_inclusive_amt {
        Some(x) => lemma_get_fld(("TaxInclusiveAmt")@, WireValueView::Num(x)),
        None => (),
    }
    match d.discount_amt {
        Some(x) => lemma_get_fld(("DiscountAmt")@, WireValueView::Num(x)),
        None => (),
    }
    match d.item_ref {
        Some(x) => lemma_get_fld(("ItemRef")@, WireValueView::Obj(enc_ref(x))),
        None => (),
    }
    match d.class_ref {
        Some(x) => lemma_get_fld(("ClassRef")@, WireValueView::Obj(enc_ref(x))),
        None => (),
    }
    match d.tax_code_ref {
        Some(x) => lemma_get_fld(("TaxCodeRef")@, WireValueView::Obj(enc_ref(x))),
        None => (),
    }
    match d.service_date {
        Some(x) => lemma_get_fld(("ServiceDate")@, WireValueView::Str(date_chars(x))),
        None => (),
    }
    match d.discount_rate {
        Some(x) => lemma_get_fld(("DiscountRate")@, WireValueView::Num(x)),
        None => (),
    }
    match d.qty {
        Some(x) => lemma_get_fld(("Qty")@, WireValueView::Num(x)),
        None => (),
    }
    match d.unit_price {
        Some(x) => lemma_get_fld(("UnitPrice")@, WireValueView::Num(x)),
        None => (),
    }
    match d.tax_classification_ref {
        Some(x) => lemma_get_fld(("TaxClassificationRef")@, WireValueView::Obj(enc_ref(x))),
        None => (),
    }
    lemma_concat_all(opt_num_fld(("TaxInclusiveAmt")@, d.tax_inclusive_amt), opt_num_fld(("DiscountAmt")@, d.discount_amt));
    lemma_concat_all(opt_num_fld(("TaxInclusiveAmt")@, d.tax_inclusive_amt) + opt_num_fld(("DiscountAmt")@, d.discount_amt), opt_ref_fld(("ItemRef")@, d.item_ref));
    lemma_concat_all(opt_num_fld(("TaxInclusiveAmt")@, d.tax_inclusive_amt) + opt_num_fld(("DiscountAmt")@, d.discount_amt) + opt_ref_fld(("ItemRef")@, d.item_ref), opt_ref_fld(("ClassRef")@, d.class_ref));
    lemma_concat_all(opt_num_fld(("TaxInclusiveAmt")@, d.tax_inclusive_amt) + opt_num_fld(("DiscountAmt")@, d.discount_amt) + opt_ref_fld(("ItemRef")@, d.item_ref) + opt_ref_fld(("ClassRef")@, d.class_ref), opt_ref_fld(("TaxCodeRef")@, d.tax_code_ref));
    lemma_concat_all(opt_num_fld(("TaxInclusiveAmt")@, d.tax_inclusive_amt) + opt_num_fld(("DiscountAmt")@, d.discount_amt) + opt_ref_fld(("ItemRef")@, d.item_ref) + opt_ref_fld(("ClassRef")@, d.class_ref) + opt_ref_fld(("TaxCodeRef")@, d.tax_code_ref), opt_date_fld(("ServiceDate")@, d.service_date));
    lemma_concat_all(opt_num_fld(("TaxInclusiveAmt")@, d.tax_inclusive_amt) + opt_num_fld(("DiscountAmt")@, d.discount_amt) + opt_ref_fld(("ItemRef")@, d.item_ref) + opt_ref_fld(("ClassRef")@, d.class_ref) + opt_ref_fld(("TaxCodeRef")@, d.tax_code_ref) + opt_date_fld(("ServiceDate")@, d.service_date), opt_num_fld(("DiscountRate")@, d.discount_rate));
    lemma_concat_all(opt_num_fld(("TaxInclusiveAmt")@, d.tax_inclusive_amt) + opt_num_fld(("DiscountAmt")@, d.discount_amt) + opt_ref_fld(("ItemRef")@, d.item_ref) + opt_ref_fld(("ClassRef")@, d.class_ref) + opt_ref_fld(("TaxCodeRef")@, d.tax_code_ref) + opt_date_fld(("ServiceDate")@, d.service_date) + opt_num_fld(("DiscountRate")@, d.discount_rate), opt_num_fld(("Qty")@, d.qty));
    lemma_concat_all(opt_num_fld(("TaxInclusiveAmt")@, d.tax_inclusive_amt) + opt_num_fld(("DiscountAmt")@, d.discount_amt) + opt_ref_fld(("ItemRef")@, d.item_ref) + opt_ref_fld(("ClassRef")@, d.class_ref) + opt_ref_fld(("TaxCodeRef")@, d.tax_code_ref) + opt_date_fld(("ServiceDate")@, d.service_date) + opt_num_fld(("DiscountRate")@, d.discount_rate) + opt_num_fld(("Qty")@, d.qty), opt_num_fld(("UnitPrice")@, d.unit_price));
    lemma_concat_all(opt_num_fld(("TaxInclusiveAmt")@, d.tax_inclusive_amt) + opt_num_fld(("DiscountAmt")@, d.discount_amt) + opt_ref_fld(("ItemRef")@, d.item_ref) + opt_ref_fld(("ClassRef")@, d.class_ref) + opt_ref_fld(("TaxCodeRef")@, d.tax_code_ref) + opt_date_fld(("ServiceDate")@, d.service_date) + opt_num_fld(("DiscountRate")@, d.discount_rate) + opt_num_fld(("Qty")@, d.qty) + opt_num_fld(("UnitPrice")@, d.unit_price), opt_ref_fld(("TaxClassificationRef")@, d.tax_classification_ref));
    match d.item_ref {
        Some(r) => lemma_ref_roundtrip(r),
        None => (),
    }
    match d.class_ref {
        Some(r) => lemma_ref_roundtrip(r),
        None => (),
    }
    match d.tax_code_ref {
        Some(r) => lemma_ref_roundtrip(r),
        None => (),
    }
    match d.tax_classification_ref {
        Some(r) => lemma_ref_roundtrip(r),
        None => (),
    }
    match d.service_date {
        Some(x) => crate::text::lemma_date_roundtrip(x),
        None => (),
    }
}

/// An encoded description detail decodes to the detail itself.
#[verifier::rlimit(100)]
pub proof fn lemma_description_roundtrip(d: DescriptionLineDetailView)
    requires
        d.service_date.is_valid(),
    ensures
        dec_description(enc_description(d)) == Ok::<DescriptionLineDetailView, DecodeError>(d),
{
    reveal_strlit("ServiceDate");
    reveal_strlit("TaxCodeRef");
    assert(("ServiceDate")@[0] != ("TaxCodeRef")@[0]);
    lemma_get_empty();
    lemma_get_fld(("TaxCodeRef")@, WireValueView::Obj(enc_ref(d.tax_code_ref)));
    lemma_get_fld(("ServiceDate")@, WireValueView::Str(timestamp_chars(d.service_date)));
    lemma_concat_all(req_ref_fld(("TaxCodeRef")@, d.tax_code_ref), fld(("ServiceDate")@, WireValueView::Str(timestamp_chars(d.service_date))));
    lemma_ref_roundtrip(d.tax_code_ref);
    crate::text::lemma_timestamp_roundtrip(d.service_date);
}

/// An encoded discount detail decodes to the detail itself.
#[verifier::rlimit(100)]
pub proof fn lemma_discount_roundtrip(d: DiscountLineDetailView)
    ensures
        dec_discount(enc_discount(d)) == Ok::<DiscountLineDetailView, DecodeError>(d),
{
    reveal_strlit("ClassRef");
    reveal_strlit("DiscountAccountRef");
    reveal_strlit("DiscountPercent");
    reveal_strlit("PercentBased");
    reveal_strlit("TaxCodeRef");
    assert(("ClassRef")@[0] != ("DiscountAccountRef")@[0]);
    assert(("ClassRef")@[0] != ("DiscountPercent")@[0]);
    assert(("ClassRef")@[0] != ("PercentBased")@[0]);
    assert(("ClassRef")@[0] != ("TaxCodeRef")@[0]);
    assert(("DiscountAccountRef")@[8] != ("DiscountPercent")@[8]);
    assert(("DiscountAccountRef")@[0] != ("PercentBased")@[0]);
    assert(("DiscountAccountRef")@[0] != ("TaxCodeRef")@[0]);
    assert(("DiscountPercent")@[0] != ("PercentBased")@[0]);
    assert(("DiscountPercent")@[0] != ("TaxCodeRef")@[0]);
    assert(("PercentBased")@[0] != ("TaxCodeRef")@[0]);
    lemma_get_empty();
    lemma_get_fld(("ClassRef")@, WireValueView::Obj(enc_ref(d.class_ref)));
    lemma_get_fld(("TaxCodeRef")@, WireValueView::Obj(enc_ref(d.tax_code_ref)));
    lemma_get_fld(("DiscountAccountRef")@, WireValueView::Obj(enc_ref(d.discount_account_ref)));
    lemma_get_fld(("PercentBased")@, WireValueView::Bool(d.percent_based));
    match d.discount_percent {
        Some(x) => lemma_get_fld(("DiscountPercent")@, WireValueView::Num(x)),
        None => (),
    }
    lemma_concat_all(req_ref_fld(("ClassRef")@, d.class_ref), req_ref_fld(("TaxCodeRef")@, d.tax_code_ref));
    lemma_concat_all(req_ref_fld(("ClassRef")@, d.class_ref) + req_ref_fld(("TaxCodeRef")@, d.tax_code_ref), req_ref_fld(("DiscountAccountRef")@, d.discount_account_ref));
    lemma_concat_all(req_ref_fld(("ClassRef")@, d.class_ref) + req_ref_fld(("TaxCodeRef")@, d.tax_code_ref) + req_ref_fld(("DiscountAccountRef")@, d.discount_account_ref), fld(("PercentBased")@, WireValueView::Bool(d.percent_based)));
    lemma_concat_all(req_ref_fld(("ClassRef")@, d.class_ref) + req_ref_fld(("TaxCodeRef")@, d.tax_code_ref) + req_ref_fld(("DiscountAccountRef")@, d.discount_account_ref) + fld(("PercentBased")@, WireValueView::Bool(d.percent_based)), opt_num_fld(("DiscountPercent")@, d.discount_percent));
    lemma_ref_roundtrip(d.class_ref);
    lemma_ref_roundtrip(d.tax_code_ref);
    lemma_ref_roundtrip(d.discount_account_ref);
}

/// An encoded subtotal detail decodes to the detail itself.
#[verifier::rlimit(100)]
pub proof fn lemma_subtotal_roundtrip(d: SubTotalLineDetailView)
    ensures
        dec_subtotal(enc_subtotal(d)) == Ok::<SubTotalLineDetailView, DecodeError>(d),
{
    reveal_strlit("ItemRef");
    lemma_get_empty();
    lemma_get_fld(("ItemRef")@, WireValueView::Obj(enc_ref(d.item_ref)));

    lemma_ref_roundtrip(d.item_ref);
}

/// An encoded item_expense detail decodes to the detail itself.
#[verifier::rlimit(100)]
pub proof fn lemma_item_expense_roundtrip(d: ItemBasedExpenseLineDetailView)
    ensures
        dec_item_expense(enc_item_expense(d)) == Ok::<ItemBasedExpenseLineDetailView, DecodeError>(d),
{
    reveal_strlit("Billable");
    reveal_strlit("BillableStatus");
    reveal_strlit("ClassRef");
    reveal_strlit("CustomerRef");
    reveal_strlit("HasBeenBilled");
    reveal_strlit("ItemRef");
    reveal_strlit("NotBillable");
    reveal_strlit("PriceLevelRef");
    reveal_strlit("Qty");
    reveal_strlit("TaxCodeRef");
    reveal_strlit("TaxInclusiveAmt");
    reveal_strlit("UnitPrice");
    assert(("Billable")@.len() != ("BillableStatus")@.len());
    assert(("Billable")@[0] != ("ClassRef")@[0]);
    assert(("Billable")@[0] != ("CustomerRef")@[0]);
    assert(("Billable")@[0] != ("HasBeenBilled")@[0]);
    assert(("Billable")@[0] != ("ItemRef")@[0]);
    assert(("Billable")@[0] != ("NotBillable")@[0]);
    assert(("Billable")@[0] != ("PriceLevelRef")@[0]);
    assert(("Billable")@[0] != ("Qty")@[0]);
    assert(("Billable")@[0] != ("TaxCodeRef")@[0]);
    assert(("Billable")@[0] != ("TaxInclusiveAmt")@[0]);
    assert(("Billable")@[0] != ("UnitPrice")@[0]);
    assert(("BillableStatus")@[0] != ("ClassRef")@[0]);
    assert(("BillableStatus")@[0] != ("CustomerRef")@[0]);
    assert(("BillableStatus")@[0] != ("HasBeenBilled")@[0]);
    assert(("BillableStatus")@[0] != ("ItemRef")@[0]);
    assert(("BillableStatus")@[0] != ("NotBillable")@[0]);
    assert(("BillableStatus")@[0] != ("PriceLevelRef")@[0]);
    assert(("BillableStatus")@[0] != ("Qty")@[0]);
    assert(("BillableStatus")@[0] != ("TaxCodeRef")@[0]);
    assert(("BillableStatus")@[0] != ("TaxInclusiveAmt")@[0]);
    assert(("BillableStatus")@[0] != ("UnitPrice")@[0]);
    assert(("ClassRef")@[1] != ("CustomerRef")@[1]);
    assert(("ClassRef")@[0] != ("HasBeenBilled")@[0]);
    assert(("ClassRef")@[0] != ("ItemRef")@[0]);
    assert(("ClassRef")@[0] != ("NotBillable")@[0]);
    assert(("ClassRef")@[0] != ("PriceLevelRef")@[0]);
    assert(("ClassRef")@[0] != ("Qty")@[0]);
    assert(("ClassRef")@[0] != ("TaxCodeRef")@[0]);
    assert(("ClassRef")@[0] != ("TaxInclusiveAmt")@[0]);
    assert(("ClassRef")@[0] != ("UnitPrice")@[0]);
    assert(("CustomerRef")@[0] != ("HasBeenBilled")@[0]);
    assert(("CustomerRef")@[0] != ("ItemRef")@[0]);
    assert(("CustomerRef")@[0] != ("NotBillable")@[0]);
    assert(("CustomerRef")@[0] != ("PriceLevelRef")@[0]);
    assert(("CustomerRef")@[0] != ("Qty")@[0]);
    assert(("CustomerRef")@[0] != ("TaxCodeRef")@[0]);
    assert(("CustomerRef")@[0] != ("TaxInclusiveAmt")@[0]);
    assert(("CustomerRef")@[0] != ("UnitPrice")@[0]);
    assert(("HasBeenBilled")@[0] != ("ItemRef")@[0]);
    assert(("HasBeenBilled")@[0] != ("NotBillable")@[0]);
    assert(("HasBeenBilled")@[0] != ("PriceLevelRef")@[0]);
    assert(("HasBeenBilled")@[0] != ("Qty")@[0]);
    assert(("HasBeenBilled")@[0] != ("TaxCodeRef")@[0]);
    assert(("HasBeenBilled")@[0] != ("TaxInclusiveAmt")@[0]);
    assert(("HasBeenBilled")@[0] != ("UnitPrice")@[0]);
    assert(("ItemRef")@[0] != ("NotBillable")@[0]);
    assert(("ItemRef")@[0] != ("PriceLevelRef")@[0]);
    assert(("ItemRef")@[0] != ("Qty")@[0]);
    assert(("ItemRef")@[0] != ("TaxCodeRef")@[0]);
    assert(("ItemRef")@[0] != ("TaxInclusiveAmt")@[0]);
    assert(("ItemRef")@[0] != ("UnitPrice")@[0]);
    assert(("NotBillable")@[0] != ("PriceLevelRef")@[0]);
    assert(("NotBillable")@[0] != ("Qty")@[0]);
    assert(("NotBillable")@[0] != ("TaxCodeRef")@[0]);
    assert(("NotBillable")@[0] != ("TaxInclusiveAmt")@[0]);
    assert(("NotBillable")@[0] != ("UnitPrice")@[0]);
    assert(("PriceLevelRef")@[0] != ("Qty")@[0]);
    assert(("PriceLevelRef")@[0] != ("TaxCodeRef")@[0]);
    assert(("PriceLevelRef")@[0] != ("TaxInclusiveAmt")@[0]);
    assert(("PriceLevelRef")@[0] != ("UnitPrice")@[0]);
    assert(("Qty")@[0] != ("TaxCodeRef")@[0]);
    assert(("Qty")@[0] != ("TaxInclusiveAmt")@[0]);
    assert(("Qty")@[0] != ("UnitPrice")@[0]);
    assert(("TaxCodeRef")@[3] != ("TaxInclusiveAmt")@[3]);
    assert(("TaxCodeRef")@[0] != ("UnitPrice")@[0]);
    assert(("TaxInclusiveAmt")@[0] != ("UnitPrice")@[0]);
    lemma_get_empty();
    lemma_get_fld(("TaxInclusiveAmt")@, WireValueView::Num(d.tax_inclusive_amt));
    lemma_get_fld(("ItemRef")@, WireValueView::Obj(enc_ref(d.item_ref)));
    lemma_get_fld(("CustomerRef")@, WireValueView::Obj(enc_ref(d.customer_ref)));
    lemma_get_fld(("PriceLevelRef")@, WireValueView::Obj(enc_ref(d.price_level_ref)));
    lemma_get_fld(("ClassRef")@, WireValueView::Obj(enc_ref(d.class_ref)));
    lemma_get_fld(("TaxCodeRef")@, WireValueView::Obj(enc_ref(d.tax_code_ref)));
    lemma_get_fld(("BillableStatus")@, WireValueView::Str(billable_chars(d.billable_status)));
    lemma_get_fld(("Qty")@, WireValueView::Num(d.qty));
    lemma_get_fld(("UnitPrice")@, WireValueView::Num(d.unit_price));
    lemma_concat_all(fld(("TaxInclusiveAmt")@, WireValueView::Num(d.tax_inclusive_amt)), req_ref_fld(("ItemRef")@, d.item_ref));
    lemma_concat_all(fld(("TaxInclusiveAmt")@, WireValueView::Num(d.tax_inclusive_amt)) + req_ref_fld(("ItemRef")@, d.item_ref), req_ref_fld(("CustomerRef")@, d.customer_ref));
    lemma_concat_all(fld(("TaxInclusiveAmt")@, WireValueView::Num(d.tax_inclusive_amt)) + req_ref_fld(("ItemRef")@, d.item_ref) + req_ref_fld(("CustomerRef")@, d.customer_ref), req_ref_fld(("PriceLevelRef")@, d.price_level_ref));
    lemma_concat_all(fld(("TaxInclusiveAmt")@, WireValueView::Num(d.tax_inclusive_amt)) + req_ref_fld(("ItemRef")@, d.item_ref) + req_ref_fld(("CustomerRef")@, d.customer_ref) + req_ref_fld(("PriceLevelRef")@, d.price_level_ref), req_ref_fld(("ClassRef")@, d.class_ref));
    lemma_concat_all(fld(("TaxInclusiveAmt")@, WireValueView::Num(d.tax_inclusive_amt)) + req_ref_fld(("ItemRef")@, d.item_ref) + req_ref_fld(("CustomerRef")@, d.customer_ref) + req_ref_fld(("PriceLevelRef")@, d.price_level_ref) + req_ref_fld(("ClassRef")@, d.class_ref), req_ref_fld(("TaxCodeRef")@, d.tax_code_ref));
    lemma_concat_all(fld(("TaxInclusiveAmt")@, WireValueView::Num(d.tax_inclusive_amt)) + req_ref_fld(("ItemRef")@, d.item_ref) + req_ref_fld(("CustomerRef")@, d.customer_ref) + req_ref_fld(("PriceLevelRef")@, d.price_level_ref) + req_ref_fld(("ClassRef")@, d.class_ref) + req_ref_fld(("TaxCodeRef")@, d.tax_code_ref), fld(("BillableStatus")@, WireValueView::Str(billable_chars(d.billable_status))));
    lemma_concat_all(fld(("TaxInclusiveAmt")@, WireValueView::Num(d.tax_inclusive_amt)) + req_ref_fld(("ItemRef")@, d.item_ref) + req_ref_fld(("CustomerRef")@, d.customer_ref) + req_ref_fld(("PriceLevelRef")@, d.price_level_ref) + req_ref_fld(("ClassRef")@, d.class_ref) + req_ref_fld(("TaxCodeRef")@, d.tax_code_ref) + fld(("BillableStatus")@, WireValueView::Str(billable_chars(d.billable_status))), fld(("Qty")@, WireValueView::Num(d.qty)));
    lemma_concat_all(fld(("TaxInclusiveAmt")@, WireValueView::Num(d.tax_inclusive_amt)) + req_ref_fld(("ItemRef")@, d.item_ref) + req_ref_fld(("CustomerRef")@, d.customer_ref) + req_ref_fld(("PriceLevelRef")@, d.price_level_ref) + req_ref_fld(("ClassRef")@, d.class_ref) + req_ref_fld(("TaxCodeRef")@, d.tax_code_ref) + fld(("BillableStatus")@, WireValueView::Str(billable_chars(d.billable_status))) + fld(("Qty")@, WireValueView::Num(d.qty)), fld(("UnitPrice")@, WireValueView::Num(d.unit_price)));
    lemma_ref_roundtrip(d.item_ref);
    lemma_ref_roundtrip(d.customer_ref);
    lemma_ref_roundtrip(d.price_level_ref);
    lemma_ref_roundtrip(d.class_ref);
    lemma_ref_roundtrip(d.tax_code_ref);
}

/// An encoded account_expense detail decodes to the detail itself.
#[verifier::rlimit(100)]
pub proof fn lemma_account_expense_roundtrip(d: AccountBasedExpenseLineDetailView)
    ensures
        dec_account_expense(enc_account_expense(d)) == Ok::<AccountBasedExpenseLineDetailView, DecodeError>(d),
{
    reveal_strlit("AccountRef");
    reveal_strlit("Billable");
    reveal_strlit("BillableStatus");
    reveal_strlit("ClassRef");
    reveal_strlit("CustomerRef");
    reveal_strlit("HasBeenBilled");
    reveal_strlit("NotBillable");
    reveal_strlit("TaxAmount");
    reveal_strlit("TaxCodeRef");
    reveal_strlit("TaxInclusiveAmt");
    assert(("AccountRef")@[0] != ("Billable")@[0]);
    assert(("AccountRef")@[0] != ("BillableStatus")@[0]);
    assert(("AccountRef")@[0] != ("ClassRef")@[0]);
    assert(("AccountRef")@[0] != ("CustomerRef")@[0]);
    assert(("AccountRef")@[0] != ("HasBeenBilled")@[0]);
    assert(("AccountRef")@[0] != ("NotBillable")@[0]);
    assert(("AccountRef")@[0] != ("TaxAmount")@[0]);
    assert(("AccountRef")@[0] != ("TaxCodeRef")@[0]);
    assert(("AccountRef")@[0] != ("TaxInclusiveAmt")@[0]);
    assert(("Billable")@.len() != ("BillableStatus")@.len());
    assert(("Billable")@[0] != ("ClassRef")@[0]);
    assert(("Billable")@[0] != ("CustomerRef")@[0]);
    assert(("Billable")@[0] != ("HasBeenBilled")@[0]);
    assert(("Billable")@[0] != ("NotBillable")@[0]);
    assert(("Billable")@[0] != ("TaxAmount")@[0]);
    assert(("Billable")@[0] != ("TaxCodeRef")@[0]);
    assert(("Billable")@[0] != ("TaxInclusiveAmt")@[0]);
    assert(("BillableStatus")@[0] != ("ClassRef")@[0]);
    assert(("BillableStatus")@[0] != ("CustomerRef")@[0]);
    assert(("BillableStatus")@[0] != ("HasBeenBilled")@[0]);
    assert(("BillableStatus")@[0] != ("NotBillable")@[0]);
    assert(("BillableStatus")@[0] != ("TaxAmount")@[0]);
    assert(("BillableStatus")@[0] != ("TaxCodeRef")@[0]);
    assert(("BillableStatus")@[0] != ("TaxInclusiveAmt")@[0]);
    assert(("ClassRef")@[1] != ("CustomerRef")@[1]);
    assert(("ClassRef")@[0] != ("HasBeenBilled")@[0]);
    assert(("ClassRef")@[0] != ("NotBillable")@[0]);
    assert(("ClassRef")@[0] != ("TaxAmount")@[0]);
    assert(("ClassRef")@[0] != ("TaxCodeRef")@[0]);
    assert(("ClassRef")@[0] != ("TaxInclusiveAmt")@[0]);
    assert(("CustomerRef")@[0] != ("HasBeenBilled")@[0]);
    assert(("CustomerRef")@[0] != ("NotBillable")@[0]);
    assert(("CustomerRef")@[0] != ("TaxAmount")@[0]);
    assert(("CustomerRef")@[0] != ("TaxCodeRef")@[0]);
    assert(("CustomerRef")@[0] != ("TaxInclusiveAmt")@[0]);
    assert(("HasBeenBilled")@[0] != ("NotBillable")@[0]);
    assert(("HasBeenBilled")@[0] != ("TaxAmount")@[0]);
    assert(("HasBeenBilled")@[0] != ("TaxCodeRef")@[0]);
    assert(("HasBeenBilled")@[0] != ("TaxInclusiveAmt")@[0]);
    assert(("NotBillable")@[0] != ("TaxAmount")@[0]);
    assert(("NotBillable")@[0] != ("TaxCodeRef")@[0]);
    assert(("NotBillable")@[0] != ("TaxInclusiveAmt")@[0]);
    assert(("TaxAmount")@[3] != ("TaxCodeRef")@[3]);
    assert(("TaxAmount")@[3] != ("TaxInclusiveAmt")@[3]);
    assert(("TaxCodeRef")@[3] != ("TaxInclusiveAmt")@[3]);
    lemma_get_empty();
    lemma_get_fld(("AccountRef")@, WireValueView::Obj(enc_ref(d.account_ref)));
    lemma_get_fld(("TaxCodeRef")@, WireValueView::Obj(enc_ref(d.tax_code_ref)));
    lemma_get_fld(("TaxAmount")@, WireValueView::Num(d.tax_amount));
    lemma_get_fld(("TaxInclusiveAmt")@, WireValueView::Num(d.tax_inclusive_amt));
    lemma_get_fld(("ClassRef")@, WireValueView::Obj(enc_ref(d.class_ref)));
    lemma_get_fld(("CustomerRef")@, WireValueView::Obj(enc_ref(d.customer_ref)));
    lemma_get_fld(("BillableStatus")@, WireValueView::Str(billable_chars(d.billable_status)));
    lemma_concat_all(req_ref_fld(("AccountRef")@, d.account_ref), req_ref_fld(("TaxCodeRef")@, d.tax_code_ref));
    lemma_concat_all(req_ref_fld(("AccountRef")@, d.account_ref) + req_ref_fld(("TaxCodeRef")@, d.tax_code_ref), fld(("TaxAmount")@, WireValueView::Num(d.tax_amount)));
    lemma_concat_all(req_ref_fld(("AccountRef")@, d.account_ref) + req_ref_fld(("TaxCodeRef")@, d.tax_code_ref) + fld(("TaxAmount")@, WireValueView::Num(d.tax_amount)), fld(("TaxInclusiveAmt")@, WireValueView::Num(d.tax_inclusive_amt)));
    lemma_concat_all(req_ref_fld(("AccountRef")@, d.account_ref) + req_ref_fld(("TaxCodeRef")@, d.tax_code_ref) + fld(("TaxAmount")@, WireValueView::Num(d.tax_amount)) + fld(("TaxInclusiveAmt")@, WireValueView::Num(d.tax_inclusive_amt)), req_ref_fld(("ClassRef")@, d.class_ref));
    lemma_concat_all(req_ref_fld(("AccountRef")@, d.account_ref) + req_ref_fld(("TaxCodeRef")@, d.tax_code_ref) + fld(("TaxAmount")@, WireValueView::Num(d.tax_amount)) + fld(("TaxInclusiveAmt")@, WireValueView::Num(d.tax_inclusive_amt)) + req_ref_fld(("ClassRef")@, d.class_ref), req_ref_fld(("CustomerRef")@, d.customer_ref));
    lemma_concat_all(req_ref_fld(("AccountRef")@, d.account_ref) + req_ref_fld(("TaxCodeRef")@, d.tax_code_ref) + fld(("TaxAmount")@, WireValueView::Num(d.tax_amount)) + fld(("TaxInclusiveAmt")@, WireValueView::Num(d.tax_inclusive_amt)) + req_ref_fld(("ClassRef")@, d.class_ref) + req_ref_fld(("CustomerRef")@, d.customer_ref), fld(("BillableStatus")@, WireValueView::Str(billable_chars(d.billable_status))));
    lemma_ref_roundtrip(d.account_ref);
    lemma_ref_roundtrip(d.tax_code_ref);
    lemma_ref_roundtrip(d.class_ref);
    lemma_ref_roundtrip(d.customer_ref);
}

/// An encoded tax detail decodes to the detail itself.
#[verifier::rlimit(100)]
pub proof fn lemma_tax_roundtrip(d: TaxLineDetailView)
    ensures
        dec_tax(enc_tax(d)) == Ok::<TaxLineDetailView, DecodeError>(d),
{
    reveal_strlit("NetAmountTaxable");
    reveal_strlit("OverrideDeltaAmount");
    reveal_strlit("PercentBased");
    reveal_strlit("TaxInclusiveAmount");
    reveal_strlit("TaxPercent");
    reveal_strlit("TaxRateRef");
    assert(("NetAmountTaxable")@[0] != ("OverrideDeltaAmount")@[0]);
    assert(("NetAmountTaxable")@[0] != ("PercentBased")@[0]);
    assert(("NetAmountTaxable")@[0] != ("TaxInclusiveAmount")@[0]);
    assert(("NetAmountTaxable")@[0] != ("TaxPercent")@[0]);
    assert(("NetAmountTaxable")@[0] != ("TaxRateRef")@[0]);
    assert(("OverrideDeltaAmount")@[0] != ("PercentBased")@[0]);
    assert(("OverrideDeltaAmount")@[0] != ("TaxInclusiveAmount")@[0]);
    assert(("OverrideDeltaAmount")@[0] != ("TaxPercent")@[0]);
    assert(("OverrideDeltaAmount")@[0] != ("TaxRateRef")@[0]);
    assert(("PercentBased")@[0] != ("TaxInclusiveAmount")@[0]);
    assert(("PercentBased")@[0] != ("TaxPercent")@[0]);
    assert(("PercentBased")@[0] != ("TaxRateRef")@[0]);
    assert(("TaxInclusiveAmount")@[3] != ("TaxPercent")@[3]);
    assert(("TaxInclusiveAmount")@[3] != ("TaxRateRef")@[3]);
    assert(("TaxPercent")@[3] != ("TaxRateRef")@[3]);
    lemma_get_empty();
    match d.tax_rate_ref {
        Some(x) => lemma_get_fld(("TaxRateRef")@, WireValueView::Obj(enc_ref(x))),
        None => (),
    }
    match d.net_amount_taxable {
        Some(x) => lemma_get_fld(("NetAmountTaxable")@, WireValueView::Num(x)),
        None => (),
    }
    match d.percent_based {
        Some(x) => lemma_get_fld(("PercentBased")@, WireValueView::Bool(x)),
        None => (),
    }
    match d.tax_inclusive_amount {
        Some(x) => lemma_get_fld(("TaxInclusiveAmount")@, WireValueView::Num(x)),
        None => (),
    }
    match d.override_delta_amount {
        Some(x) => lemma_get_fld(("OverrideDeltaAmount")@, WireValueView::Num(x)),
        None => (),
    }
    match d.tax_percent {
        Some(x) => lemma_get_fld(("TaxPercent")@, WireValueView::Num(x)),
        None => (),
    }
    lemma_concat_all(opt_ref_fld(("TaxRateRef")@, d.tax_rate_ref), opt_num_fld(("NetAmountTaxable")@, d.net_amount_taxable));
    lemma_concat_all(opt_ref_fld(("TaxRateRef")@, d.tax_rate_ref) + opt_num_fld(("NetAmountTaxable")@, d.net_amount_taxable), opt_bool_fld(("PercentBased")@, d.percent_based));
    lemma_concat_all(opt_ref_fld(("TaxRateRef")@, d.tax_rate_ref) + opt_num_fld(("NetAmountTaxable")@, d.net_amount_taxable) + opt_bool_fld(("PercentBased")@, d.percent_based), opt_num_fld(("TaxInclusiveAmount")@, d.tax_inclusive_amount));
    lemma_concat_all(opt_ref_fld(("TaxRateRef")@, d.tax_rate_ref) + opt_num_fld(("NetAmountTaxable")@, d.net_amount_taxable) + opt_bool_fld(("PercentBased")@, d.percent_based) + opt_num_fld(("TaxInclusiveAmount")@, d.tax_inclusive_amount), opt_num_fld(("OverrideDeltaAmount")@, d.override_delta_amount));
    lemma_concat_all(opt_ref_fld(("TaxRateRef")@, d.tax_rate_ref) + opt_num_fld(("NetAmountTaxable")@, d.net_amount_taxable) + opt_bool_fld(("PercentBased")@, d.percent_based) + opt_num_fld(("TaxInclusiveAmount")@, d.tax_inclusive_amount) + opt_num_fld(("OverrideDeltaAmount")@, d.override_delta_amount), opt_num_fld(("TaxPercent")@, d.tax_percent));
    match d.tax_rate_ref {
        Some(r) => lemma_ref_roundtrip(r),
        None => (),
    }
}

/// An encoded linked transaction decodes to itself.
pub proof fn lemma_txn_roundtrip(t: LinkedTxnView)
    ensures
        dec_txn(WireValueView::Obj(enc_txn(t))) == Ok::<LinkedTxnView, DecodeError>(t),
{
    reveal_strlit("TxnId");
    reveal_strlit("TxnType");
    assert(("TxnId")@[3] != ("TxnType")@[3]);
    lemma_get_empty();
    match t.txn_id {
        Some(x) => lemma_get_fld(("TxnId")@, WireValueView::Str(x)),
        None => (),
    }
    match t.txn_type {
        Some(x) => lemma_get_fld(("TxnType")@, WireValueView::Str(x)),
        None => (),
    }
    lemma_concat_all(opt_str_fld(("TxnId")@, t.txn_id), opt_str_fld(("TxnType")@, t.txn_type));
}

/// An encoded linked-transaction list decodes to itself.
pub proof fn lemma_txns_roundtrip(ts: Seq<LinkedTxnView>)
    ensures
        dec_txns(enc_txns(ts)) == Ok::<Seq<LinkedTxnView>, DecodeError>(ts),
    decreases ts.len(),
{
    if ts.len() == 0 {
        assert(enc_txns(ts) =~= Seq::<WireValueView>::empty());
        assert(dec_txns(enc_txns(ts)) == Ok::<Seq<LinkedTxnView>, DecodeError>(Seq::empty()));
        assert(ts =~= Seq::<LinkedTxnView>::empty());
    } else {
        lemma_txn_roundtrip(ts[0]);
        lemma_txns_roundtrip(ts.drop_first());
        assert(enc_txns(ts)[0] == WireValueView::Obj(enc_txn(ts[0])));
        assert(enc_txns(ts).drop_first() =~= enc_txns(ts.drop_first()));
        assert(seq![ts[0]] + ts.drop_first() =~= ts);
    }
}

/// Decoding an encoded row gives the row back: the round trip of the
/// codec, for every encodable, well-formed row.
#[verifier::rlimit(100)]
pub proof fn lemma_line_roundtrip(l: LineView)
    requires
        line_encodable(l),
        line_wf(l),
    ensures
        spec_dec_line(spec_enc_line(l)) == Ok::<LineView, DecodeError>(l),
    decreases l,
{
    reveal_strlit("AccountBasedExpenseLineDetail");
    reveal_strlit("Amount");
    reveal_strlit("Description");
    reveal_strlit("DescriptionLineDetail");
    reveal_strlit("DetailType");
    reveal_strlit("DiscountLineDetail");
    reveal_strlit("GroupItemRef");
    reveal_strlit("GroupLineDetail");
    reveal_strlit("Id");
    reveal_strlit("ItemBasedExpenseLineDetail");
    reveal_strlit("Line");
    reveal_strlit("LinkedTxn");
    reveal_strlit("Quantity");
    reveal_strlit("SalesItemLineDetail");
    reveal_strlit("SubTotalLineDetail");
    reveal_strlit("TaxLineDetail");
    assert(("AccountBasedExpenseLineDetail")@[1] != ("Amount")@[1]);
    assert(("AccountBasedExpenseLineDetail")@[0] != ("Description")@[0]);
    assert(("AccountBasedExpenseLineDetail")@[0] != ("DescriptionLineDetail")@[0]);
    assert(("AccountBasedExpenseLineDetail")@[0] != ("DetailType")@[0]);
    assert(("AccountBasedExpenseLineDetail")@[0] != ("DiscountLineDetail")@[0]);
    assert(("AccountBasedExpenseLineDetail")@[0] != ("GroupItemRef")@[0]);
    assert(("AccountBasedExpenseLineDetail")@[0] != ("GroupLineDetail")@[0]);
    assert(("AccountBasedExpenseLineDetail")@[0] != ("Id")@[0]);
    assert(("AccountBasedExpenseLineDetail")@[0] != ("ItemBasedExpenseLineDetail")@[0]);
    assert(("AccountBasedExpenseLineDetail")@[0] != ("Line")@[0]);
    assert(("AccountBasedExpenseLineDetail")@[0] != ("LinkedTxn")@[0]);
    assert(("AccountBasedExpenseLineDetail")@[0] != ("Quantity")@[0]);
    assert(("AccountBasedExpenseLineDetail")@[0] != ("SalesItemLineDetail")@[0]);
    assert(("AccountBasedExpenseLineDetail")@[0] != ("SubTotalLineDetail")@[0]);
    assert(("AccountBasedExpenseLineDetail")@[0] != ("TaxLineDetail")@[0]);
    assert(("Amount")@[0] != ("Description")@[0]);
    assert(("Amount")@[0] != ("DescriptionLineDetail")@[0]);
    assert(("Amount")@[0] != ("DetailType")@[0]);
    assert(("Amount")@[0] != ("DiscountLineDetail")@[0]);
    assert(("Amount")@[0] != ("GroupItemRef")@[0]);
    assert(("Amount")@[0] != ("GroupLineDetail")@[0]);
    assert(("Amount")@[0] != ("Id")@[0]);
    assert(("Amount")@[0] != ("ItemBasedExpenseLineDetail")@[0]);
    assert(("Amount")@[0] != ("Line")@[0]);
    assert(("Amount")@[0] != ("LinkedTxn")@[0]);
    assert(("Amount")@[0] != ("Quantity")@[0]);
    assert(("Amount")@[0] != ("SalesItemLineDetail")@[0]);
    assert(("Amount")@[0] != ("SubTotalLineDetail")@[0]);
    assert(("Amount")@[0] != ("TaxLineDetail")@[0]);
    assert(("Description")@.len() != ("DescriptionLineDetail")@.len());
    assert(("Description")@[2] != ("DetailType")@[2]);
    assert(("Description")@[1] != ("DiscountLineDetail")@[1]);
    assert(("Description")@[0] != ("GroupItemRef")@[0]);
    assert(("Description")@[0] != ("GroupLineDetail")@[0]);
    assert(("Description")@[0] != ("Id")@[0]);
    assert(("Description")@[0] != ("ItemBasedExpenseLineDetail")@[0]);
    assert(("Description")@[0] != ("Line")@[0]);
    assert(("Description")@[0] != ("LinkedTxn")@[0]);
    assert(("Description")@[0] != ("Quantity")@[0]);
    assert(("Description")@[0] != ("SalesItemLineDetail")@[0]);
    assert(("Description")@[0] != ("SubTotalLineDetail")@[0]);
    assert(("Description")@[0] != ("TaxLineDetail")@[0]);
    assert(("DescriptionLineDetail")@[2] != ("DetailType")@[2]);
    assert(("DescriptionLineDetail")@[1] != ("DiscountLineDetail")@[1]);
    assert(("DescriptionLineDetail")@[0] != ("GroupItemRef")@[0]);
    assert(("DescriptionLineDetail")@[0] != ("GroupLineDetail")@[0]);
    assert(("DescriptionLineDetail")@[0] != ("Id")@[0]);
    assert(("DescriptionLineDetail")@[0] != ("ItemBasedExpenseLineDetail")@[0]);
    assert(("DescriptionLineDetail")@[0] != ("Line")@[0]);
    assert(("DescriptionLineDetail")@[0] != ("LinkedTxn")@[0]);
    assert(("DescriptionLineDetail")@[0] != ("Quantity")@[0]);
    assert(("DescriptionLineDetail")@[0] != ("SalesItemLineDetail")@[0]);
    assert(("DescriptionLineDetail")@[0] != ("SubTotalLineDetail")@[0]);
    assert(("DescriptionLineDetail")@[0] != ("TaxLineDetail")@[0]);
    assert(("DetailType")@[1] != ("DiscountLineDetail")@[1]);
    assert(("DetailType")@[0] != ("GroupItemRef")@[0]);
    assert(("DetailType")@[0] != ("GroupLineDetail")@[0]);
    assert(("DetailType")@[0] != ("Id")@[0]);
    assert(("DetailType")@[0] != ("ItemBasedExpenseLineDetail")@[0]);
    assert(("DetailType")@[0] != ("Line")@[0]);
    assert(("DetailType")@[0] != ("LinkedTxn")@[0]);
    assert(("DetailType")@[0] != ("Quantity")@[0]);
    assert(("DetailType")@[0] != ("SalesItemLineDetail")@[0]);
    assert(("DetailType")@[0] != ("SubTotalLineDetail")@[0]);
    assert(("DetailType")@[0] != ("TaxLineDetail")@[0]);
    assert(("DiscountLineDetail")@[0] != ("GroupItemRef")@[0]);
    assert(("DiscountLineDetail")@[0] != ("GroupLineDetail")@[0]);
    assert(("DiscountLineDetail")@[0] != ("Id")@[0]);
    assert(("DiscountLineDetail")@[0] != ("ItemBasedExpenseLineDetail")@[0]);
    assert(("DiscountLineDetail")@[0] != ("Line")@[0]);
    assert(("DiscountLineDetail")@[0] != ("LinkedTxn")@[0]);
    assert(("DiscountLineDetail")@[0] != ("Quantity")@[0]);
    assert(("DiscountLineDetail")@[0] != ("SalesItemLineDetail")@[0]);
    assert(("DiscountLineDetail")@[0] != ("SubTotalLineDetail")@[0]);
    assert(("DiscountLineDetail")@[0] != ("TaxLineDetail")@[0]);
    assert(("GroupItemRef")@[5] != ("GroupLineDetail")@[5]);
    assert(("GroupItemRef")@[0] != ("Id")@[0]);
    assert(("GroupItemRef")@[0] != ("ItemBasedExpenseLineDetail")@[0]);
    assert(("GroupItemRef")@[0] != ("Line")@[0]);
    assert(("GroupItemRef")@[0] != ("LinkedTxn")@[0]);
    assert(("GroupItemRef")@[0] != ("Quantity")@[0]);
    assert(("GroupItemRef")@[0] != ("SalesItemLineDetail")@[0]);
    assert(("GroupItemRef")@[0] != ("SubTotalLineDetail")@[0]);
    assert(("GroupItemRef")@[0] != ("TaxLineDetail")@[0]);
    assert(("GroupLineDetail")@[0] != ("Id")@[0]);
    assert(("GroupLineDetail")@[0] != ("ItemBasedExpenseLineDetail")@[0]);
    assert(("GroupLineDetail")@[0] != ("Line")@[0]);
    assert(("GroupLineDetail")@[0] != ("LinkedTxn")@[0]);
    assert(("GroupLineDetail")@[0] != ("Quantity")@[0]);
    assert(("GroupLineDetail")@[0] != ("SalesItemLineDetail")@[0]);
    assert(("GroupLineDetail")@[0] != ("SubTotalLineDetail")@[0]);
    assert(("GroupLineDetail")@[0] != ("TaxLineDetail")@[0]);
    assert(("Id")@[1] != ("ItemBasedExpenseLineDetail")@[1]);
    assert(("Id")@[0] != ("Line")@[0]);
    assert(("Id")@[0] != ("LinkedTxn")@[0]);
    assert(("Id")@[0] != ("Quantity")@[0]);
    assert(("Id")@[0] != ("SalesItemLineDetail")@[0]);
    assert(("Id")@[0] != ("SubTotalLineDetail")@[0]);
    assert(("Id")@[0] != ("TaxLineDetail")@[0]);
    assert(("ItemBasedExpenseLineDetail")@[0] != ("Line")@[0]);
    assert(("ItemBasedExpenseLineDetail")@[0] != ("LinkedTxn")@[0]);
    assert(("ItemBasedExpenseLineDetail")@[0] != ("Quantity")@[0]);
    assert(("ItemBasedExpenseLineDetail")@[0] != ("SalesItemLineDetail")@[0]);
    assert(("ItemBasedExpenseLineDetail")@[0] != ("SubTotalLineDetail")@[0]);
    assert(("ItemBasedExpenseLineDetail")@[0] != ("TaxLineDetail")@[0]);
    assert(("Line")@[3] != ("LinkedTxn")@[3]);
    assert(("Line")@[0] != ("Quantity")@[0]);
    assert(("Line")@[0] != ("SalesItemLineDetail")@[0]);
    assert(("Line")@[0] != ("SubTotalLineDetail")@[0]);
    assert(("Line")@[0] != ("TaxLineDetail")@[0]);
    assert(("LinkedTxn")@[0] != ("Quantity")@[0]);
    assert(("LinkedTxn")@[0] != ("SalesItemLineDetail")@[0]);
    assert(("LinkedTxn")@[0] != ("SubTotalLineDetail")@[0]);
    assert(("LinkedTxn")@[0] != ("TaxLineDetail")@[0]);
    assert(("Quantity")@[0] != ("SalesItemLineDetail")@[0]);
    assert(("Quantity")@[0] != ("SubTotalLineDetail")@[0]);
    assert(("Quantity")@[0] != ("TaxLineDetail")@[0]);
    assert(("SalesItemLineDetail")@[1] != ("SubTotalLineDetail")@[1]);
    assert(("SalesItemLineDetail")@[0] != ("TaxLineDetail")@[0]);
    assert(("SubTotalLineDetail")@[0] != ("TaxLineDetail")@[0]);
    lemma_get_empty();
    match l.amount {
        Some(x) => lemma_get_fld(("Amount")@, WireValueView::Num(x)),
        None => (),
    }
    match l.description {
        Some(x) => lemma_get_fld(("Description")@, WireValueView::Str(x)),
        None => (),
    }
    match l.id {
        Some(x) => lemma_get_fld(("Id")@, WireValueView::Str(x)),
        None => (),
    }
    match l.linked_txn {
        Some(ts) => lemma_get_fld(("LinkedTxn")@, WireValueView::Arr(enc_txns(ts))),
        None => (),
    }
    let dseg = enc_detail(l.line_detail);
    lemma_concat_all(dseg, opt_num_fld(("Amount")@, l.amount));
    lemma_concat_all(
        dseg + opt_num_fld(("Amount")@, l.amount),
        opt_str_fld(("Description")@, l.description),
    );
    lemma_concat_all(
        dseg + opt_num_fld(("Amount")@, l.amount) + opt_str_fld(("Description")@, l.description),
        opt_str_fld(("Id")@, l.id),
    );
    lemma_concat_all(
        dseg + opt_num_fld(("Amount")@, l.amount) + opt_str_fld(("Description")@, l.description)
            + opt_str_fld(("Id")@, l.id),
        opt_txns_fld(("LinkedTxn")@, l.linked_txn),
    );
    match l.line_detail {
        LineDetailView::SalesItemLineDetail(p) => {
            lemma_get_fld(("SalesItemLineDetail")@, WireValueView::Obj(enc_sales(p)));
            lemma_get_fld(("DetailType")@, WireValueView::Str(("SalesItemLineDetail")@));
            lemma_concat_all(
                fld(("SalesItemLineDetail")@, WireValueView::Obj(enc_sales(p))),
                fld(("DetailType")@, WireValueView::Str(("SalesItemLineDetail")@)),
            );
            lemma_sales_roundtrip(p);
        },
        LineDetailView::DescriptionLineDetail(p) => {
            lemma_get_fld(("DescriptionLineDetail")@, WireValueView::Obj(enc_description(p)));
            lemma_get_fld(("DetailType")@, WireValueView::Str(("DescriptionLineDetail")@));
            lemma_concat_all(
                fld(("DescriptionLineDetail")@, WireValueView::Obj(enc_description(p))),
                fld(("DetailType")@, WireValueView::Str(("DescriptionLineDetail")@)),
            );
            lemma_description_roundtrip(p);
        },
        LineDetailView::DiscountLineDetail(p) => {
            lemma_get_fld(("DiscountLineDetail")@, WireValueView::Obj(enc_discount(p)));
            lemma_get_fld(("DetailType")@, WireValueView::Str(("DiscountLineDetail")@));
            lemma_concat_all(
                fld(("DiscountLineDetail")@, WireValueView::Obj(enc_discount(p))),
                fld(("DetailType")@, WireValueView::Str(("DiscountLineDetail")@)),
            );
            lemma_discount_roundtrip(p);
        },
        LineDetailView::SubTotalLineDetail(p) => {
            lemma_get_fld(("SubTotalLineDetail")@, WireValueView::Obj(enc_subtotal(p)));
            lemma_get_fld(("DetailType")@, WireValueView::Str(("SubTotalLineDetail")@));
            lemma_concat_all(
                fld(("SubTotalLineDetail")@, WireValueView::Obj(enc_subtotal(p))),
                fld(("DetailType")@, WireValueView::Str(("SubTotalLineDetail")@)),
            );
            lemma_subtotal_roundtrip(p);
        },
        LineDetailView::ItemBasedExpenseLineDetail(p) => {
            lemma_get_fld(("ItemBasedExpenseLineDetail")@, WireValueView::Obj(enc_item_expense(p)));
            lemma_get_fld(("DetailType")@, WireValueView::Str(("ItemBasedExpenseLineDetail")@));
            lemma_concat_all(
                fld(("ItemBasedExpenseLineDetail")@, WireValueView::Obj(enc_item_expense(p))),
                fld(("DetailType")@, WireValueView::Str(("ItemBasedExpenseLineDetail")@)),
            );
            lemma_item_expense_roundtrip(p);
        },
        LineDetailView::AccountBasedExpenseLineDetail(p) => {
            lemma_get_fld(("AccountBasedExpenseLineDetail")@, WireValueView::Obj(enc_account_expense(p)));
            lemma_get_fld(("DetailType")@, WireValueView::Str(("AccountBasedExpenseLineDetail")@));
            lemma_concat_all(
                fld(("AccountBasedExpenseLineDetail")@, WireValueView::Obj(enc_account_expense(p))),
                fld(("DetailType")@, WireValueView::Str(("AccountBasedExpenseLineDetail")@)),
            );
            lemma_account_expense_roundtrip(p);
        },
        LineDetailView::TaxLineDetail(p) => {
            lemma_get_fld(("TaxLineDetail")@, WireValueView::Obj(enc_tax(p)));
            lemma_get_fld(("DetailType")@, WireValueView::Str(("TaxLineDetail")@));
            lemma_concat_all(
                fld(("TaxLineDetail")@, WireValueView::Obj(enc_tax(p))),
                fld(("DetailType")@, WireValueView::Str(("TaxLineDetail")@)),
            );
            lemma_tax_roundtrip(p);
        },
        LineDetailView::GroupLineDetail(g) => {
            let po = fld(("Quantity")@, WireValueView::Num(g.quantity)) + fld(
                ("Line")@,
                WireValueView::Arr(enc_lines(g.line)),
            ) + req_ref_fld(("GroupItemRef")@, g.group_item_ref);
            lemma_get_fld(("GroupLineDetail")@, WireValueView::Obj(po));
            lemma_get_fld(("DetailType")@, WireValueView::Str(("GroupLineDetail")@));
            lemma_concat_all(
                fld(("GroupLineDetail")@, WireValueView::Obj(po)),
                fld(("DetailType")@, WireValueView::Str(("GroupLineDetail")@)),
            );
            lemma_get_fld(("Quantity")@, WireValueView::Num(g.quantity));
            lemma_get_fld(("Line")@, WireValueView::Arr(enc_lines(g.line)));
            lemma_get_fld(("GroupItemRef")@, WireValueView::Obj(enc_ref(g.group_item_ref)));
            lemma_concat_all(
                fld(("Quantity")@, WireValueView::Num(g.quantity)),
                fld(("Line")@, WireValueView::Arr(enc_lines(g.line))),
            );
            lemma_concat_all(
                fld(("Quantity")@, WireValueView::Num(g.quantity)) + fld(
                    ("Line")@,
                    WireValueView::Arr(enc_lines(g.line)),
                ),
                req_ref_fld(("GroupItemRef")@, g.group_item_ref),
            );
            lemma_ref_roundtrip(g.group_item_ref);
            lemma_lines_roundtrip(g.line);
        },
        LineDetailView::Empty => (),
    }
    match l.linked_txn {
        Some(ts) => lemma_txns_roundtrip(ts),
        None => (),
    }
}

/// Decoding an encoded row list gives the list back.
pub proof fn lemma_lines_roundtrip(ls: Seq<LineView>)
    requires
        forall|i: int| 0 <= i < ls.len() ==> line_encodable(#[trigger] ls[i]),
        forall|i: int| 0 <= i < ls.len() ==> line_wf(#[trigger] ls[i]),
    ensures
        dec_lines(enc_lines(ls)) == Ok::<Seq<LineView>, DecodeError>(ls),
    decreases ls,
{
    if ls.len() == 0 {
        assert(enc_lines(ls) =~= Seq::<WireValueView>::empty());
        assert(dec_lines(enc_lines(ls)) == Ok::<Seq<LineView>, DecodeError>(Seq::empty()));
        assert(ls =~= Seq::<LineView>::empty());
    } else {
        lemma_line_roundtrip(ls[0]);
        lemma_lines_roundtrip(ls.drop_first());
        assert(enc_lines(ls)[0] == spec_enc_line(ls[0]));
        assert(enc_lines(ls).drop_first() =~= enc_lines(ls.drop_first()));
        assert(seq![ls[0]] + ls.drop_first() =~= ls);
    }
}

/// Encoding any row with a concrete detail emits a `DetailType` field whose
/// string value is the detail's canonical name.
#[verifier::rlimit(100)]
pub proof fn lemma_detail_type_emitted(l: LineView)
    requires
        line_encodable(l),
    ensures
        spec_enc_line(l) matches WireValueView::Obj(o) && sobj_get(o, ("DetailType")@) == Some(
            WireValueView::Str(detail_name(l.line_detail)),
        ),
{
    reveal_strlit("AccountBasedExpenseLineDetail");
    reveal_strlit("Amount");
    reveal_strlit("Description");
    reveal_strlit("DescriptionLineDetail");
    reveal_strlit("DetailType");
    reveal_strlit("DiscountLineDetail");
    reveal_strlit("GroupItemRef");
    reveal_strlit("GroupLineDetail");
    reveal_strlit("Id");
    reveal_strlit("ItemBasedExpenseLineDetail");
    reveal_strlit("Line");
    reveal_strlit("LinkedTxn");
    reveal_strlit("Quantity");
    reveal_strlit("SalesItemLineDetail");
    reveal_strlit("SubTotalLineDetail");
    reveal_strlit("TaxLineDetail");
    assert(("AccountBasedExpenseLineDetail")@[1] != ("Amount")@[1]);
    assert(("AccountBasedExpenseLineDetail")@[0] != ("Description")@[0]);
    assert(("AccountBasedExpenseLineDetail")@[0] != ("DescriptionLineDetail")@[0]);
    assert(("AccountBasedExpenseLineDetail")@[0] != ("DetailType")@[0]);
    assert(("AccountBasedExpenseLineDetail")@[0] != ("DiscountLineDetail")@[0]);
    assert(("AccountBasedExpenseLineDetail")@[0] != ("GroupItemRef")@[0]);
    assert(("AccountBasedExpenseLineDetail")@[0] != ("GroupLineDetail")@[0]);
    assert(("AccountBasedExpenseLineDetail")@[0] != ("Id")@[0]);
    assert(("AccountBasedExpenseLineDetail")@[0] != ("ItemBasedExpenseLineDetail")@[0]);
    assert(("AccountBasedExpenseLineDetail")@[0] != ("Line")@[0]);
    assert(("AccountBasedExpenseLineDetail")@[0] != ("LinkedTxn")@[0]);
    assert(("AccountBasedExpenseLineDetail")@[0] != ("Quantity")@[0]);
    assert(("AccountBasedExpenseLineDetail")@[0] != ("SalesItemLineDetail")@[0]);
    assert(("AccountBasedExpenseLineDetail")@[0] != ("SubTotalLineDetail")@[0]);
    assert(("AccountBasedExpenseLineDetail")@[0] != ("TaxLineDetail")@[0]);
    assert(("Amount")@[0] != ("Description")@[0]);
    assert(("Amount")@[0] != ("DescriptionLineDetail")@[0]);
    assert(("Amount")@[0] != ("DetailType")@[0]);
    assert(("Amount")@[0] != ("DiscountLineDetail")@[0]);
    assert(("Amount")@[0] != ("GroupItemRef")@[0]);
    assert(("Amount")@[0] != ("GroupLineDetail")@[0]);
    assert(("Amount")@[0] != ("Id")@[0]);
    assert(("Amount")@[0] != ("ItemBasedExpenseLineDetail")@[0]);
    assert(("Amount")@[0] != ("Line")@[0]);
    assert(("Amount")@[0] != ("LinkedTxn")@[0]);
    assert(("Amount")@[0] != ("Quantity")@[0]);
    assert(("Amount")@[0] != ("SalesItemLineDetail")@[0]);
    assert(("Amount")@[0] != ("SubTotalLineDetail")@[0]);
    assert(("Amount")@[0] != ("TaxLineDetail")@[0]);
    assert(("Description")@.len() != ("DescriptionLineDetail")@.len());
    assert(("Description")@[2] != ("DetailType")@[2]);
    assert(("Description")@[1] != ("DiscountLineDetail")@[1]);
    assert(("Description")@[0] != ("GroupItemRef")@[0]);
    assert(("Description")@[0] != ("GroupLineDetail")@[0]);
    assert(("Description")@[0] != ("Id")@[0]);
    assert(("Description")@[0] != ("ItemBasedExpenseLineDetail")@[0]);
    assert(("Description")@[0] != ("Line")@[0]);
    assert(("Description")@[0] != ("LinkedTxn")@[0]);
    assert(("Description")@[0] != ("Quantity")@[0]);
    assert(("Description")@[0] != ("SalesItemLineDetail")@[0]);
    assert(("Description")@[0] != ("SubTotalLineDetail")@[0]);
    assert(("Description")@[0] != ("TaxLineDetail")@[0]);
    assert(("DescriptionLineDetail")@[2] != ("DetailType")@[2]);
    assert(("DescriptionLineDetail")@[1] != ("DiscountLineDetail")@[1]);
    assert(("DescriptionLineDetail")@[0] != ("GroupItemRef")@[0]);
    assert(("DescriptionLineDetail")@[0] != ("GroupLineDetail")@[0]);
    assert(("DescriptionLineDetail")@[0] != ("Id")@[0]);
    assert(("DescriptionLineDetail")@[0] != ("ItemBasedExpenseLineDetail")@[0]);
    assert(("DescriptionLineDetail")@[0] != ("Line")@[0]);
    assert(("DescriptionLineDetail")@[0] != ("LinkedTxn")@[0]);
    assert(("DescriptionLineDetail")@[0] != ("Quantity")@[0]);
    assert(("DescriptionLineDetail")@[0] != ("SalesItemLineDetail")@[0]);
    assert(("DescriptionLineDetail")@[0] != ("SubTotalLineDetail")@[0]);
    assert(("DescriptionLineDetail")@[0] != ("TaxLineDetail")@[0]);
    assert(("DetailType")@[1] != ("DiscountLineDetail")@[1]);
    assert(("DetailType")@[0] != ("GroupItemRef")@[0]);
    assert(("DetailType")@[0] != ("GroupLineDetail")@[0]);
    assert(("DetailType")@[0] != ("Id")@[0]);
    assert(("DetailType")@[0] != ("ItemBasedExpenseLineDetail")@[0]);
    assert(("DetailType")@[0] != ("Line")@[0]);
    assert(("DetailType")@[0] != ("LinkedTxn")@[0]);
    assert(("DetailType")@[0] != ("Quantity")@[0]);
    assert(("DetailType")@[0] != ("SalesItemLineDetail")@[0]);
    assert(("DetailType")@[0] != ("SubTotalLineDetail")@[0]);
    assert(("DetailType")@[0] != ("TaxLineDetail")@[0]);
    assert(("DiscountLineDetail")@[0] != ("GroupItemRef")@[0]);
    assert(("DiscountLineDetail")@[0] != ("GroupLineDetail")@[0]);
    assert(("DiscountLineDetail")@[0] != ("Id")@[0]);
    assert(("DiscountLineDetail")@[0] != ("ItemBasedExpenseLineDetail")@[0]);
    assert(("DiscountLineDetail")@[0] != ("Line")@[0]);
    assert(("DiscountLineDetail")@[0] != ("LinkedTxn")@[0]);
    assert(("DiscountLineDetail")@[0] != ("Quantity")@[0]);
    assert(("DiscountLineDetail")@[0] != ("SalesItemLineDetail")@[0]);
    assert(("DiscountLineDetail")@[0] != ("SubTotalLineDetail")@[0]);
    assert(("DiscountLineDetail")@[0] != ("TaxLineDetail")@[0]);
    assert(("GroupItemRef")@[5] != ("GroupLineDetail")@[5]);
    assert(("GroupItemRef")@[0] != ("Id")@[0]);
    assert(("GroupItemRef")@[0] != ("ItemBasedExpenseLineDetail")@[0]);
    assert(("GroupItemRef")@[0] != ("Line")@[0]);
    assert(("GroupItemRef")@[0] != ("LinkedTxn")@[0]);
    assert(("GroupItemRef")@[0] != ("Quantity")@[0]);
    assert(("GroupItemRef")@[0] != ("SalesItemLineDetail")@[0]);
    assert(("GroupItemRef")@[0] != ("SubTotalLineDetail")@[0]);
    assert(("GroupItemRef")@[0] != ("TaxLineDetail")@[0]);
    assert(("GroupLineDetail")@[0] != ("Id")@[0]);
    assert(("GroupLineDetail")@[0] != ("ItemBasedExpenseLineDetail")@[0]);
    assert(("GroupLineDetail")@[0] != ("Line")@[0]);
    assert(("GroupLineDetail")@[0] != ("LinkedTxn")@[0]);
    assert(("GroupLineDetail")@[0] != ("Quantity")@[0]);
    assert(("GroupLineDetail")@[0] != ("SalesItemLineDetail")@[0]);
    assert(("GroupLineDetail")@[0] != ("SubTotalLineDetail")@[0]);
    assert(("GroupLineDetail")@[0] != ("TaxLineDetail")@[0]);
    assert(("Id")@[1] != ("ItemBasedExpenseLineDetail")@[1]);
    assert(("Id")@[0] != ("Line")@[0]);
    assert(("Id")@[0] != ("LinkedTxn")@[0]);
    assert(("Id")@[0] != ("Quantity")@[0]);
    assert(("Id")@[0] != ("SalesItemLineDetail")@[0]);
    assert(("Id")@[0] != ("SubTotalLineDetail")@[0]);
    assert(("Id")@[0] != ("TaxLineDetail")@[0]);
    assert(("ItemBasedExpenseLineDetail")@[0] != ("Line")@[0]);
    assert(("ItemBasedExpenseLineDetail")@[0] != ("LinkedTxn")@[0]);
    assert(("ItemBasedExpenseLineDetail")@[0] != ("Quantity")@[0]);
    assert(("ItemBasedExpenseLineDetail")@[0] != ("SalesItemLineDetail")@[0]);
    assert(("ItemBasedExpenseLineDetail")@[0] != ("SubTotalLineDetail")@[0]);
    assert(("ItemBasedExpenseLineDetail")@[0] != ("TaxLineDetail")@[0]);
    assert(("Line")@[3] != ("LinkedTxn")@[3]);
    assert(("Line")@[0] != ("Quantity")@[0]);
    assert(("Line")@[0] != ("SalesItemLineDetail")@[0]);
    assert(("Line")@[0] != ("SubTotalLineDetail")@[0]);
    assert(("Line")@[0] != ("TaxLineDetail")@[0]);
    assert(("LinkedTxn")@[0] != ("Quantity")@[0]);
    assert(("LinkedTxn")@[0] != ("SalesItemLineDetail")@[0]);
    assert(("LinkedTxn")@[0] != ("SubTotalLineDetail")@[0]);
    assert(("LinkedTxn")@[0] != ("TaxLineDetail")@[0]);
    assert(("Quantity")@[0] != ("SalesItemLineDetail")@[0]);
    assert(("Quantity")@[0] != ("SubTotalLineDetail")@[0]);
    assert(("Quantity")@[0] != ("TaxLineDetail")@[0]);
    assert(("SalesItemLineDetail")@[1] != ("SubTotalLineDetail")@[1]);
    assert(("SalesItemLineDetail")@[0] != ("TaxLineDetail")@[0]);
    assert(("SubTotalLineDetail")@[0] != ("TaxLineDetail")@[0]);
    lemma_get_empty();
    match l.amount {
        Some(x) => lemma_get_fld(("Amount")@, WireValueView::Num(x)),
        None => (),
    }
    match l.description {
        Some(x) => lemma_get_fld(("Description")@, WireValueView::Str(x)),
        None => (),
    }
    match l.id {
        Some(x) => lemma_get_fld(("Id")@, WireValueView::Str(x)),
        None => (),
    }
    match l.linked_txn {
        Some(ts) => lemma_get_fld(("LinkedTxn")@, WireValueView::Arr(enc_txns(ts))),
        None => (),
    }
    let dseg = enc_detail(l.line_detail);
    lemma_concat_all(dseg, opt_num_fld(("Amount")@, l.amount));
    lemma_concat_all(
        dseg + opt_num_fld(("Amount")@, l.amount),
        opt_str_fld(("Description")@, l.description),
    );
    lemma_concat_all(
        dseg + opt_num_fld(("Amount")@, l.amount) + opt_str_fld(("Description")@, l.description),
        opt_str_fld(("Id")@, l.id),
    );
    lemma_concat_all(
        dseg + opt_num_fld(("Amount")@, l.amount) + opt_str_fld(("Description")@, l.description)
            + opt_str_fld(("Id")@, l.id),
        opt_txns_fld(("LinkedTxn")@, l.linked_txn),
    );
    match l.line_detail {
        LineDetailView::SalesItemLineDetail(p) => {
            lemma_get_fld(("SalesItemLineDetail")@, WireValueView::Obj(enc_sales(p)));
            lemma_get_fld(("DetailType")@, WireValueView::Str(("SalesItemLineDetail")@));
            lemma_concat_all(
                fld(("SalesItemLineDetail")@, WireValueView::Obj(enc_sales(p))),
                fld(("DetailType")@, WireValueView::Str(("SalesItemLineDetail")@)),
            );
        },
        LineDetailView::DescriptionLineDetail(p) => {
            lemma_get_fld(("DescriptionLineDetail")@, WireValueView::Obj(enc_description(p)));
            lemma_get_fld(("DetailType")@, WireValueView::Str(("DescriptionLineDetail")@));
            lemma_concat_all(
                fld(("DescriptionLineDetail")@, WireValueView::Obj(enc_description(p))),
                fld(("DetailType")@, WireValueView::Str(("DescriptionLineDetail")@)),
            );
        },
        LineDetailView::DiscountLineDetail(p) => {
            lemma_get_fld(("DiscountLineDetail")@, WireValueView::Obj(enc_discount(p)));
            lemma_get_fld(("DetailType")@, WireValueView::Str(("DiscountLineDetail")@));
            lemma_concat_all(
                fld(("DiscountLineDetail")@, WireValueView::Obj(enc_discount(p))),
                fld(("DetailType")@, WireValueView::Str(("DiscountLineDetail")@)),
            );
        },
        LineDetailView::SubTotalLineDetail(p) => {
            lemma_get_fld(("SubTotalLineDetail")@, WireValueView::Obj(enc_subtotal(p)));
            lemma_get_fld(("DetailType")@, WireValueView::Str(("SubTotalLineDetail")@));
            lemma_concat_all(
                fld(("SubTotalLineDetail")@, WireValueView::Obj(enc_subtotal(p))),
                fld(("DetailType")@, WireValueView::Str(("SubTotalLineDetail")@)),
            );
        },
        LineDetailView::ItemBasedExpenseLineDetail(p) => {
            lemma_get_fld(("ItemBasedExpenseLineDetail")@, WireValueView::Obj(enc_item_expense(p)));
            lemma_get_fld(("DetailType")@, WireValueView::Str(("ItemBasedExpenseLineDetail")@));
            lemma_concat_all(
                fld(("ItemBasedExpenseLineDetail")@, WireValueView::Obj(enc_item_expense(p))),
                fld(("DetailType")@, WireValueView::Str(("ItemBasedExpenseLineDetail")@)),
            );
        },
        LineDetailView::AccountBasedExpenseLineDetail(p) => {
            lemma_get_fld(("AccountBasedExpenseLineDetail")@, WireValueView::Obj(enc_account_expense(p)));
            lemma_get_fld(("DetailType")@, WireValueView::Str(("AccountBasedExpenseLineDetail")@));
            lemma_concat_all(
                fld(("AccountBasedExpenseLineDetail")@, WireValueView::Obj(enc_account_expense(p))),
                fld(("DetailType")@, WireValueView::Str(("AccountBasedExpenseLineDetail")@)),
            );
        },
        LineDetailView::TaxLineDetail(p) => {
            lemma_get_fld(("TaxLineDetail")@, WireValueView::Obj(enc_tax(p)));
            lemma_get_fld(("DetailType")@, WireValueView::Str(("TaxLineDetail")@));
            lemma_concat_all(
                fld(("TaxLineDetail")@, WireValueView::Obj(enc_tax(p))),
                fld(("DetailType")@, WireValueView::Str(("TaxLineDetail")@)),
            );
        },
        LineDetailView::GroupLineDetail(g) => {
            let po = fld(("Quantity")@, WireValueView::Num(g.quantity)) + fld(
                ("Line")@,
                WireValueView::Arr(enc_lines(g.line)),
            ) + req_ref_fld(("GroupItemRef")@, g.group_item_ref);
            lemma_get_fld(("GroupLineDetail")@, WireValueView::Obj(po));
            lemma_get_fld(("DetailType")@, WireValueView::Str(("GroupLineDetail")@));
            lemma_concat_all(
                fld(("GroupLineDetail")@, WireValueView::Obj(po)),
                fld(("DetailType")@, WireValueView::Str(("GroupLineDetail")@)),
            );
            lemma_get_fld(("Quantity")@, WireValueView::Num(g.quantity));
            lemma_get_fld(("Line")@, WireValueView::Arr(enc_lines(g.line)));
            lemma_get_fld(("GroupItemRef")@, WireValueView::Obj(enc_ref(g.group_item_ref)));
            lemma_concat_all(
                fld(("Quantity")@, WireValueView::Num(g.quantity)),
                fld(("Line")@, WireValueView::Arr(enc_lines(g.line))),
            );
            lemma_concat_all(
                fld(("Quantity")@, WireValueView::Num(g.quantity)) + fld(
                    ("Line")@,
                    WireValueView::Arr(enc_lines(g.line)),
                ),
                req_ref_fld(("GroupItemRef")@, g.group_item_ref),
            );
        },
        LineDetailView::Empty => (),
    }
}



// ------------------------------------------------------------------
// Executable encoding
// ------------------------------------------------------------------

/// Appends one keyed field.
fn push_field(fields: &mut Vec<WireField>, key: &str, value: WireValue)
    ensures
        view_fields(final(fields)@) == view_fields(old(fields)@) + fld(key@, value@),
{
    let ghost v0 = value@;
    fields.push(WireField { key: key.to_owned(), value });
    proof {
        assert(view_fields(fields@) =~= view_fields(old(fields)@) + fld(key@, v0));
    }
}

/// Encodes a reference's fields.
fn encode_ref(r: &NtRef) -> (out: Vec<WireField>)
    ensures
        view_fields(out@) == enc_ref(r@),
{
    let mut fields: Vec<WireField> = Vec::new();
    match &r.entity_ref_type {
        Some(x) => push_field(&mut fields, "type", WireValue::Str(x.clone())),
        None => (),
    }
    proof {
        assert(view_fields(fields@) =~= opt_str_fld(("type")@, view_opt_str(r.entity_ref_type)));
    }
    match &r.name {
        Some(x) => push_field(&mut fields, "name", WireValue::Str(x.clone())),
        None => (),
    }
    proof {
        assert(view_fields(fields@) =~= opt_str_fld(("type")@, view_opt_str(r.entity_ref_type))
            + opt_str_fld(("name")@, view_opt_str(r.name)));
    }
    match &r.value {
        Some(x) => push_field(&mut fields, "value", WireValue::Str(x.clone())),
        None => (),
    }
    proof {
        assert(view_fields(fields@) =~= enc_ref(r@));
    }
    fields
}

/// The wire string of a billable status.
fn billable_str(b: &BillableStatus) -> (r: String)
    ensures
        r@ == billable_chars(*b),
{
    match b {
        BillableStatus::Billable => "Billable".to_owned(),
        BillableStatus::NotBillable => "NotBillable".to_owned(),
        BillableStatus::HasBeenBilled => "HasBeenBilled".to_owned(),
    }
}

/// Encodes a payload of this shape.
#[verifier::rlimit(100)]
fn encode_sales(d: &SalesItemLineDetail) -> (r: Result<Vec<WireField>, EncodeError>)
    ensures
        r is Ok <==> sales_wf(d@),
        r matches Ok(out) ==> view_fields(out@) == enc_sales(d@),
        r matches Err(e) ==> e == EncodeError::InvalidDate,
{
    let mut fields: Vec<WireField> = Vec::new();
    match &d.tax_inclusive_amt {
        Some(x) => push_field(&mut fields, "TaxInclusiveAmt", WireValue::Num(*x)),
        None => (),
    }
    proof {
        assert(view_fields(fields@) =~= opt_num_fld(("TaxInclusiveAmt")@, d.tax_inclusive_amt));
    }
    match &d.discount_amt {
        Some(x) => push_field(&mut fields, "DiscountAmt", WireValue::Num(*x)),
        None => (),
    }
    proof {
        assert(view_fields(fields@) =~= opt_num_fld(("TaxInclusiveAmt")@, d.tax_inclusive_amt) + opt_num_fld(("DiscountAmt")@, d.discount_amt));
    }
    match &d.item_ref {
        Some(x) => push_field(&mut fields, "ItemRef", WireValue::Obj(encode_ref(x))),
        None => (),
    }
    proof {
        assert(view_fields(fields@) =~= opt_num_fld(("TaxInclusiveAmt")@, d.tax_inclusive_amt) + opt_num_fld(("DiscountAmt")@, d.discount_amt) + opt_ref_fld(("ItemRef")@, view_opt_ref(d.item_ref)));
    }
    match &d.class_ref {
        Some(x) => push_field(&mut fields, "ClassRef", WireValue::Obj(encode_ref(x))),
        None => (),
    }
    proof {
        assert(view_fields(fields@) =~= opt_num_fld(("TaxInclusiveAmt")@, d.tax_inclusive_amt) + opt_num_fld(("DiscountAmt")@, d.discount_amt) + opt_ref_fld(("ItemRef")@, view_opt_ref(d.item_ref)) + opt_ref_fld(("ClassRef")@, view_opt_ref(d.class_ref)));
    }
    match &d.tax_code_ref {
        Some(x) => push_field(&mut fields, "TaxCodeRef", WireValue::Obj(encode_ref(x))),
        None => (),
    }
    proof {
        assert(view_fields(fields@) =~= opt_num_fld(("TaxInclusiveAmt")@, d.tax_inclusive_amt) + opt_num_fld(("DiscountAmt")@, d.discount_amt) + opt_ref_fld(("ItemRef")@, view_opt_ref(d.item_ref)) + opt_ref_fld(("ClassRef")@, view_opt_ref(d.class_ref)) + opt_ref_fld(("TaxCodeRef")@, view_opt_ref(d.tax_code_ref)));
    }
    match &d.service_date {
        Some(x) => {
            if !x.valid() {
                return Err(EncodeError::InvalidDate);
            }
            push_field(&mut fields, "ServiceDate", WireValue::Str(date_to_string(x)));
        },
        None => (),
    }
    proof {
        assert(view_fields(fields@) =~= opt_num_fld(("TaxInclusiveAmt")@, d.tax_inclusive_amt) + opt_num_fld(("DiscountAmt")@, d.discount_amt) + opt_ref_fld(("ItemRef")@, view_opt_ref(d.item_ref)) + opt_ref_fld(("ClassRef")@, view_opt_ref(d.class_ref)) + opt_ref_fld(("TaxCodeRef")@, view_opt_ref(d.tax_code_ref)) + opt_date_fld(("ServiceDate")@, d.service_date));
    }
    match &d.discount_rate {
        Some(x) => push_field(&mut fields, "DiscountRate", WireValue::Num(*x)),
        None => (),
    }
    proof {
        assert(view_fields(fields@) =~= opt_num_fld(("TaxInclusiveAmt")@, d.tax_inclusive_amt) + opt_num_fld(("DiscountAmt")@, d.discount_amt) + opt_ref_fld(("ItemRef")@, view_opt_ref(d.item_ref)) + opt_ref_fld(("ClassRef")@, view_opt_ref(d.class_ref)) + opt_ref_fld(("TaxCodeRef")@, view_opt_ref(d.tax_code_ref)) + opt_date_fld(("ServiceDate")@, d.service_date) + opt_num_fld(("DiscountRate")@, d.discount_rate));
    }
    match &d.qty {
        Some(x) => push_field(&mut fields, "Qty", WireValue::Num(*x)),
        None => (),
    }
    proof {
        assert(view_fields(fields@) =~= opt_num_fld(("TaxInclusiveAmt")@, d.tax_inclusive_amt) + opt_num_fld(("DiscountAmt")@, d.discount_amt) + opt_ref_fld(("ItemRef")@, view_opt_ref(d.item_ref)) + opt_ref_fld(("ClassRef")@, view_opt_ref(d.class_ref)) + opt_ref_fld(("TaxCodeRef")@, view_opt_ref(d.tax_code_ref)) + opt_date_fld(("ServiceDate")@, d.service_date) + opt_num_fld(("DiscountRate")@, d.discount_rate) + opt_num_fld(("Qty")@, d.qty));
    }
    match &d.unit_price {
        Some(x) => push_field(&mut fields, "UnitPrice", WireValue::Num(*x)),
        None => (),
    }
    proof {
        assert(view_fields(fields@) =~= opt_num_fld(("TaxInclusiveAmt")@, d.tax_inclusive_amt) + opt_num_fld(("DiscountAmt")@, d.discount_amt) + opt_ref_fld(("ItemRef")@, view_opt_ref(d.item_ref)) + opt_ref_fld(("ClassRef")@, view_opt_ref(d.class_ref)) + opt_ref_fld(("TaxCodeRef")@, view_opt_ref(d.tax_code_ref)) + opt_date_fld(("ServiceDate")@, d.service_date) + opt_num_fld(("DiscountRate")@, d.discount_rate) + opt_num_fld(("Qty")@, d.qty) + opt_num_fld(("UnitPrice")@, d.unit_price));
    }
    match &d.tax_classification_ref {
        Some(x) => push_field(&mut fields, "TaxClassificationRef", WireValue::Obj(encode_ref(x))),
        None => (),
    }
    proof {
        assert(view_fields(fields@) =~= opt_num_fld(("TaxInclusiveAmt")@, d.tax_inclusive_amt) + opt_num_fld(("DiscountAmt")@, d.discount_amt) + opt_ref_fld(("ItemRef")@, view_opt_ref(d.item_ref)) + opt_ref_fld(("ClassRef")@, view_opt_ref(d.class_ref)) + opt_ref_fld(("TaxCodeRef")@, view_opt_ref(d.tax_code_ref)) + opt_date_fld(("ServiceDate")@, d.service_date) + opt_num_fld(("DiscountRate")@, d.discount_rate) + opt_num_fld(("Qty")@, d.qty) + opt_num_fld(("UnitPrice")@, d.unit_price) + opt_ref_fld(("TaxClassificationRef")@, view_opt_ref(d.tax_classification_ref)));
    }
    proof {
        assert(view_fields(fields@) =~= enc_sales(d@));
    }
    Ok(fields)
}

/// Encodes a payload of this shape.
fn encode_description(d: &DescriptionLineDetail) -> (r: Result<Vec<WireField>, EncodeError>)
    ensures
        r is Ok <==> d@.service_date.is_valid(),
        r matches Ok(out) ==> view_fields(out@) == enc_description(d@),
        r matches Err(e) ==> e == EncodeError::InvalidDate,
{
    let mut fields: Vec<WireField> = Vec::new();
    push_field(&mut fields, "TaxCodeRef", WireValue::Obj(encode_ref(&d.tax_code_ref)));
    proof {
        assert(view_fields(fields@) =~= req_ref_fld(("TaxCodeRef")@, d.tax_code_ref@));
    }
    if !d.service_date.valid() {
        return Err(EncodeError::InvalidDate);
    }
    push_field(&mut fields, "ServiceDate", WireValue::Str(timestamp_to_string(&d.service_date)));
    proof {
        assert(view_fields(fields@) =~= req_ref_fld(("TaxCodeRef")@, d.tax_code_ref@) + fld(("ServiceDate")@, WireValueView::Str(timestamp_chars(d.service_date))));
    }
    proof {
        assert(view_fields(fields@) =~= enc_description(d@));
    }
    Ok(fields)
}

/// Encodes a payload of this shape.
fn encode_discount(d: &DiscountLineDetail) -> (out: Vec<WireField>)
    ensures
        view_fields(out@) == enc_discount(d@),
{
    let mut fields: Vec<WireField> = Vec::new();
    push_field(&mut fields, "ClassRef", WireValue::Obj(encode_ref(&d.class_ref)));
    proof {
        assert(view_fields(fields@) =~= req_ref_fld(("ClassRef")@, d.class_ref@));
    }
    push_field(&mut fields, "TaxCodeRef", WireValue::Obj(encode_ref(&d.tax_code_ref)));
    proof {
        assert(view_fields(fields@) =~= req_ref_fld(("ClassRef")@, d.class_ref@) + req_ref_fld(("TaxCodeRef")@, d.tax_code_ref@));
    }
    push_field(&mut fields, "DiscountAccountRef", WireValue::Obj(encode_ref(&d.discount_account_ref)));
    proof {
        assert(view_fields(fields@) =~= req_ref_fld(("ClassRef")@, d.class_ref@) + req_ref_fld(("TaxCodeRef")@, d.tax_code_ref@) + req_ref_fld(("DiscountAccountRef")@, d.discount_account_ref@));
    }
    push_field(&mut fields, "PercentBased", WireValue::Bool(d.percent_based));
    proof {
        assert(view_fields(fields@) =~= req_ref_fld(("ClassRef")@, d.class_ref@) + req_ref_fld(("TaxCodeRef")@, d.tax_code_ref@) + req_ref_fld(("DiscountAccountRef")@, d.discount_account_ref@) + fld(("PercentBased")@, WireValueView::Bool(d.percent_based)));
    }
    match &d.discount_percent {
        Some(x) => push_field(&mut fields, "DiscountPercent", WireValue::Num(*x)),
        None => (),
    }
    proof {
        assert(view_fields(fields@) =~= req_ref_fld(("ClassRef")@, d.class_ref@) + req_ref_fld(("TaxCodeRef")@, d.tax_code_ref@) + req_ref_fld(("DiscountAccountRef")@, d.discount_account_ref@) + fld(("PercentBased")@, WireValueView::Bool(d.percent_based)) + opt_num_fld(("DiscountPercent")@, d.discount_percent));
    }
    proof {
        assert(view_fields(fields@) =~= enc_discount(d@));
    }
    fields
}

/// Encodes a payload of this shape.
fn encode_subtotal(d: &SubTotalLineDetail) -> (out: Vec<WireField>)
    ensures
        view_fields(out@) == enc_subtotal(d@),
{
    let mut fields: Vec<WireField> = Vec::new();
    push_field(&mut fields, "ItemRef", WireValue::Obj(encode_ref(&d.item_ref)));
    proof {
        assert(view_fields(fields@) =~= req_ref_fld(("ItemRef")@, d.item_ref@));
    }
    proof {
        assert(view_fields(fields@) =~= enc_subtotal(d@));
    }
    fields
}

/// Encodes a payload of this shape.
fn encode_item_expense(d: &ItemBasedExpenseLineDetail) -> (out: Vec<WireField>)
    ensures
        view_fields(out@) == enc_item_expense(d@),
{
    let mut fields: Vec<WireField> = Vec::new();
    push_field(&mut fields, "TaxInclusiveAmt", WireValue::Num(d.tax_inclusive_amt));
    proof {
        assert(view_fields(fields@) =~= fld(("TaxInclusiveAmt")@, WireValueView::Num(d.tax_inclusive_amt)));
    }
    push_field(&mut fields, "ItemRef", WireValue::Obj(encode_ref(&d.item_ref)));
    proof {
        assert(view_fields(fields@) =~= fld(("TaxInclusiveAmt")@, WireValueView::Num(d.tax_inclusive_amt)) + req_ref_fld(("ItemRef")@, d.item_ref@));
    }
    push_field(&mut fields, "CustomerRef", WireValue::Obj(encode_ref(&d.customer_ref)));
    proof {
        assert(view_fields(fields@) =~= fld(("TaxInclusiveAmt")@, WireValueView::Num(d.tax_inclusive_amt)) + req_ref_fld(("ItemRef")@, d.item_ref@) + req_ref_fld(("CustomerRef")@, d.customer_ref@));
    }
    push_field(&mut fields, "PriceLevelRef", WireValue::Obj(encode_ref(&d.price_level_ref)));
    proof {
        assert(view_fields(fields@) =~= fld(("TaxInclusiveAmt")@, WireValueView::Num(d.tax_inclusive_amt)) + req_ref_fld(("ItemRef")@, d.item_ref@) + req_ref_fld(("CustomerRef")@, d.customer_ref@) + req_ref_fld(("PriceLevelRef")@, d.price_level_ref@));
    }
    push_field(&mut fields, "ClassRef", WireValue::Obj(encode_ref(&d.class_ref)));
    proof {
        assert(view_fields(fields@) =~= fld(("TaxInclusiveAmt")@, WireValueView::Num(d.tax_inclusive_amt)) + req_ref_fld(("ItemRef")@, d.item_ref@) + req_ref_fld(("CustomerRef")@, d.customer_ref@) + req_ref_fld(("PriceLevelRef")@, d.price_level_ref@) + req_ref_fld(("ClassRef")@, d.class_ref@));
    }
    push_field(&mut fields, "TaxCodeRef", WireValue::Obj(encode_ref(&d.tax_code_ref)));
    proof {
        assert(view_fields(fields@) =~= fld(("TaxInclusiveAmt")@, WireValueView::Num(d.tax_inclusive_amt)) + req_ref_fld(("ItemRef")@, d.item_ref@) + req_ref_fld(("CustomerRef")@, d.customer_ref@) + req_ref_fld(("PriceLevelRef")@, d.price_level_ref@) + req_ref_fld(("ClassRef")@, d.class_ref@) + req_ref_fld(("TaxCodeRef")@, d.tax_code_ref@));
    }
    push_field(&mut fields, "BillableStatus", WireValue::Str(billable_str(&d.billable_status)));
    proof {
        assert(view_fields(fields@) =~= fld(("TaxInclusiveAmt")@, WireValueView::Num(d.tax_inclusive_amt)) + req_ref_fld(("ItemRef")@, d.item_ref@) + req_ref_fld(("CustomerRef")@, d.customer_ref@) + req_ref_fld(("PriceLevelRef")@, d.price_level_ref@) + req_ref_fld(("ClassRef")@, d.class_ref@) + req_ref_fld(("TaxCodeRef")@, d.tax_code_ref@) + fld(("BillableStatus")@, WireValueView::Str(billable_chars(d.billable_status))));
    }
    push_field(&mut fields, "Qty", WireValue::Num(d.qty));
    proof {
        assert(view_fields(fields@) =~= fld(("TaxInclusiveAmt")@, WireValueView::Num(d.tax_inclusive_amt)) + req_ref_fld(("ItemRef")@, d.item_ref@) + req_ref_fld(("CustomerRef")@, d.customer_ref@) + req_ref_fld(("PriceLevelRef")@, d.price_level_ref@) + req_ref_fld(("ClassRef")@, d.class_ref@) + req_ref_fld(("TaxCodeRef")@, d.tax_code_ref@) + fld(("BillableStatus")@, WireValueView::Str(billable_chars(d.billable_status))) + fld(("Qty")@, WireValueView::Num(d.qty)));
    }
    push_field(&mut fields, "UnitPrice", WireValue::Num(d.unit_price));
    proof {
        assert(view_fields(fields@) =~= fld(("TaxInclusiveAmt")@, WireValueView::Num(d.tax_inclusive_amt)) + req_ref_fld(("ItemRef")@, d.item_ref@) + req_ref_fld(("CustomerRef")@, d.customer_ref@) + req_ref_fld(("PriceLevelRef")@, d.price_level_ref@) + req_ref_fld(("ClassRef")@, d.class_ref@) + req_ref_fld(("TaxCodeRef")@, d.tax_code_ref@) + fld(("BillableStatus")@, WireValueView::Str(billable_chars(d.billable_status))) + fld(("Qty")@, WireValueView::Num(d.qty)) + fld(("UnitPrice")@, WireValueView::Num(d.unit_price)));
    }
    proof {
        assert(view_fields(fields@) =~= enc_item_expense(d@));
    }
    fields
}

/// Encodes a payload of this shape.
fn encode_account_expense(d: &AccountBasedExpenseLineDetail) -> (out: Vec<WireField>)
    ensures
        view_fields(out@) == enc_account_expense(d@),
{
    let mut fields: Vec<WireField> = Vec::new();
    push_field(&mut fields, "AccountRef", WireValue::Obj(encode_ref(&d.account_ref)));
    proof {
        assert(view_fields(fields@) =~= req_ref_fld(("AccountRef")@, d.account_ref@));
    }
    push_field(&mut fields, "TaxCodeRef", WireValue::Obj(encode_ref(&d.tax_code_ref)));
    proof {
        assert(view_fields(fields@) =~= req_ref_fld(("AccountRef")@, d.account_ref@) + req_ref_fld(("TaxCodeRef")@, d.tax_code_ref@));
    }
    push_field(&mut fields, "TaxAmount", WireValue::Num(d.tax_amount));
    proof {
        assert(view_fields(fields@) =~= req_ref_fld(("AccountRef")@, d.account_ref@) + req_ref_fld(("TaxCodeRef")@, d.tax_code_ref@) + fld(("TaxAmount")@, WireValueView::Num(d.tax_amount)));
    }
    push_field(&mut fields, "TaxInclusiveAmt", WireValue::Num(d.tax_inclusive_amt));
    proof {
        assert(view_fields(fields@) =~= req_ref_fld(("AccountRef")@, d.account_ref@) + req_ref_fld(("TaxCodeRef")@, d.tax_code_ref@) + fld(("TaxAmount")@, WireValueView::Num(d.tax_amount)) + fld(("TaxInclusiveAmt")@, WireValueView::Num(d.tax_inclusive_amt)));
    }
    push_field(&mut fields, "ClassRef", WireValue::Obj(encode_ref(&d.class_ref)));
    proof {
        assert(view_fields(fields@) =~= req_ref_fld(("AccountRef")@, d.account_ref@) + req_ref_fld(("TaxCodeRef")@, d.tax_code_ref@) + fld(("TaxAmount")@, WireValueView::Num(d.tax_amount)) + fld(("TaxInclusiveAmt")@, WireValueView::Num(d.tax_inclusive_amt)) + req_ref_fld(("ClassRef")@, d.class_ref@));
    }
    push_field(&mut fields, "CustomerRef", WireValue::Obj(encode_ref(&d.customer_ref)));
    proof {
        assert(view_fields(fields@) =~= req_ref_fld(("AccountRef")@, d.account_ref@) + req_ref_fld(("TaxCodeRef")@, d.tax_code_ref@) + fld(("TaxAmount")@, WireValueView::Num(d.tax_amount)) + fld(("TaxInclusiveAmt")@, WireValueView::Num(d.tax_inclusive_amt)) + req_ref_fld(("ClassRef")@, d.class_ref@) + req_ref_fld(("CustomerRef")@, d.customer_ref@));
    }
    push_field(&mut fields, "BillableStatus", WireValue::Str(billable_str(&d.billable_status)));
    proof {
        assert(view_fields(fields@) =~= req_ref_fld(("AccountRef")@, d.account_ref@) + req_ref_fld(("TaxCodeRef")@, d.tax_code_ref@) + fld(("TaxAmount")@, WireValueView::Num(d.tax_amount)) + fld(("TaxInclusiveAmt")@, WireValueView::Num(d.tax_inclusive_amt)) + req_ref_fld(("ClassRef")@, d.class_ref@) + req_ref_fld(("CustomerRef")@, d.customer_ref@) + fld(("BillableStatus")@, WireValueView::Str(billable_chars(d.billable_status))));
    }
    proof {
        assert(view_fields(fields@) =~= enc_account_expense(d@));
    }
    fields
}

/// Encodes a payload of this shape.
fn encode_tax(d: &TaxLineDetail) -> (out: Vec<WireField>)
    ensures
        view_fields(out@) == enc_tax(d@),
{
    let mut fields: Vec<WireField> = Vec::new();
    match &d.tax_rate_ref {
        Some(x) => push_field(&mut fields, "TaxRateRef", WireValue::Obj(encode_ref(x))),
        None => (),
    }
    proof {
        assert(view_fields(fields@) =~= opt_ref_fld(("TaxRateRef")@, view_opt_ref(d.tax_rate_ref)));
    }
    match &d.net_amount_taxable {
        Some(x) => push_field(&mut fields, "NetAmountTaxable", WireValue::Num(*x)),
        None => (),
    }
    proof {
        assert(view_fields(fields@) =~= opt_ref_fld(("TaxRateRef")@, view_opt_ref(d.tax_rate_ref)) + opt_num_fld(("NetAmountTaxable")@, d.net_amount_taxable));
    }
    match &d.percent_based {
        Some(x) => push_field(&mut fields, "PercentBased", WireValue::Bool(*x)),
        None => (),
    }
    proof {
        assert(view_fields(fields@) =~= opt_ref_fld(("TaxRateRef")@, view_opt_ref(d.tax_rate_ref)) + opt_num_fld(("NetAmountTaxable")@, d.net_amount_taxable) + opt_bool_fld(("PercentBased")@, d.percent_based));
    }
    match &d.tax_inclusive_amount {
        Some(x) => push_field(&mut fields, "TaxInclusiveAmount", WireValue::Num(*x)),
        None => (),
    }
    proof {
        assert(view_fields(fields@) =~= opt_ref_fld(("TaxRateRef")@, view_opt_ref(d.tax_rate_ref)) + opt_num_fld(("NetAmountTaxable")@, d.net_amount_taxable) + opt_bool_fld(("PercentBased")@, d.percent_based) + opt_num_fld(("TaxInclusiveAmount")@, d.tax_inclusive_amount));
    }
    match &d.override_delta_amount {
        Some(x) => push_field(&mut fields, "OverrideDeltaAmount", WireValue::Num(*x)),
        None => (),
    }
    proof {
        assert(view_fields(fields@) =~= opt_ref_fld(("TaxRateRef")@, view_opt_ref(d.tax_rate_ref)) + opt_num_fld(("NetAmountTaxable")@, d.net_amount_taxable) + opt_bool_fld(("PercentBased")@, d.percent_based) + opt_num_fld(("TaxInclusiveAmount")@, d.tax_inclusive_amount) + opt_num_fld(("OverrideDeltaAmount")@, d.override_delta_amount));
    }
    match &d.tax_percent {
        Some(x) => push_field(&mut fields, "TaxPercent", WireValue::Num(*x)),
        None => (),
    }
    proof {
        assert(view_fields(fields@) =~= opt_ref_fld(("TaxRateRef")@, view_opt_ref(d.tax_rate_ref)) + opt_num_fld(("NetAmountTaxable")@, d.net_amount_taxable) + opt_bool_fld(("PercentBased")@, d.percent_based) + opt_num_fld(("TaxInclusiveAmount")@, d.tax_inclusive_amount) + opt_num_fld(("OverrideDeltaAmount")@, d.override_delta_amount) + opt_num_fld(("TaxPercent")@, d.tax_percent));
    }
    proof {
        assert(view_fields(fields@) =~= enc_tax(d@));
    }
    fields
}


/// Runtime check mirroring [`line_encodable`].
pub fn check_encodable(l: &Line) -> (r: bool)
    ensures
        r == line_encodable(l@),
    decreases l,
{
    match &l.line_detail {
        LineDetail::Empty => false,
        LineDetail::GroupLineDetail(g) => {
            let r = lines_all_encodable(&g.line);
            proof {
                reveal_with_fuel(line_encodable, 2);
                let gv = l@.line_detail->GroupLineDetail_0;
                assert(gv.line == view_lines(g.line@));
                if r {
                    assert forall|i: int| 0 <= i < gv.line.len() implies line_encodable(
                        #[trigger] gv.line[i],
                    ) by {
                        assert(gv.line[i] == g.line@[i]@);
                    }
                    assert(line_encodable(l@));
                } else {
                    let j = choose|j: int|
                        0 <= j < g.line@.len() && !line_encodable(g.line@[j]@);
                    assert(gv.line[j] == g.line@[j]@);
                    assert(!line_encodable(l@));
                }
            }
            r
        },
        _ => true,
    }
}

/// Whether every row of the collection is encodable.
fn lines_all_encodable(ls: &Vec<Line>) -> (r: bool)
    ensures
        r == (forall|i: int| 0 <= i < ls@.len() ==> line_encodable(#[trigger] ls@[i]@)),
    decreases ls,
{
    let mut i: usize = 0;
    while i < ls.len()
        invariant
            i <= ls@.len(),
            forall|j: int| 0 <= j < i ==> line_encodable(#[trigger] ls@[j]@),
        decreases ls@.len() - i,
    {
        if !check_encodable(&ls[i]) {
            return false;
        }
        i = i + 1;
    }
    true
}

/// Encodes a linked transaction's fields.
fn encode_txn(t: &LinkedTxn) -> (out: Vec<WireField>)
    ensures
        view_fields(out@) == enc_txn(t@),
{
    let mut fields: Vec<WireField> = Vec::new();
    match &t.txn_id {
        Some(x) => push_field(&mut fields, "TxnId", WireValue::Str(x.clone())),
        None => (),
    }
    proof {
        assert(view_fields(fields@) =~= opt_str_fld(("TxnId")@, view_opt_str(t.txn_id)));
    }
    match &t.txn_type {
        Some(x) => push_field(&mut fields, "TxnType", WireValue::Str(x.clone())),
        None => (),
    }
    proof {
        assert(view_fields(fields@) =~= enc_txn(t@));
    }
    fields
}

/// Encodes a linked-transaction list.
fn encode_txns(ts: &Vec<LinkedTxn>) -> (out: Vec<WireValue>)
    ensures
        view_values(out@) == enc_txns(view_txns(ts@)),
{
    let mut out: Vec<WireValue> = Vec::new();
    let mut i: usize = 0;
    while i < ts.len()
        invariant
            i <= ts@.len(),
            out@.len() == i,
            forall|j: int|
                0 <= j < i ==> (#[trigger] out@[j])@ == WireValueView::Obj(enc_txn(ts@[j]@)),
        decreases ts@.len() - i,
    {
        out.push(WireValue::Obj(encode_txn(&ts[i])));
        i = i + 1;
    }
    proof {
        assert(view_values(out@) =~= enc_txns(view_txns(ts@)));
    }
    out
}

/// Encodes the rows of the collection from the given position on.
#[verifier::rlimit(100)]
fn encode_lines_from(ls: &Vec<Line>, i: usize) -> (r: Result<Vec<WireValue>, EncodeError>)
    requires
        i <= ls@.len(),
        forall|j: int| 0 <= j < ls@.len() ==> line_encodable(#[trigger] ls@[j]@),
    ensures
        r is Ok <==> (forall|j: int| i <= j < ls@.len() ==> line_wf(#[trigger] ls@[j]@)),
        r matches Ok(out) ==> view_values(out@) == enc_lines(view_lines(ls@)).skip(i as int),
        r matches Err(e) ==> e == EncodeError::InvalidDate,
    decreases ls, ls@.len() - i,
{
    if i == ls.len() {
        let out: Vec<WireValue> = Vec::new();
        proof {
            assert(view_values(out@) =~= enc_lines(view_lines(ls@)).skip(ls@.len() as int));
        }
        return Ok(out);
    }
    let head = match encode_line(&ls[i]) {
        Ok(v) => v,
        Err(_) => { return Err(EncodeError::InvalidDate); },
    };
    let mut rest = match encode_lines_from(ls, i + 1) {
        Ok(v) => v,
        Err(e) => { return Err(e); },
    };
    let mut out: Vec<WireValue> = Vec::new();
    out.push(head);
    let ghost restg = rest@;
    out.append(&mut rest);
    proof {
        assert(view_values(restg).len() == restg.len());
        assert(restg.len() == ls@.len() - i - 1);
        assert(out@ =~= seq![out@[0]] + restg);
        assert forall|j: int|
            0 <= j < out@.len() implies view_values(out@)[j] == enc_lines(
            view_lines(ls@),
        ).skip(i as int)[j] by {
            assert(view_lines(ls@)[i + j] == ls@[i + j]@);
            if j == 0 {
                assert(view_values(out@)[0] == spec_enc_line(ls@[i as int]@));
            } else {
                assert(view_values(restg)[j - 1] == enc_lines(view_lines(ls@)).skip(
                    i as int + 1,
                )[j - 1]);
            }
        }
        assert(view_values(out@) =~= enc_lines(view_lines(ls@)).skip(i as int));
    }
    Ok(out)
}

/// Encodes a concrete detail payload: the payload under its canonical name,
/// then the redundant type tag.
#[verifier::rlimit(100)]
fn encode_detail(d: &LineDetail) -> (r: Result<Vec<WireField>, EncodeError>)
    requires
        detail_encodable(d@),
    ensures
        r is Ok <==> detail_wf(d@),
        r matches Ok(out) ==> view_fields(out@) == enc_detail(d@),
        r matches Err(e) ==> e == EncodeError::InvalidDate,
    decreases d, 0int,
{
    let mut fields: Vec<WireField> = Vec::new();
    match d {
        LineDetail::SalesItemLineDetail(p) => {
            let po = match encode_sales(p) {
                Ok(v) => v,
                Err(e) => { return Err(e); },
            };
            push_field(&mut fields, "SalesItemLineDetail", WireValue::Obj(po));
            push_field(&mut fields, "DetailType", WireValue::Str("SalesItemLineDetail".to_owned()));
        },
        LineDetail::GroupLineDetail(g) => {
            proof {
                let gv = d@->GroupLineDetail_0;
                assert(gv.line == view_lines(g.line@));
                assert forall|j: int|
                    0 <= j < g.line@.len() implies line_encodable(#[trigger] g.line@[j]@) by {
                    assert(gv.line[j] == g.line@[j]@);
                }
            }
            let items = match encode_lines_from(&g.line, 0) {
                Ok(v) => v,
                Err(e) => {
                    proof {
                        let j = choose|j: int|
                            0 <= j < g.line@.len() && !line_wf(g.line@[j]@);
                        assert(view_lines(g.line@)[j] == g.line@[j]@);
                        assert(!detail_wf(d@));
                    }
                    return Err(e);
                },
            };
            proof {
                assert(enc_lines(view_lines(g.line@)).skip(0) =~= enc_lines(view_lines(g.line@)));
            }
            let mut po: Vec<WireField> = Vec::new();
            push_field(&mut po, "Quantity", WireValue::Num(g.quantity));
            push_field(&mut po, "Line", WireValue::Arr(items));
            push_field(&mut po, "GroupItemRef", WireValue::Obj(encode_ref(&g.group_item_ref)));
            proof {
                assert(view_fields(po@) =~= fld(("Quantity")@, WireValueView::Num(g.quantity))
                    + fld(("Line")@, WireValueView::Arr(enc_lines(view_lines(g.line@))))
                    + req_ref_fld(("GroupItemRef")@, g.group_item_ref@));
                assert forall|j: int| 0 <= j < view_lines(g.line@).len() implies line_wf(
                    #[trigger] view_lines(g.line@)[j],
                ) by {
                    assert(view_lines(g.line@)[j] == g.line@[j]@);
                }
                assert(detail_wf(d@));
            }
            push_field(&mut fields, "GroupLineDetail", WireValue::Obj(po));
            push_field(&mut fields, "DetailType", WireValue::Str("GroupLineDetail".to_owned()));
        },
        LineDetail::DescriptionLineDetail(p) => {
            let po = match encode_description(p) {
                Ok(v) => v,
                Err(e) => { return Err(e); },
            };
            push_field(&mut fields, "DescriptionLineDetail", WireValue::Obj(po));
            push_field(
                &mut fields,
                "DetailType",
                WireValue::Str("DescriptionLineDetail".to_owned()),
            );
        },
        LineDetail::DiscountLineDetail(p) => {
            push_field(&mut fields, "DiscountLineDetail", WireValue::Obj(encode_discount(p)));
            push_field(&mut fields, "DetailType", WireValue::Str("DiscountLineDetail".to_owned()));
        },
        LineDetail::SubTotalLineDetail(p) => {
            push_field(&mut fields, "SubTotalLineDetail", WireValue::Obj(encode_subtotal(p)));
            push_field(&mut fields, "DetailType", WireValue::Str("SubTotalLineDetail".to_owned()));
        },
        LineDetail::ItemBasedExpenseLineDetail(p) => {
            push_field(
                &mut fields,
                "ItemBasedExpenseLineDetail",
                WireValue::Obj(encode_item_expense(p)),
            );
            push_field(
                &mut fields,
                "DetailType",
                WireValue::Str("ItemBasedExpenseLineDetail".to_owned()),
            );
        },
        LineDetail::AccountBasedExpenseLineDetail(p) => {
            push_field(
                &mut fields,
                "AccountBasedExpenseLineDetail",
                WireValue::Obj(encode_account_expense(p)),
            );
            push_field(
                &mut fields,
                "DetailType",
                WireValue::Str("AccountBasedExpenseLineDetail".to_owned()),
            );
        },
        LineDetail::TaxLineDetail(p) => {
            push_field(&mut fields, "TaxLineDetail", WireValue::Obj(encode_tax(p)));
            push_field(&mut fields, "DetailType", WireValue::Str("TaxLineDetail".to_owned()));
        },
        LineDetail::Empty => (),
    }
    proof {
        assert(view_fields(fields@) =~= enc_detail(d@));
    }
    Ok(fields)
}

/// Encodes a row as a wire object.
///
/// Succeeds exactly when every detail, recursively through group details,
/// is concrete and every date is in calendar range; a row still carrying
/// the `Empty` sentinel is rejected outright.
#[verifier::rlimit(100)]
pub fn encode_line(l: &Line) -> (r: Result<WireValue, EncodeError>)
    ensures
        r is Ok <==> line_encodable(l@) && line_wf(l@),
        r matches Ok(v) ==> v@ == spec_enc_line(l@),
        r matches Err(e) ==> (e == EncodeError::EmptyDetail <==> !line_encodable(l@)),
    decreases l, 1int,
{
    if !check_encodable(l) {
        return Err(EncodeError::EmptyDetail);
    }
    let mut fields = match encode_detail(&l.line_detail) {
        Ok(fs) => fs,
        Err(e) => { return Err(e); },
    };
    let ghost dseg = enc_detail(l.line_detail@);
    match &l.amount {
        Some(x) => push_field(&mut fields, "Amount", WireValue::Num(*x)),
        None => (),
    }
    proof {
        assert(view_fields(fields@) =~= dseg + opt_num_fld(("Amount")@, l.amount));
    }
    match &l.description {
        Some(x) => push_field(&mut fields, "Description", WireValue::Str(x.clone())),
        None => (),
    }
    proof {
        assert(view_fields(fields@) =~= dseg + opt_num_fld(("Amount")@, l.amount) + opt_str_fld(
            ("Description")@,
            view_opt_str(l.description),
        ));
    }
    match &l.id {
        Some(x) => push_field(&mut fields, "Id", WireValue::Str(x.clone())),
        None => (),
    }
    proof {
        assert(view_fields(fields@) =~= dseg + opt_num_fld(("Amount")@, l.amount) + opt_str_fld(
            ("Description")@,
            view_opt_str(l.description),
        ) + opt_str_fld(("Id")@, view_opt_str(l.id)));
    }
    match &l.linked_txn {
        Some(ts) => push_field(&mut fields, "LinkedTxn", WireValue::Arr(encode_txns(ts))),
        None => (),
    }
    proof {
        assert(view_fields(fields@) =~= dseg + opt_num_fld(("Amount")@, l.amount) + opt_str_fld(
            ("Description")@,
            view_opt_str(l.description),
        ) + opt_str_fld(("Id")@, view_opt_str(l.id)) + opt_txns_fld(
            ("LinkedTxn")@,
            l@.linked_txn,
        ));
    }
    Ok(WireValue::Obj(fields))
}


// ------------------------------------------------------------------
// Executable decoding
// ------------------------------------------------------------------

/// Reads an optional fixed-point field.
fn get_num_opt(fields: &Vec<WireField>, key: &str) -> (r: Result<Option<Decimal>, DecodeError>)
    ensures
        r == dec_num_opt(view_fields(fields@), key@),
{
    match obj_get(fields, key) {
        None => Ok(None),
        Some(WireValue::Num(d)) => Ok(Some(*d)),
        Some(_) => Err(DecodeError::FieldShape),
    }
}

/// Reads an optional string field.
fn get_str_opt(fields: &Vec<WireField>, key: &str) -> (r: Result<Option<String>, DecodeError>)
    ensures
        match r {
            Ok(o) => dec_str_opt(view_fields(fields@), key@) == Ok::<_, DecodeError>(
                view_opt_str(o),
            ),
            Err(e) => dec_str_opt(view_fields(fields@), key@) == Err::<Option<Seq<char>>, _>(e),
        },
{
    match obj_get(fields, key) {
        None => Ok(None),
        Some(WireValue::Str(x)) => Ok(Some(x.clone())),
        Some(_) => Err(DecodeError::FieldShape),
    }
}

/// Reads an optional boolean field.
fn get_bool_opt(fields: &Vec<WireField>, key: &str) -> (r: Result<Option<bool>, DecodeError>)
    ensures
        r == dec_bool_opt(view_fields(fields@), key@),
{
    match obj_get(fields, key) {
        None => Ok(None),
        Some(WireValue::Bool(b)) => Ok(Some(*b)),
        Some(_) => Err(DecodeError::FieldShape),
    }
}

/// Reads an optional date field.
fn get_date_opt(fields: &Vec<WireField>, key: &str) -> (r: Result<Option<Date>, DecodeError>)
    ensures
        r == dec_date_opt(view_fields(fields@), key@),
{
    match obj_get(fields, key) {
        None => Ok(None),
        Some(WireValue::Str(x)) => match parse_date(x.as_str()) {
            Some(d) => Ok(Some(d)),
            None => Err(DecodeError::FieldShape),
        },
        Some(_) => Err(DecodeError::FieldShape),
    }
}

/// Reads a required fixed-point field, zero when absent.
fn get_num_req(fields: &Vec<WireField>, key: &str) -> (r: Result<Decimal, DecodeError>)
    ensures
        r == dec_num_req(view_fields(fields@), key@),
{
    match obj_get(fields, key) {
        None => Ok(Decimal { hundredths: 0 }),
        Some(WireValue::Num(d)) => Ok(*d),
        Some(_) => Err(DecodeError::FieldShape),
    }
}

/// Reads a required boolean field, false when absent.
fn get_bool_req(fields: &Vec<WireField>, key: &str) -> (r: Result<bool, DecodeError>)
    ensures
        r == dec_bool_req(view_fields(fields@), key@),
{
    match obj_get(fields, key) {
        None => Ok(false),
        Some(WireValue::Bool(b)) => Ok(*b),
        Some(_) => Err(DecodeError::FieldShape),
    }
}

/// Reads a required timestamp field, the epoch when absent.
fn get_ts_req(fields: &Vec<WireField>, key: &str) -> (r: Result<Timestamp, DecodeError>)
    ensures
        r == dec_ts_req(view_fields(fields@), key@),
{
    match obj_get(fields, key) {
        None => Ok(
            Timestamp {
                date: Date { year: 1970, month: 1, day: 1 },
                hour: 0,
                minute: 0,
                second: 0,
                offset_minutes: 0,
            },
        ),
        Some(WireValue::Str(x)) => match parse_timestamp(x.as_str()) {
            Some(t) => Ok(t),
            None => Err(DecodeError::FieldShape),
        },
        Some(_) => Err(DecodeError::FieldShape),
    }
}

/// Reads a required billable status, `Billable` when absent.
fn get_billable_req(fields: &Vec<WireField>, key: &str) -> (r: Result<
    BillableStatus,
    DecodeError,
>)
    ensures
        r == dec_billable_req(view_fields(fields@), key@),
{
    match obj_get(fields, key) {
        None => Ok(BillableStatus::Billable),
        Some(WireValue::Str(x)) => {
            if str_eq(x.as_str(), "Billable") {
                Ok(BillableStatus::Billable)
            } else if str_eq(x.as_str(), "NotBillable") {
                Ok(BillableStatus::NotBillable)
            } else if str_eq(x.as_str(), "HasBeenBilled") {
                Ok(BillableStatus::HasBeenBilled)
            } else {
                Err(DecodeError::FieldShape)
            }
        },
        Some(_) => Err(DecodeError::FieldShape),
    }
}

/// Decodes the fields of a reference object.
fn decode_ref_fields(ro: &Vec<WireField>) -> (r: Result<NtRef, DecodeError>)
    ensures
        match r {
            Ok(n) => dec_ref_fields(view_fields(ro@)) == Ok::<_, DecodeError>(n@),
            Err(e) => dec_ref_fields(view_fields(ro@)) == Err::<NtRefView, _>(e),
        },
{
    let t = match get_str_opt(ro, "type") {
        Ok(o) => o,
        Err(e) => { return Err(e); },
    };
    let n = if obj_get(ro, "name").is_some() {
        match get_str_opt(ro, "name") {
            Ok(o) => o,
            Err(e) => { return Err(e); },
        }
    } else {
        match get_str_opt(ro, "Name") {
            Ok(o) => o,
            Err(e) => { return Err(e); },
        }
    };
    let v = if obj_get(ro, "value").is_some() {
        match get_str_opt(ro, "value") {
            Ok(o) => o,
            Err(e) => { return Err(e); },
        }
    } else {
        match get_str_opt(ro, "Value") {
            Ok(o) => o,
            Err(e) => { return Err(e); },
        }
    };
    Ok(NtRef { entity_ref_type: t, name: n, value: v })
}

/// Reads an optional reference field.
fn get_ref_opt(fields: &Vec<WireField>, key: &str) -> (r: Result<Option<NtRef>, DecodeError>)
    ensures
        match r {
            Ok(o) => dec_ref_opt(view_fields(fields@), key@) == Ok::<_, DecodeError>(
                view_opt_ref(o),
            ),
            Err(e) => dec_ref_opt(view_fields(fields@), key@) == Err::<Option<NtRefView>, _>(e),
        },
{
    match obj_get(fields, key) {
        None => Ok(None),
        Some(WireValue::Obj(ro)) => match decode_ref_fields(ro) {
            Ok(n) => Ok(Some(n)),
            Err(e) => Err(e),
        },
        Some(_) => Err(DecodeError::FieldShape),
    }
}

/// Reads a required reference field, the bare reference when absent.
fn get_ref_req(fields: &Vec<WireField>, key: &str) -> (r: Result<NtRef, DecodeError>)
    ensures
        match r {
            Ok(n) => dec_ref_req(view_fields(fields@), key@) == Ok::<_, DecodeError>(n@),
            Err(e) => dec_ref_req(view_fields(fields@), key@) == Err::<NtRefView, _>(e),
        },
{
    match obj_get(fields, key) {
        None => Ok(NtRef { entity_ref_type: None, name: None, value: None }),
        Some(WireValue::Obj(ro)) => decode_ref_fields(ro),
        Some(_) => Err(DecodeError::FieldShape),
    }
}

/// Decodes one linked transaction.
fn decode_txn(v: &WireValue) -> (r: Result<LinkedTxn, DecodeError>)
    ensures
        match r {
            Ok(t) => dec_txn(v@) == Ok::<_, DecodeError>(t@),
            Err(e) => dec_txn(v@) == Err::<LinkedTxnView, _>(e),
        },
{
    match v {
        WireValue::Obj(to) => {
            let txn_id = match get_str_opt(to, "TxnId") {
                Ok(o) => o,
                Err(e) => { return Err(e); },
            };
            let txn_type = match get_str_opt(to, "TxnType") {
                Ok(o) => o,
                Err(e) => { return Err(e); },
            };
            Ok(LinkedTxn { txn_id, txn_type })
        },
        _ => Err(DecodeError::FieldShape),
    }
}

/// Decodes the linked transactions of an array, from the given position on.
fn decode_txns_from(items: &Vec<WireValue>, i: usize) -> (r: Result<Vec<LinkedTxn>, DecodeError>)
    requires
        i <= items@.len(),
    ensures
        match r {
            Ok(ts) => dec_txns(view_values(items@).skip(i as int)) == Ok::<_, DecodeError>(
                view_txns(ts@),
            ),
            Err(e) => dec_txns(view_values(items@).skip(i as int)) == Err::<
                Seq<LinkedTxnView>,
                _,
            >(e),
        },
    decreases items@.len() - i,
{
    if i == items.len() {
        let out: Vec<LinkedTxn> = Vec::new();
        proof {
            assert(view_values(items@).skip(items@.len() as int)
                =~= Seq::<WireValueView>::empty());
            assert(view_txns(out@) =~= Seq::<LinkedTxnView>::empty());
        }
        return Ok(out);
    }
    let head = match decode_txn(&items[i]) {
        Ok(t) => t,
        Err(e) => {
            proof {
                assert(view_values(items@).skip(i as int)[0] == items@[i as int]@);
            }
            return Err(e);
        },
    };
    let mut rest = match decode_txns_from(items, i + 1) {
        Ok(ts) => ts,
        Err(e) => {
            proof {
                assert(view_values(items@).skip(i as int)[0] == items@[i as int]@);
                assert(view_values(items@).skip(i as int).drop_first() =~= view_values(
                    items@,
                ).skip(i as int + 1));
            }
            return Err(e);
        },
    };
    let ghost restg = rest@;
    let mut out: Vec<LinkedTxn> = Vec::new();
    out.push(head);
    out.append(&mut rest);
    proof {
        assert(view_values(items@).skip(i as int)[0] == items@[i as int]@);
        assert(view_values(items@).skip(i as int).drop_first() =~= view_values(items@).skip(
            i as int + 1,
        ));
        assert(out@ =~= seq![out@[0]] + restg);
        assert(view_txns(out@) =~= seq![out@[0]@] + view_txns(restg));
    }
    Ok(out)
}


/// Decodes a payload of this shape.
fn decode_sales(po: &Vec<WireField>) -> (r: Result<SalesItemLineDetail, DecodeError>)
    ensures
        match r {
            Ok(d) => dec_sales(view_fields(po@)) == Ok::<_, DecodeError>(d@),
            Err(e) => dec_sales(view_fields(po@)) == Err::<<SalesItemLineDetail as View>::V, _>(e),
        },
{
    let tax_inclusive_amt = match get_num_opt(po, "TaxInclusiveAmt") {
        Ok(x) => x,
        Err(e) => { return Err(e); },
    };
    let discount_amt = match get_num_opt(po, "DiscountAmt") {
        Ok(x) => x,
        Err(e) => { return Err(e); },
    };
    let item_ref = match get_ref_opt(po, "ItemRef") {
        Ok(x) => x,
        Err(e) => { return Err(e); },
    };
    let class_ref = match get_ref_opt(po, "ClassRef") {
        Ok(x) => x,
        Err(e) => { return Err(e); },
    };
    let tax_code_ref = match get_ref_opt(po, "TaxCodeRef") {
        Ok(x) => x,
        Err(e) => { return Err(e); },
    };
    let service_date = match get_date_opt(po, "ServiceDate") {
        Ok(x) => x,
        Err(e) => { return Err(e); },
    };
    let discount_rate = match get_num_opt(po, "DiscountRate") {
        Ok(x) => x,
        Err(e) => { return Err(e); },
    };
    let qty = match get_num_opt(po, "Qty") {
        Ok(x) => x,
        Err(e) => { return Err(e); },
    };
    let unit_price = match get_num_opt(po, "UnitPrice") {
        Ok(x) => x,
        Err(e) => { return Err(e); },
    };
    let tax_classification_ref = match get_ref_opt(po, "TaxClassificationRef") {
        Ok(x) => x,
        Err(e) => { return Err(e); },
    };
    Ok(SalesItemLineDetail { tax_inclusive_amt, discount_amt, item_ref, class_ref, tax_code_ref, service_date, discount_rate, qty, unit_price, tax_classification_ref })
}

/// Decodes a payload of this shape.
fn decode_description(po: &Vec<WireField>) -> (r: Result<DescriptionLineDetail, DecodeError>)
    ensures
        match r {
            Ok(d) => dec_description(view_fields(po@)) == Ok::<_, DecodeError>(d@),
            Err(e) => dec_description(view_fields(po@)) == Err::<<DescriptionLineDetail as View>::V, _>(e),
        },
{
    let tax_code_ref = match get_ref_req(po, "TaxCodeRef") {
        Ok(x) => x,
        Err(e) => { return Err(e); },
    };
    let service_date = match get_ts_req(po, "ServiceDate") {
        Ok(x) => x,
        Err(e) => { return Err(e); },
    };
    Ok(DescriptionLineDetail { tax_code_ref, service_date })
}

/// Decodes a payload of this shape.
fn decode_discount(po: &Vec<WireField>) -> (r: Result<DiscountLineDetail, DecodeError>)
    ensures
        match r {
            Ok(d) => dec_discount(view_fields(po@)) == Ok::<_, DecodeError>(d@),
            Err(e) => dec_discount(view_fields(po@)) == Err::<<DiscountLineDetail as View>::V, _>(e),
        },
{
    let class_ref = match get_ref_req(po, "ClassRef") {
        Ok(x) => x,
        Err(e) => { return Err(e); },
    };
    let tax_code_ref = match get_ref_req(po, "TaxCodeRef") {
        Ok(x) => x,
        Err(e) => { return Err(e); },
    };
    let discount_account_ref = match get_ref_req(po, "DiscountAccountRef") {
        Ok(x) => x,
        Err(e) => { return Err(e); },
    };
    let percent_based = match get_bool_req(po, "PercentBased") {
        Ok(x) => x,
        Err(e) => { return Err(e); },
    };
    let discount_percent = match get_num_opt(po, "DiscountPercent") {
        Ok(x) => x,
        Err(e) => { return Err(e); },
    };
    Ok(DiscountLineDetail { class_ref, tax_code_ref, discount_account_ref, percent_based, discount_percent })
}

/// Decodes a payload of this shape.
fn decode_subtotal(po: &Vec<WireField>) -> (r: Result<SubTotalLineDetail, DecodeError>)
    ensures
        match r {
            Ok(d) => dec_subtotal(view_fields(po@)) == Ok::<_, DecodeError>(d@),
            Err(e) => dec_subtotal(view_fields(po@)) == Err::<<SubTotalLineDetail as View>::V, _>(e),
        },
{
    let item_ref = match get_ref_req(po, "ItemRef") {
        Ok(x) => x,
        Err(e) => { return Err(e); },
    };
    Ok(SubTotalLineDetail { item_ref })
}

/// Decodes a payload of this shape.
fn decode_item_expense(po: &Vec<WireField>) -> (r: Result<ItemBasedExpenseLineDetail, DecodeError>)
    ensures
        match r {
            Ok(d) => dec_item_expense(view_fields(po@)) == Ok::<_, DecodeError>(d@),
            Err(e) => dec_item_expense(view_fields(po@)) == Err::<<ItemBasedExpenseLineDetail as View>::V, _>(e),
        },
{
    let tax_inclusive_amt = match get_num_req(po, "TaxInclusiveAmt") {
        Ok(x) => x,
        Err(e) => { return Err(e); },
    };
    let item_ref = match get_ref_req(po, "ItemRef") {
        Ok(x) => x,
        Err(e) => { return Err(e); },
    };
    let customer_ref = match get_ref_req(po, "CustomerRef") {
        Ok(x) => x,
        Err(e) => { return Err(e); },
    };
    let price_level_ref = match get_ref_req(po, "PriceLevelRef") {
        Ok(x) => x,
        Err(e) => { return Err(e); },
    };
    let class_ref = match get_ref_req(po, "ClassRef") {
        Ok(x) => x,
        Err(e) => { return Err(e); },
    };
    let tax_code_ref = match get_ref_req(po, "TaxCodeRef") {
        Ok(x) => x,
        Err(e) => { return Err(e); },
    };
    let billable_status = match get_billable_req(po, "BillableStatus") {
        Ok(x) => x,
        Err(e) => { return Err(e); },
    };
    let qty = match get_num_req(po, "Qty") {
        Ok(x) => x,
        Err(e) => { return Err(e); },
    };
    let unit_price = match get_num_req(po, "UnitPrice") {
        Ok(x) => x,
        Err(e) => { return Err(e); },
    };
    Ok(ItemBasedExpenseLineDetail { tax_inclusive_amt, item_ref, customer_ref, price_level_ref, class_ref, tax_code_ref, billable_status, qty, unit_price })
}

/// Decodes a payload of this shape.
fn decode_account_expense(po: &Vec<WireField>) -> (r: Result<AccountBasedExpenseLineDetail, DecodeError>)
    ensures
        match r {
            Ok(d) => dec_account_expense(view_fields(po@)) == Ok::<_, DecodeError>(d@),
            Err(e) => dec_account_expense(view_fields(po@)) == Err::<<AccountBasedExpenseLineDetail as View>::V, _>(e),
        },
{
    let account_ref = match get_ref_req(po, "AccountRef") {
        Ok(x) => x,
        Err(e) => { return Err(e); },
    };
    let tax_code_ref = match get_ref_req(po, "TaxCodeRef") {
        Ok(x) => x,
        Err(e) => { return Err(e); },
    };
    let tax_amount = match get_num_req(po, "TaxAmount") {
        Ok(x) => x,
        Err(e) => { return Err(e); },
    };
    let tax_inclusive_amt = match get_num_req(po, "TaxInclusiveAmt") {
        Ok(x) => x,
        Err(e) => { return Err(e); },
    };
    let class_ref = match get_ref_req(po, "ClassRef") {
        Ok(x) => x,
        Err(e) => { return Err(e); },
    };
    let customer_ref = match get_ref_req(po, "CustomerRef") {
        Ok(x) => x,
        Err(e) => { return Err(e); },
    };
    let billable_status = match get_billable_req(po, "BillableStatus") {
        Ok(x) => x,
        Err(e) => { return Err(e); },
    };
    Ok(AccountBasedExpenseLineDetail { account_ref, tax_code_ref, tax_amount, tax_inclusive_amt, class_ref, customer_ref, billable_status })
}

/// Decodes a payload of this shape.
fn decode_tax(po: &Vec<WireField>) -> (r: Result<TaxLineDetail, DecodeError>)
    ensures
        match r {
            Ok(d) => dec_tax(view_fields(po@)) == Ok::<_, DecodeError>(d@),
            Err(e) => dec_tax(view_fields(po@)) == Err::<<TaxLineDetail as View>::V, _>(e),
        },
{
    let tax_rate_ref = match get_ref_opt(po, "TaxRateRef") {
        Ok(x) => x,
        Err(e) => { return Err(e); },
    };
    let net_amount_taxable = match get_num_opt(po, "NetAmountTaxable") {
        Ok(x) => x,
        Err(e) => { return Err(e); },
    };
    let percent_based = match get_bool_opt(po, "PercentBased") {
        Ok(x) => x,
        Err(e) => { return Err(e); },
    };
    let tax_inclusive_amount = match get_num_opt(po, "TaxInclusiveAmount") {
        Ok(x) => x,
        Err(e) => { return Err(e); },
    };
    let override_delta_amount = match get_num_opt(po, "OverrideDeltaAmount") {
        Ok(x) => x,
        Err(e) => { return Err(e); },
    };
    let tax_percent = match get_num_opt(po, "TaxPercent") {
        Ok(x) => x,
        Err(e) => { return Err(e); },
    };
    Ok(TaxLineDetail { tax_rate_ref, net_amount_taxable, percent_based, tax_inclusive_amount, override_delta_amount, tax_percent })
}


/// Decodes the detail payload of a row object: the single known payload key
/// decides the shape; none at all leaves the `Empty` sentinel.
#[verifier::rlimit(100)]
fn decode_detail(fields: &Vec<WireField>) -> (r: Result<LineDetail, DecodeError>)
    ensures
        match r {
            Ok(d) => dec_detail(view_fields(fields@)) == Ok::<_, DecodeError>(d@),
            Err(e) => dec_detail(view_fields(fields@)) == Err::<LineDetailView, _>(e),
        },
    decreases fields, 0int,
{
    let mut count: u32 = 0;
    if obj_get(fields, "SalesItemLineDetail").is_some() {
        count = count + 1;
    }
    if obj_get(fields, "GroupLineDetail").is_some() {
        count = count + 1;
    }
    if obj_get(fields, "DescriptionLineDetail").is_some() {
        count = count + 1;
    }
    if obj_get(fields, "DiscountLineDetail").is_some() {
        count = count + 1;
    }
    if obj_get(fields, "SubTotalLineDetail").is_some() {
        count = count + 1;
    }
    if obj_get(fields, "ItemBasedExpenseLineDetail").is_some() {
        count = count + 1;
    }
    if obj_get(fields, "AccountBasedExpenseLineDetail").is_some() {
        count = count + 1;
    }
    if obj_get(fields, "TaxLineDetail").is_some() {
        count = count + 1;
    }
    if count >= 2 {
        return Err(DecodeError::AmbiguousDetail);
    }
    let r =
            match obj_get(fields, "SalesItemLineDetail") {
                Some(pv) => match pv {
                    WireValue::Obj(po) => match decode_sales(po) {
                        Ok(p) => Ok(LineDetail::SalesItemLineDetail(p)),
                        Err(e) => Err(e),
                    },
                    _ => Err(DecodeError::FieldShape),
                },
                None =>             match obj_get(fields, "GroupLineDetail") {
                Some(pv) => match pv {
                    WireValue::Obj(po) => {
                        proof {
                            let k = choose|k: int|
                                0 <= k < fields@.len() && fields@[k].value == *pv;
                            assert(decreases_to!(fields@[k] => fields@[k].value));
                            assert(decreases_to!(*pv => *po));
                        }
                        match decode_group(po) {
                            Ok(p) => Ok(LineDetail::GroupLineDetail(p)),
                            Err(e) => Err(e),
                        }
                    },
                    _ => Err(DecodeError::FieldShape),
                },
                None =>             match obj_get(fields, "DescriptionLineDetail") {
                Some(pv) => match pv {
                    WireValue::Obj(po) => match decode_description(po) {
                        Ok(p) => Ok(LineDetail::DescriptionLineDetail(p)),
                        Err(e) => Err(e),
                    },
                    _ => Err(DecodeError::FieldShape),
                },
                None =>             match obj_get(fields, "DiscountLineDetail") {
                Some(pv) => match pv {
                    WireValue::Obj(po) => match decode_discount(po) {
                        Ok(p) => Ok(LineDetail::DiscountLineDetail(p)),
                        Err(e) => Err(e),
                    },
                    _ => Err(DecodeError::FieldShape),
                },
                None =>             match obj_get(fields, "SubTotalLineDetail") {
                Some(pv) => match pv {
                    WireValue::Obj(po) => match decode_subtotal(po) {
                        Ok(p) => Ok(LineDetail::SubTotalLineDetail(p)),
                        Err(e) => Err(e),
                    },
                    _ => Err(DecodeError::FieldShape),
                },
                None =>             match obj_get(fields, "ItemBasedExpenseLineDetail") {
                Some(pv) => match pv {
                    WireValue::Obj(po) => match decode_item_expense(po) {
                        Ok(p) => Ok(LineDetail::ItemBasedExpenseLineDetail(p)),
                        Err(e) => Err(e),
                    },
                    _ => Err(DecodeError::FieldShape),
                },
                None =>             match obj_get(fields, "AccountBasedExpenseLineDetail") {
                Some(pv) => match pv {
                    WireValue::Obj(po) => match decode_account_expense(po) {
                        Ok(p) => Ok(LineDetail::AccountBasedExpenseLineDetail(p)),
                        Err(e) => Err(e),
                    },
                    _ => Err(DecodeError::FieldShape),
                },
                None =>             match obj_get(fields, "TaxLineDetail") {
                Some(pv) => match pv {
                    WireValue::Obj(po) => match decode_tax(po) {
                        Ok(p) => Ok(LineDetail::TaxLineDetail(p)),
                        Err(e) => Err(e),
                    },
                    _ => Err(DecodeError::FieldShape),
                },
                None => Ok(LineDetail::Empty),
            },
            },
            },
            },
            },
            },
            },
            };
    r
}

/// Decodes a group detail payload: its bundled rows decode through the row
/// codec itself.
#[verifier::rlimit(100)]
fn decode_group(po: &Vec<WireField>) -> (r: Result<GroupLineDetail, DecodeError>)
    ensures
        match r {
            Ok(g) => dec_group(view_fields(po@)) == Ok::<_, DecodeError>(g@),
            Err(e) => dec_group(view_fields(po@)) == Err::<GroupLineDetailView, _>(e),
        },
    decreases po, 0int,
{
    let quantity = match get_num_req(po, "Quantity") {
        Ok(x) => x,
        Err(e) => { return Err(e); },
    };
    let group_item_ref = match get_ref_req(po, "GroupItemRef") {
        Ok(x) => x,
        Err(e) => { return Err(e); },
    };
    match obj_get(po, "Line") {
        None => {
            let line: Vec<Line> = Vec::new();
            proof {
                assert(view_lines(line@) =~= Seq::<LineView>::empty());
            }
            Ok(GroupLineDetail { quantity, line, group_item_ref })
        },
        Some(pv) => match pv {
            WireValue::Arr(items) => {
                proof {
                    let k = choose|k: int| 0 <= k < po@.len() && po@[k].value == *pv;
                    assert(decreases_to!(po@[k] => po@[k].value));
                    assert(decreases_to!(*pv => *items));
                }
                match decode_lines_from(items, 0) {
                    Ok(line) => {
                        proof {
                            assert(view_values(items@).skip(0) =~= view_values(items@));
                        }
                        Ok(GroupLineDetail { quantity, line, group_item_ref })
                    },
                    Err(e) => {
                        proof {
                            assert(view_values(items@).skip(0) =~= view_values(items@));
                        }
                        Err(e)
                    },
                }
            },
            _ => Err(DecodeError::FieldShape),
        },
    }
}

/// Decodes the rows of an array, from the given position on.
#[verifier::rlimit(100)]
fn decode_lines_from(items: &Vec<WireValue>, i: usize) -> (r: Result<Vec<Line>, DecodeError>)
    requires
        i <= items@.len(),
    ensures
        match r {
            Ok(ls) => dec_lines(view_values(items@).skip(i as int)) == Ok::<_, DecodeError>(
                view_lines(ls@),
            ),
            Err(e) => dec_lines(view_values(items@).skip(i as int)) == Err::<Seq<LineView>, _>(
                e,
            ),
        },
    decreases items, items@.len() - i,
{
    if i == items.len() {
        let out: Vec<Line> = Vec::new();
        proof {
            assert(view_values(items@).skip(items@.len() as int)
                =~= Seq::<WireValueView>::empty());
            assert(view_lines(out@) =~= Seq::<LineView>::empty());
        }
        return Ok(out);
    }
    let head = match decode_line(&items[i]) {
        Ok(l) => l,
        Err(e) => {
            proof {
                assert(view_values(items@).skip(i as int)[0] == items@[i as int]@);
            }
            return Err(e);
        },
    };
    let mut rest = match decode_lines_from(items, i + 1) {
        Ok(ls) => ls,
        Err(e) => {
            proof {
                assert(view_values(items@).skip(i as int)[0] == items@[i as int]@);
                assert(view_values(items@).skip(i as int).drop_first() =~= view_values(
                    items@,
                ).skip(i as int + 1));
            }
            return Err(e);
        },
    };
    let ghost restg = rest@;
    let mut out: Vec<Line> = Vec::new();
    out.push(head);
    out.append(&mut rest);
    proof {
        assert(view_values(items@).skip(i as int)[0] == items@[i as int]@);
        assert(view_values(items@).skip(i as int).drop_first() =~= view_values(items@).skip(
            i as int + 1,
        ));
        assert(out@ =~= seq![out@[0]] + restg);
        assert(view_lines(out@) =~= seq![out@[0]@] + view_lines(restg));
    }
    Ok(out)
}

/// Decodes a row from a wire value.
///
/// Mirrors [`encode_line`]: for every encodable, well-formed row the two are
/// mutually inverse.
#[verifier::rlimit(100)]
pub fn decode_line(v: &WireValue) -> (r: Result<Line, DecodeError>)
    ensures
        match r {
            Ok(l) => spec_dec_line(v@) == Ok::<_, DecodeError>(l@),
            Err(e) => spec_dec_line(v@) == Err::<LineView, _>(e),
        },
    decreases v, 0int,
{
    match v {
        WireValue::Obj(fields) => {
            let line_detail = match decode_detail(fields) {
                Ok(d) => d,
                Err(e) => { return Err(e); },
            };
            let amount = match get_num_opt(fields, "Amount") {
                Ok(x) => x,
                Err(_) => { return Err(DecodeError::FieldShape); },
            };
            let description = match get_str_opt(fields, "Description") {
                Ok(x) => x,
                Err(_) => { return Err(DecodeError::FieldShape); },
            };
            let id = match get_str_opt(fields, "Id") {
                Ok(x) => x,
                Err(_) => { return Err(DecodeError::FieldShape); },
            };
            let linked_txn = match obj_get(fields, "LinkedTxn") {
                None => None,
                Some(pv) => match pv {
                    WireValue::Arr(items) => match decode_txns_from(items, 0) {
                        Ok(ts) => {
                            proof {
                                assert(view_values(items@).skip(0) =~= view_values(items@));
                            }
                            Some(ts)
                        },
                        Err(_) => {
                            proof {
                                assert(view_values(items@).skip(0) =~= view_values(items@));
                            }
                            return Err(DecodeError::FieldShape);
                        },
                    },
                    _ => { return Err(DecodeError::FieldShape); },
                },
            };
            let out = Line { line_detail, amount, description, id, linked_txn };
            proof {
                assert(spec_dec_line(v@) == Ok::<LineView, DecodeError>(out@));
            }
            Ok(out)
        },
        _ => Err(DecodeError::NotAnObject),
    }
}

} // verus!
