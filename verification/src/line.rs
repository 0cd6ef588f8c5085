//! Rows of a multi-line document.
//!
//! Each [`Line`] carries an amount and one polymorphic detail payload.  The
//! payloads are mutually exclusive; the [`LineDetail::Empty`] sentinel stands
//! for "no detail set yet" while a row is being built, and is never a valid
//! terminal state for a row meant to be sent.

use vstd::prelude::*;
use vstd::pervasive::VecAdditionalExecFns;

use crate::common::LinkedTxn;
use crate::common::LinkedTxnView;
use crate::common::NtRef;
use crate::common::NtRefView;
use crate::common::view_opt_str;
use crate::scalar::Date;
use crate::scalar::Decimal;
use crate::scalar::Timestamp;
use crate::QBCreatable;

verus! {

/// One row of a multi-line document.
#[derive(Debug, PartialEq)]
pub struct Line {
    /// Details of the row.
    pub line_detail: LineDetail,
    /// Amount total for the row.
    pub amount: Option<Decimal>,
    /// Description of the row.
    pub description: Option<String>,
    /// Unique line number.
    pub id: Option<String>,
    /// Linked transactions.
    pub linked_txn: Option<Vec<LinkedTxn>>,
}

/// The row collection of a document.
pub type LineField = Vec<Line>;

/// The detail payload of a row: exactly one of several mutually exclusive
/// shapes, or the transient `Empty` sentinel.
#[derive(Debug, PartialEq)]
pub enum LineDetail {
    SalesItemLineDetail(SalesItemLineDetail),
    GroupLineDetail(GroupLineDetail),
    DescriptionLineDetail(DescriptionLineDetail),
    DiscountLineDetail(DiscountLineDetail),
    SubTotalLineDetail(SubTotalLineDetail),
    ItemBasedExpenseLineDetail(ItemBasedExpenseLineDetail),
    AccountBasedExpenseLineDetail(AccountBasedExpenseLineDetail),
    TaxLineDetail(TaxLineDetail),
    Empty,
}

/// Detail of a sold item or service.
#[derive(Debug, PartialEq)]
pub struct SalesItemLineDetail {
    pub tax_inclusive_amt: Option<Decimal>,
    pub discount_amt: Option<Decimal>,
    pub item_ref: Option<NtRef>,
    pub class_ref: Option<NtRef>,
    pub tax_code_ref: Option<NtRef>,
    pub service_date: Option<Date>,
    pub discount_rate: Option<Decimal>,
    pub qty: Option<Decimal>,
    pub unit_price: Option<Decimal>,
    pub tax_classification_ref: Option<NtRef>,
}

/// Detail grouping a bundle of rows.
#[derive(Debug, PartialEq)]
pub struct GroupLineDetail {
    pub quantity: Decimal,
    pub line: LineField,
    pub group_item_ref: NtRef,
}

/// Detail carrying only descriptive text.
#[derive(Debug, PartialEq)]
pub struct DescriptionLineDetail {
    pub tax_code_ref: NtRef,
    pub service_date: Timestamp,
}

/// Detail applying a discount.
#[derive(Debug, PartialEq)]
pub struct DiscountLineDetail {
    pub class_ref: NtRef,
    pub tax_code_ref: NtRef,
    pub discount_account_ref: NtRef,
    pub percent_based: bool,
    pub discount_percent: Option<Decimal>,
}

/// Detail marking a subtotal row.
#[derive(Debug, PartialEq)]
pub struct SubTotalLineDetail {
    pub item_ref: NtRef,
}

/// Whether an expense row can be billed onward.
#[derive(Clone, Copy, Debug, PartialEq, Eq, Structural, Hash)]
pub enum BillableStatus {
    Billable,
    NotBillable,
    HasBeenBilled,
}

/// Detail of an expense tied to a catalog item.
#[derive(Debug, PartialEq)]
pub struct ItemBasedExpenseLineDetail {
    pub tax_inclusive_amt: Decimal,
    pub item_ref: NtRef,
    pub customer_ref: NtRef,
    pub price_level_ref: NtRef,
    pub class_ref: NtRef,
    pub tax_code_ref: NtRef,
    pub billable_status: BillableStatus,
    pub qty: Decimal,
    pub unit_price: Decimal,
}

/// Detail of an expense tied to a ledger account.
#[derive(Debug, PartialEq)]
pub struct AccountBasedExpenseLineDetail {
    pub account_ref: NtRef,
    pub tax_code_ref: NtRef,
    pub tax_amount: Decimal,
    pub tax_inclusive_amt: Decimal,
    pub class_ref: NtRef,
    pub customer_ref: NtRef,
    pub billable_status: BillableStatus,
}

/// Detail of a tax row.
#[derive(Debug, PartialEq)]
pub struct TaxLineDetail {
    pub tax_rate_ref: Option<NtRef>,
    pub net_amount_taxable: Option<Decimal>,
    pub percent_based: Option<bool>,
    pub tax_inclusive_amount: Option<Decimal>,
    pub override_delta_amount: Option<Decimal>,
    pub tax_percent: Option<Decimal>,
}

// ------------------------------------------------------------------
// Mathematical models
// ------------------------------------------------------------------

/// Mathematical model of a row.
#[verifier::ext_equal]
pub struct LineView {
    pub line_detail: LineDetailView,
    pub amount: Option<Decimal>,
    pub description: Option<Seq<char>>,
    pub id: Option<Seq<char>>,
    pub linked_txn: Option<Seq<LinkedTxnView>>,
}

/// Mathematical model of a detail payload.
#[verifier::ext_equal]
pub enum LineDetailView {
    SalesItemLineDetail(SalesItemLineDetailView),
    GroupLineDetail(GroupLineDetailView),
    DescriptionLineDetail(DescriptionLineDetailView),
    DiscountLineDetail(DiscountLineDetailView),
    SubTotalLineDetail(SubTotalLineDetailView),
    ItemBasedExpenseLineDetail(ItemBasedExpenseLineDetailView),
    AccountBasedExpenseLineDetail(AccountBasedExpenseLineDetailView),
    TaxLineDetail(TaxLineDetailView),
    Empty,
}

#[verifier::ext_equal]
pub struct SalesItemLineDetailView {
    pub tax_inclusive_amt: Option<Decimal>,
    pub discount_amt: Option<Decimal>,
    pub item_ref: Option<NtRefView>,
    pub class_ref: Option<NtRefView>,
    pub tax_code_ref: Option<NtRefView>,
    pub service_date: Option<Date>,
    pub discount_rate: Option<Decimal>,
    pub qty: Option<Decimal>,
    pub unit_price: Option<Decimal>,
    pub tax_classification_ref: Option<NtRefView>,
}

#[verifier::ext_equal]
pub struct GroupLineDetailView {
    pub quantity: Decimal,
    pub line: Seq<LineView>,
    pub group_item_ref: NtRefView,
}

#[verifier::ext_equal]
pub struct DescriptionLineDetailView {
    pub tax_code_ref: NtRefView,
    pub service_date: Timestamp,
}

#[verifier::ext_equal]
pub struct DiscountLineDetailView {
    pub class_ref: NtRefView,
    pub tax_code_ref: NtRefView,
    pub discount_account_ref: NtRefView,
    pub percent_based: bool,
    pub discount_percent: Option<Decimal>,
}

#[verifier::ext_equal]
pub struct SubTotalLineDetailView {
    pub item_ref: NtRefView,
}

#[verifier::ext_equal]
pub struct ItemBasedExpenseLineDetailView {
    pub tax_inclusive_amt: Decimal,
    pub item_ref: NtRefView,
    pub customer_ref: NtRefView,
    pub price_level_ref: NtRefView,
    pub class_ref: NtRefView,
    pub tax_code_ref: NtRefView,
    pub billable_status: BillableStatus,
    pub qty: Decimal,
    pub unit_price: Decimal,
}

#[verifier::ext_equal]
pub struct AccountBasedExpenseLineDetailView {
    pub account_ref: NtRefView,
    pub tax_code_ref: NtRefView,
    pub tax_amount: Decimal,
    pub tax_inclusive_amt: Decimal,
    pub class_ref: NtRefView,
    pub customer_ref: NtRefView,
    pub billable_status: BillableStatus,
}

#[verifier::ext_equal]
pub struct TaxLineDetailView {
    pub tax_rate_ref: Option<NtRefView>,
    pub net_amount_taxable: Option<Decimal>,
    pub percent_based: Option<bool>,
    pub tax_inclusive_amount: Option<Decimal>,
    pub override_delta_amount: Option<Decimal>,
    pub tax_percent: Option<Decimal>,
}

/// The view of an optional reference.
pub open spec fn view_opt_ref(o: Option<NtRef>) -> Option<NtRefView> {
    match o {
        Some(r) => Some(r@),
        None => None,
    }
}

impl View for SalesItemLineDetail {
    type V = SalesItemLineDetailView;

    open spec fn view(&self) -> SalesItemLineDetailView {
        SalesItemLineDetailView {
            tax_inclusive_amt: self.tax_inclusive_amt,
            discount_amt: self.discount_amt,
            item_ref: view_opt_ref(self.item_ref),
            class_ref: view_opt_ref(self.class_ref),
            tax_code_ref: view_opt_ref(self.tax_code_ref),
            service_date: self.service_date,
            discount_rate: self.discount_rate,
            qty: self.qty,
            unit_price: self.unit_price,
            tax_classification_ref: view_opt_ref(self.tax_classification_ref),
        }
    }
}

impl View for GroupLineDetail {
    type V = GroupLineDetailView;

    open spec fn view(&self) -> GroupLineDetailView
        decreases self,
    {
        GroupLineDetailView {
            quantity: self.quantity,
            line: view_lines(self.line@),
            group_item_ref: self.group_item_ref@,
        }
    }
}

impl View for DescriptionLineDetail {
    type V = DescriptionLineDetailView;

    open spec fn view(&self) -> DescriptionLineDetailView {
        DescriptionLineDetailView {
            tax_code_ref: self.tax_code_ref@,
            service_date: self.service_date,
        }
    }
}

impl View for DiscountLineDetail {
    type V = DiscountLineDetailView;

    open spec fn view(&self) -> DiscountLineDetailView {
        DiscountLineDetailView {
            class_ref: self.class_ref@,
            tax_code_ref: self.tax_code_ref@,
            discount_account_ref: self.discount_account_ref@,
            percent_based: self.percent_based,
            discount_percent: self.discount_percent,
        }
    }
}

impl View for SubTotalLineDetail {
    type V = SubTotalLineDetailView;

    open spec fn view(&self) -> SubTotalLineDetailView {
        SubTotalLineDetailView { item_ref: self.item_ref@ }
    }
}

impl View for ItemBasedExpenseLineDetail {
    type V = ItemBasedExpenseLineDetailView;

    open spec fn view(&self) -> ItemBasedExpenseLineDetailView {
        ItemBasedExpenseLineDetailView {
            tax_inclusive_amt: self.tax_inclusive_amt,
            item_ref: self.item_ref@,
            customer_ref: self.customer_ref@,
            price_level_ref: self.price_level_ref@,
            class_ref: self.class_ref@,
            tax_code_ref: self.tax_code_ref@,
            billable_status: self.billable_status,
            qty: self.qty,
            unit_price: self.unit_price,
        }
    }
}

impl View for AccountBasedExpenseLineDetail {
    type V = AccountBasedExpenseLineDetailView;

    open spec fn view(&self) -> AccountBasedExpenseLineDetailView {
        AccountBasedExpenseLineDetailView {
            account_ref: self.account_ref@,
            tax_code_ref: self.tax_code_ref@,
            tax_amount: self.tax_amount,
            tax_inclusive_amt: self.tax_inclusive_amt,
            class_ref: self.class_ref@,
            customer_ref: self.customer_ref@,
            billable_status: self.billable_status,
        }
    }
}

impl View for TaxLineDetail {
    type V = TaxLineDetailView;

    open spec fn view(&self) -> TaxLineDetailView {
        TaxLineDetailView {
            tax_rate_ref: view_opt_ref(self.tax_rate_ref),
            net_amount_taxable: self.net_amount_taxable,
            percent_based: self.percent_based,
            tax_inclusive_amount: self.tax_inclusive_amount,
            override_delta_amount: self.override_delta_amount,
            tax_percent: self.tax_percent,
        }
    }
}

impl View for LineDetail {
    type V = LineDetailView;

    open spec fn view(&self) -> LineDetailView
        decreases self,
    {
        match self {
            LineDetail::SalesItemLineDetail(d) => LineDetailView::SalesItemLineDetail(d@),
            LineDetail::GroupLineDetail(d) => LineDetailView::GroupLineDetail(d@),
            LineDetail::DescriptionLineDetail(d) => LineDetailView::DescriptionLineDetail(d@),
            LineDetail::DiscountLineDetail(d) => LineDetailView::DiscountLineDetail(d@),
            LineDetail::SubTotalLineDetail(d) => LineDetailView::SubTotalLineDetail(d@),
            LineDetail::ItemBasedExpenseLineDetail(d) => LineDetailView::ItemBasedExpenseLineDetail(
                d@,
            ),
            LineDetail::AccountBasedExpenseLineDetail(
                d,
            ) => LineDetailView::AccountBasedExpenseLineDetail(d@),
            LineDetail::TaxLineDetail(d) => LineDetailView::TaxLineDetail(d@),
            LineDetail::Empty => LineDetailView::Empty,
        }
    }
}

/// The view of a row list, element by element.
pub open spec fn view_lines(ls: Seq<Line>) -> Seq<LineView>
    decreases ls,
{
    Seq::new(
        ls.len(),
        |i: int|
            if 0 <= i < ls.len() {
                ls[i]@
            } else {
                empty_line_view()
            },
    )
}

/// The view of a linked-transaction list, element by element.
pub open spec fn view_txns(ts: Seq<LinkedTxn>) -> Seq<LinkedTxnView> {
    Seq::new(
        ts.len(),
        |i: int|
            if 0 <= i < ts.len() {
                ts[i]@
            } else {
                LinkedTxnView { txn_id: None, txn_type: None }
            },
    )
}

/// The model of a row with nothing set.
pub open spec fn empty_line_view() -> LineView {
    LineView {
        line_detail: LineDetailView::Empty,
        amount: None,
        description: None,
        id: None,
        linked_txn: None,
    }
}

impl View for Line {
    type V = LineView;

    open spec fn view(&self) -> LineView
        decreases self,
    {
        LineView {
            line_detail: self.line_detail@,
            amount: self.amount,
            description: view_opt_str(self.description),
            id: view_opt_str(self.id),
            linked_txn: match &self.linked_txn {
                Some(v) => Some(view_txns(v@)),
                None => None,
            },
        }
    }
}

impl Default for Line {
    /// A row with nothing set: the caller fills fields before sending.
    fn default() -> (r: Line)
        ensures
            r@ == empty_line_view(),
    {
        Line { line_detail: LineDetail::Empty, amount: None, description: None, id: None, linked_txn: None }
    }
}

impl Default for LineDetail {
    /// The transient sentinel for "no detail set yet".
    fn default() -> (r: LineDetail)
        ensures
            r is Empty,
    {
        LineDetail::Empty
    }
}

// ------------------------------------------------------------------
// Create preconditions
// ------------------------------------------------------------------

impl QBCreatable for Line {
    /// A row is ready to send when its amount is set and its detail is a
    /// concrete (non-`Empty`) payload.
    open spec fn spec_can_create(&self) -> bool {
        self.amount is Some && !(self.line_detail is Empty)
    }

    fn can_create(&self) -> (r: bool) {
        self.amount.is_some() && !(matches!(self.line_detail, LineDetail::Empty))
    }
}

impl QBCreatable for LineField {
    /// A row collection supports creation when at least one row is ready.
    open spec fn spec_can_create(&self) -> bool {
        exists|i: int| 0 <= i < self@.len() && self@[i].spec_can_create()
    }

    fn can_create(&self) -> (r: bool) {
        let mut i: usize = 0;
        while i < self.len()
            invariant
                i <= self@.len(),
                forall|j: int| 0 <= j < i ==> !self@[j].spec_can_create(),
            decreases self@.len() - i,
        {
            if self[i].can_create() {
                return true;
            }
            i = i + 1;
        }
        false
    }
}

impl QBCreatable for Option<LineField> {
    /// An absent row collection never supports creation.
    open spec fn spec_can_create(&self) -> bool {
        match self {
            Some(data) => data.spec_can_create(),
            None => false,
        }
    }

    fn can_create(&self) -> (r: bool) {
        match self {
            Some(data) => data.can_create(),
            None => false,
        }
    }
}

// ------------------------------------------------------------------
// The taxable marker mutation
// ------------------------------------------------------------------

/// Whether a reference is the fixed "taxable" marker.
pub open spec fn is_tax_marker(r: NtRefView) -> bool {
    r.entity_ref_type is None && r.name is None && r.value == Some(("TAX")@)
}

/// The marker reference forced onto sold-item details.
pub fn tax_marker() -> (r: NtRef)
    ensures
        is_tax_marker(r@),
{
    NtRef { entity_ref_type: None, name: None, value: Some("TAX".to_owned()) }
}

/// Types that can have their sold-item details forced to the taxable
/// marker in place.
pub trait TaxableLine {
    /// How the value after [`TaxableLine::set_taxable`] relates to the value
    /// before.
    spec fn taxed_rel(&self, next: &Self) -> bool;

    fn set_taxable(&mut self)
        ensures
            old(self).taxed_rel(final(self)),
    ;
}

impl TaxableLine for LineDetail {
    /// A sold-item detail gets the marker as its tax code, every field
    /// else untouched; any other detail is left as it is.
    open spec fn taxed_rel(&self, next: &Self) -> bool {
        match (self, next) {
            (LineDetail::SalesItemLineDetail(a), LineDetail::SalesItemLineDetail(b)) => {
                &&& b.tax_code_ref matches Some(m) && is_tax_marker(m@)
                &&& b.tax_inclusive_amt == a.tax_inclusive_amt
                &&& b.discount_amt == a.discount_amt
                &&& b.item_ref == a.item_ref
                &&& b.class_ref == a.class_ref
                &&& b.service_date == a.service_date
                &&& b.discount_rate == a.discount_rate
                &&& b.qty == a.qty
                &&& b.unit_price == a.unit_price
                &&& b.tax_classification_ref == a.tax_classification_ref
            },
            (LineDetail::SalesItemLineDetail(_), _) => false,
            _ => next == self,
        }
    }

    fn set_taxable(&mut self) {
        if let LineDetail::SalesItemLineDetail(data) = self {
            data.tax_code_ref = Some(tax_marker());
        }
    }
}

impl TaxableLine for Line {
    open spec fn taxed_rel(&self, next: &Self) -> bool {
        &&& self.line_detail.taxed_rel(&next.line_detail)
        &&& next.amount == self.amount
        &&& next.description == self.description
        &&& next.id == self.id
        &&& next.linked_txn == self.linked_txn
    }

    fn set_taxable(&mut self) {
        self.line_detail.set_taxable();
    }
}

impl TaxableLine for LineField {
    /// Applied to every row of the collection.
    open spec fn taxed_rel(&self, next: &Self) -> bool {
        &&& next@.len() == self@.len()
        &&& forall|i: int| 0 <= i < self@.len() ==> self@[i].taxed_rel(&next@[i])
    }

    fn set_taxable(&mut self) {
        let ghost orig = *self;
        let mut i: usize = 0;
        while i < self.len()
            invariant
                i <= self@.len(),
                self@.len() == orig@.len(),
                forall|j: int| 0 <= j < i ==> orig@[j].taxed_rel(&self@[j]),
                forall|j: int| i <= j < self@.len() ==> self@[j] == orig@[j],
            decreases self@.len() - i,
        {
            let mut taken = Line::default();
            self.set_and_swap(i, &mut taken);
            taken.set_taxable();
            self.set_and_swap(i, &mut taken);
            i = i + 1;
        }
    }
}

impl TaxableLine for Option<LineField> {
    /// Applied to the rows when any are present.
    open spec fn taxed_rel(&self, next: &Self) -> bool {
        match (self, next) {
            (Some(a), Some(b)) => a.taxed_rel(b),
            (None, None) => true,
            _ => false,
        }
    }

    fn set_taxable(&mut self) {
        match self {
            Some(data) => data.set_taxable(),
            None => (),
        }
    }
}

} // verus!
