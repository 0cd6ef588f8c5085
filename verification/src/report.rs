//! Report results: typed columns, nested rows, and the flattening used to
//! export them as a table.
//!
//! Turning the flattened table into a dataframe is the job of an external
//! numerical library and stays outside this crate; the shaping logic that
//! feeds it lives here.

use vstd::prelude::*;
use vstd::string::StrSliceExecFns;
use vstd::string::StringExecFns;

use crate::scalar::Date;
use crate::scalar::Timestamp;

verus! {

/// The value type of a report column.
#[derive(Clone, Copy, Debug, PartialEq, Eq, Structural, Hash)]
pub enum ColumnTypeEnum {
    Account,
    Money,
    Rate,
    Customer,
    Vendor,
    Employee,
    ProductsAndService,
    Department,
    Class,
    StringValue,
}

/// The wire name of a column type.
pub open spec fn spec_column_type_chars(t: ColumnTypeEnum) -> Seq<char> {
    match t {
        ColumnTypeEnum::Account => ("Account")@,
        ColumnTypeEnum::Money => ("Money")@,
        ColumnTypeEnum::Rate => ("Rate")@,
        ColumnTypeEnum::Customer => ("Customer")@,
        ColumnTypeEnum::Vendor => ("Vendor")@,
        ColumnTypeEnum::Employee => ("Employee")@,
        ColumnTypeEnum::ProductsAndService => ("ProductsAndService")@,
        ColumnTypeEnum::Department => ("Department")@,
        ColumnTypeEnum::Class => ("Class")@,
        ColumnTypeEnum::StringValue => ("StringValue")@,
    }
}

impl ColumnTypeEnum {
    /// The string representation of the column type.
    pub fn as_str(&self) -> (r: &'static str)
        ensures
            r@ == spec_column_type_chars(*self),
    {
        match self {
            ColumnTypeEnum::Account => "Account",
            ColumnTypeEnum::Money => "Money",
            ColumnTypeEnum::Rate => "Rate",
            ColumnTypeEnum::Customer => "Customer",
            ColumnTypeEnum::Vendor => "Vendor",
            ColumnTypeEnum::Employee => "Employee",
            ColumnTypeEnum::ProductsAndService => "ProductsAndService",
            ColumnTypeEnum::Department => "Department",
            ColumnTypeEnum::Class => "Class",
            ColumnTypeEnum::StringValue => "StringValue",
        }
    }
}

/// Whether a row is a section header or a data row.
#[derive(Clone, Copy, Debug, PartialEq, Eq, Structural, Hash)]
pub enum RowTypeEnum {
    Section,
    Data,
}

/// Whether the report is on a cash or an accrual basis.
#[derive(Clone, Copy, Debug, PartialEq, Eq, Structural, Hash)]
pub enum ReportBasisEnum {
    Cash,
    Accrual,
}

/// A name and value pair.
#[derive(Clone, Debug, PartialEq, Eq)]
pub struct NameValue {
    pub name: Option<String>,
    pub value: Option<String>,
}

/// One attribute of a cell.
#[derive(Clone, Debug, PartialEq, Eq)]
pub struct Attribute {
    pub attr_type: String,
    pub value: String,
}

/// The attributes of a cell.
#[derive(Clone, Debug, PartialEq, Eq)]
pub struct Attributes {
    pub attribute: Option<Vec<Attribute>>,
}

/// The column definitions of a report.
#[derive(Debug, PartialEq, Eq)]
pub struct Columns {
    pub column: Option<Vec<Column>>,
}

/// One column definition, possibly carrying nested subcolumns.
#[derive(Debug, PartialEq, Eq)]
pub struct Column {
    pub col_title: String,
    pub col_type: ColumnTypeEnum,
    pub meta_data: Option<Vec<NameValue>>,
    pub columns: Option<Columns>,
}

/// One cell of a report row.
#[derive(Clone, Debug, PartialEq, Eq)]
pub struct ColData {
    pub attributes: Option<Attributes>,
    pub value: Option<String>,
    pub id: Option<String>,
    pub href: Option<String>,
}

/// A collection of cells.
#[derive(Clone, Debug, PartialEq, Eq)]
pub struct ColDataCollection {
    pub col_data: Option<Vec<ColData>>,
}

/// The rows of a report.
#[derive(Debug, PartialEq, Eq)]
pub struct Rows {
    pub row: Option<Vec<Row>>,
}

/// What one row holds: either plain cells, or a header with nested rows
/// and a summary.
#[derive(Debug, PartialEq, Eq)]
pub enum RowContent {
    Coldata { col_data: Vec<ColData> },
    HeaderRowsSummary {
        header: Option<ColDataCollection>,
        summary: Option<ColDataCollection>,
        rows: Option<Rows>,
    },
}

/// One report row.
#[derive(Debug, PartialEq, Eq)]
pub struct Row {
    pub content: RowContent,
    pub id: Option<String>,
    pub parent_id: Option<String>,
    pub row_type: Option<RowTypeEnum>,
    pub group: Option<String>,
}

/// The header of a report.
#[derive(Clone, Debug, PartialEq, Eq)]
pub struct ReportHeader {
    pub time: Option<Timestamp>,
    pub report_name: Option<String>,
    pub date_macro: Option<String>,
    pub report_basis: Option<ReportBasisEnum>,
    pub start_period: Option<Date>,
    pub end_period: Option<Date>,
    pub summarize_columns_by: Option<String>,
    pub currency: Option<String>,
    pub option: Option<Vec<NameValue>>,
}

/// A report result: header, column definitions and rows.
#[derive(Debug, PartialEq, Eq)]
pub struct Report {
    pub header: Option<ReportHeader>,
    pub columns: Option<Columns>,
    pub rows: Option<Rows>,
}

/// Why a report cannot be shaped into a table.
#[derive(Clone, Copy, Debug, PartialEq, Eq, Structural, Hash)]
pub enum QBPolarsError {
    /// The report carries rows but no column definitions.
    NoColumnsFound,
    /// Some leaf row does not carry one cell per defined column.
    InvalidRowShape,
}

impl Report {
    /// The report's name, when the header carries one.
    pub fn name(&self) -> (r: Option<&String>)
        ensures
            r.deep_view() == match self.header {
                Some(h) => crate::common::view_opt_str(h.report_name),
                None => None::<Seq<char>>,
            },
    {
        match &self.header {
            Some(h) => h.report_name.as_ref(),
            None => None,
        }
    }

    /// The titles of the top-level columns, in order.
    pub fn column_names(&self) -> (r: Option<Vec<String>>)
        ensures
            r is Some <==> (self.columns matches Some(c) && c.column is Some),
            r matches Some(v) ==> (self.columns matches Some(c) && c.column matches Some(cols)
                && v.deep_view() == spec_column_titles(cols@)),
    {
        match &self.columns {
            Some(c) => match &c.column {
                Some(cols) => {
                    let mut out: Vec<String> = Vec::new();
                    let mut i: usize = 0;
                    while i < cols.len()
                        invariant
                            i <= cols@.len(),
                            out@.len() == i,
                            forall|j: int|
                                0 <= j < i ==> (#[trigger] out@[j])@ == cols@[j].col_title@,
                        decreases cols@.len() - i,
                    {
                        out.push(cols[i].col_title.clone());
                        i = i + 1;
                    }
                    proof {
                        assert(out.deep_view() =~= spec_column_titles(cols@));
                    }
                    Some(out)
                },
                None => None,
            },
            None => None,
        }
    }

    /// The cell rows among the report's top-level rows.
    pub fn row_data(&self) -> (r: Option<Vec<&Vec<ColData>>>)
        ensures
            r is Some <==> (self.rows matches Some(rs) && rs.row is Some),
            r matches Some(v) ==> (self.rows matches Some(rs) && rs.row matches Some(inner)
                && view_leaves(v@) == spec_top_cell_rows(inner@)),
    {
        match &self.rows {
            Some(rs) => match &rs.row {
                Some(inner) => {
                    let mut out: Vec<&Vec<ColData>> = Vec::new();
                    proof {
                        assert(view_leaves(out@) =~= Seq::<Vec<ColData>>::empty());
                    }
                    top_cell_rows_from(inner, 0, &mut out);
                    proof {
                        assert(inner@.skip(0) =~= inner@);
                    }
                    Some(out)
                },
                None => None,
            },
            None => None,
        }
    }
}

/// The cell rows among a row list, in order: rows that carry cells
/// directly, with section rows passed over.
pub open spec fn spec_top_cell_rows(rows: Seq<Row>) -> Seq<Vec<ColData>>
    decreases rows,
{
    if rows.len() == 0 {
        Seq::empty()
    } else {
        (match rows[0].content {
            RowContent::Coldata { col_data } => seq![col_data],
            RowContent::HeaderRowsSummary { .. } => Seq::empty(),
        }) + spec_top_cell_rows(rows.drop_first())
    }
}

/// Collects the top-level cell rows from the given position on.
fn top_cell_rows_from<'a>(rows: &'a Vec<Row>, i: usize, out: &mut Vec<&'a Vec<ColData>>)
    requires
        i <= rows@.len(),
    ensures
        view_leaves(final(out)@) == view_leaves(old(out)@) + spec_top_cell_rows(
            rows@.skip(i as int),
        ),
    decreases rows@.len() - i,
{
    if i == rows.len() {
        proof {
            assert(rows@.skip(rows@.len() as int) =~= Seq::<Row>::empty());
            assert(view_leaves(out@) =~= view_leaves(out@) + spec_top_cell_rows(
                rows@.skip(i as int),
            ));
        }
        return ;
    }
    let ghost before = out@;
    match &rows[i].content {
        RowContent::Coldata { col_data } => {
            out.push(col_data);
        },
        RowContent::HeaderRowsSummary { .. } => (),
    }
    top_cell_rows_from(rows, i + 1, out);
    proof {
        assert(rows@.skip(i as int)[0] == rows@[i as int]);
        assert(rows@.skip(i as int).drop_first() =~= rows@.skip(i as int + 1));
        assert(view_leaves(out@) =~= view_leaves(before) + spec_top_cell_rows(
            rows@.skip(i as int),
        ));
    }
}

/// The titles of a column list, element by element.
pub open spec fn spec_column_titles(cols: Seq<Column>) -> Seq<Seq<char>> {
    Seq::new(cols.len(), |i: int| cols[i].col_title@)
}

/// One flattened column definition: title and value type.
pub open spec fn spec_flatten_one(col: Column, prefix: Option<Seq<char>>) -> Seq<
    (Seq<char>, ColumnTypeEnum),
>
    decreases col, 1int,
{
    let name = if col.col_title@.len() == 0 {
        spec_column_type_chars(col.col_type)
    } else {
        col.col_title@
    };
    let title = match prefix {
        Some(p) => p + (" - ")@ + name,
        None => name,
    };
    match col.columns {
        Some(cs) => match cs.column {
            Some(sub) => spec_flatten(sub@, Some(title)),
            None => seq![(title, col.col_type)],
        },
        None => seq![(title, col.col_type)],
    }
}

/// The flattened column definitions of a column list: leaf columns in
/// order, titles joined to their parents'.
pub open spec fn spec_flatten(cols: Seq<Column>, prefix: Option<Seq<char>>) -> Seq<
    (Seq<char>, ColumnTypeEnum),
>
    decreases cols, 0int,
{
    if cols.len() == 0 {
        Seq::empty()
    } else {
        spec_flatten_one(cols[0], prefix) + spec_flatten(cols.drop_first(), prefix)
    }
}

/// The views of flattened column definitions.
pub open spec fn view_defs(s: Seq<(String, ColumnTypeEnum)>) -> Seq<(Seq<char>, ColumnTypeEnum)> {
    Seq::new(s.len(), |i: int| (s[i].0@, s[i].1))
}

/// The view of an optional borrowed prefix.
pub open spec fn view_prefix(p: Option<&String>) -> Option<Seq<char>> {
    match p {
        Some(s) => Some(s@),
        None => None,
    }
}

/// Flattens column definitions from the given position on, appending leaf
/// `(title, type)` pairs to `out`.
fn flatten_from(
    cols: &Vec<Column>,
    i: usize,
    prefix: Option<&String>,
    out: &mut Vec<(String, ColumnTypeEnum)>,
)
    requires
        i <= cols@.len(),
    ensures
        view_defs(final(out)@) == view_defs(old(out)@) + spec_flatten(
            cols@.skip(i as int),
            view_prefix(prefix),
        ),
    decreases cols, cols@.len() - i,
{
    if i == cols.len() {
        proof {
            assert(cols@.skip(cols@.len() as int) =~= Seq::<Column>::empty());
            assert(view_defs(out@) =~= view_defs(out@) + spec_flatten(
                cols@.skip(i as int),
                view_prefix(prefix),
            ));
        }
        return ;
    }
    let col = &cols[i];
    let name: &str = if col.col_title.as_str().is_empty() {
        col.col_type.as_str()
    } else {
        col.col_title.as_str()
    };
    let title: String = match prefix {
        Some(p) => {
            let mut t = p.clone();
            t.append(" - ");
            t.append(name);
            t
        },
        None => name.to_owned(),
    };
    let ghost before = out@;
    match &col.columns {
        Some(cs) => match &cs.column {
            Some(sub) => {
                proof {
                    assert(decreases_to!(cols@[i as int] => cols@[i as int].columns));
                    assert(decreases_to!(cols@[i as int].columns => cols@[i as int].columns->0));
                    assert(decreases_to!(cols@[i as int].columns->0 => cols@[
                        i as int
                    ].columns->0.column));
                    assert(decreases_to!(cols@[i as int].columns->0.column => *sub));
                }
                flatten_from(sub, 0, Some(&title), out);
                proof {
                    assert(sub@.skip(0) =~= sub@);
                }
            },
            None => {
                out.push((title, col.col_type));
                proof {
                    assert(view_defs(out@) =~= view_defs(before) + spec_flatten_one(
                        cols@[i as int],
                        view_prefix(prefix),
                    ));
                }
            },
        },
        None => {
            out.push((title, col.col_type));
            proof {
                assert(view_defs(out@) =~= view_defs(before) + spec_flatten_one(
                    cols@[i as int],
                    view_prefix(prefix),
                ));
            }
        },
    }
    let ghost mid = out@;
    flatten_from(cols, i + 1, prefix, out);
    proof {
        assert(cols@.skip(i as int)[0] == cols@[i as int]);
        assert(cols@.skip(i as int).drop_first() =~= cols@.skip(i as int + 1));
        assert(view_defs(out@) =~= view_defs(before) + spec_flatten(
            cols@.skip(i as int),
            view_prefix(prefix),
        ));
    }
}

/// Recursively flattens column definitions into `(title, type)` pairs.
/// A parent's title is joined to its children's with a dash.
pub fn flatten_columns(
    cols: &Vec<Column>,
    prefix: Option<&String>,
    out: &mut Vec<(String, ColumnTypeEnum)>,
)
    ensures
        view_defs(final(out)@) == view_defs(old(out)@) + spec_flatten(cols@, view_prefix(prefix)),
{
    flatten_from(cols, 0, prefix, out);
    proof {
        assert(cols@.skip(0) =~= cols@);
    }
}

/// The leaf cell rows of one row: its own cells, or those of the rows
/// nested under its header.
pub open spec fn spec_leaf_rows_of(row: Row) -> Seq<Vec<ColData>>
    decreases row, 1int,
{
    match row.content {
        RowContent::Coldata { col_data } => seq![col_data],
        RowContent::HeaderRowsSummary { header: _, summary: _, rows } => match rows {
            Some(rs) => match rs.row {
                Some(inner) => spec_leaf_rows(inner@),
                None => Seq::empty(),
            },
            None => Seq::empty(),
        },
    }
}

/// The leaf cell rows of a row list.
pub open spec fn spec_leaf_rows(rows: Seq<Row>) -> Seq<Vec<ColData>>
    decreases rows, 0int,
{
    if rows.len() == 0 {
        Seq::empty()
    } else {
        spec_leaf_rows_of(rows[0]) + spec_leaf_rows(rows.drop_first())
    }
}

/// The cell vectors referenced by `out`, as values.
pub open spec fn view_leaves(s: Seq<&Vec<ColData>>) -> Seq<Vec<ColData>> {
    Seq::new(s.len(), |i: int| *s[i])
}

/// Collects the leaf cell rows nested under one row.
pub fn collect_from_row<'a>(row: &'a Row, out: &mut Vec<&'a Vec<ColData>>)
    ensures
        view_leaves(final(out)@) == view_leaves(old(out)@) + spec_leaf_rows_of(*row),
    decreases row, 1int,
{
    let ghost before = out@;
    match &row.content {
        RowContent::Coldata { col_data } => {
            out.push(col_data);
            proof {
                assert(view_leaves(out@) =~= view_leaves(before) + spec_leaf_rows_of(*row));
            }
        },
        RowContent::HeaderRowsSummary { header: _, summary: _, rows } => {
            match rows {
                Some(rs) => match &rs.row {
                    Some(inner) => {
                        proof {
                            assert(decreases_to!(row.content
                                => row.content->HeaderRowsSummary_rows));
                            assert(decreases_to!(row.content->HeaderRowsSummary_rows
                                => row.content->HeaderRowsSummary_rows->0));
                            assert(decreases_to!(row.content->HeaderRowsSummary_rows->0
                                => row.content->HeaderRowsSummary_rows->0.row));
                            assert(decreases_to!(row.content->HeaderRowsSummary_rows->0.row
                                => *inner));
                        }
                        collect_rows_from(inner, 0, out);
                        proof {
                            assert(inner@.skip(0) =~= inner@);
                        }
                    },
                    None => {
                        proof {
                            assert(view_leaves(out@) =~= view_leaves(before)
                                + spec_leaf_rows_of(*row));
                        }
                    },
                },
                None => {
                    proof {
                        assert(view_leaves(out@) =~= view_leaves(before) + spec_leaf_rows_of(
                            *row,
                        ));
                    }
                },
            }
        },
    }
}

/// Collects the leaf cell rows of a row list, from the given position on.
fn collect_rows_from<'a>(rows: &'a Vec<Row>, i: usize, out: &mut Vec<&'a Vec<ColData>>)
    requires
        i <= rows@.len(),
    ensures
        view_leaves(final(out)@) == view_leaves(old(out)@) + spec_leaf_rows(
            rows@.skip(i as int),
        ),
    decreases rows, 0int, rows@.len() - i,
{
    if i == rows.len() {
        proof {
            assert(rows@.skip(rows@.len() as int) =~= Seq::<Row>::empty());
            assert(view_leaves(out@) =~= view_leaves(out@) + spec_leaf_rows(
                rows@.skip(i as int),
            ));
        }
        return ;
    }
    let ghost before = out@;
    collect_from_row(&rows[i], out);
    collect_rows_from(rows, i + 1, out);
    proof {
        assert(rows@.skip(i as int)[0] == rows@[i as int]);
        assert(rows@.skip(i as int).drop_first() =~= rows@.skip(i as int + 1));
        assert(view_leaves(out@) =~= view_leaves(before) + spec_leaf_rows(rows@.skip(i as int)));
    }
}

/// Collects every leaf cell row of a report's rows.
pub fn collect_leaf_rows<'a>(rows: &'a Rows) -> (out: Vec<&'a Vec<ColData>>)
    ensures
        view_leaves(out@) == match rows.row {
            Some(inner) => spec_leaf_rows(inner@),
            None => Seq::empty(),
        },
{
    let mut out: Vec<&Vec<ColData>> = Vec::new();
    match &rows.row {
        Some(inner) => {
            collect_rows_from(inner, 0, &mut out);
            proof {
                assert(inner@.skip(0) =~= inner@);
                assert(view_leaves(Seq::<&Vec<ColData>>::empty()) =~= Seq::<
                    Vec<ColData>,
                >::empty());
            }
        },
        None => {
            proof {
                assert(view_leaves(out@) =~= Seq::<Vec<ColData>>::empty());
            }
        },
    }
    out
}

} // verus!
