use quickbooks_types::collect_leaf_rows;
use quickbooks_types::flatten_columns;
use quickbooks_types::ColData;
use quickbooks_types::Column;
use quickbooks_types::ColumnTypeEnum;
use quickbooks_types::Report;
use quickbooks_types::Row;
use quickbooks_types::RowContent;
use quickbooks_types::Rows;

fn leaf_column(title: &str, col_type: ColumnTypeEnum) -> Column {
    Column {
        col_title: title.to_string(),
        col_type,
        meta_data: None,
        columns: None,
    }
}

fn cell(value: &str) -> ColData {
    ColData {
        attributes: None,
        value: Some(value.to_string()),
        id: None,
        href: None,
    }
}

fn data_row(values: &[&str]) -> Row {
    Row {
        content: RowContent::Coldata {
            col_data: values.iter().map(|v| cell(v)).collect(),
        },
        id: None,
        parent_id: None,
        row_type: None,
        group: None,
    }
}

#[test]
fn test_report_column_names() {
    let report = Report {
        header: None,
        columns: Some(quickbooks_types::Columns {
            column: Some(vec![
                leaf_column("", ColumnTypeEnum::Account),
                leaf_column("Total", ColumnTypeEnum::Money),
            ]),
        }),
        rows: None,
    };
    let column_names = report.column_names().unwrap();
    assert!(!column_names.is_empty());
    assert_eq!(column_names, vec!["".to_string(), "Total".to_string()]);
}

#[test]
fn flatten_joins_nested_titles() {
    let cols = vec![
        leaf_column("Name", ColumnTypeEnum::StringValue),
        Column {
            col_title: "2024".to_string(),
            col_type: ColumnTypeEnum::Money,
            meta_data: None,
            columns: Some(quickbooks_types::Columns {
                column: Some(vec![
                    leaf_column("Q1", ColumnTypeEnum::Money),
                    leaf_column("", ColumnTypeEnum::Money),
                ]),
            }),
        },
    ];
    let mut out = Vec::new();
    flatten_columns(&cols, None, &mut out);
    let titles: Vec<&str> = out.iter().map(|(t, _)| t.as_str()).collect();
    assert_eq!(titles, vec!["Name", "2024 - Q1", "2024 - Money"]);
    assert_eq!(out[1].1, ColumnTypeEnum::Money);
}

#[test]
fn leaf_rows_are_collected_through_sections() {
    let rows = Rows {
        row: Some(vec![
            data_row(&["Checking", "1200.00"]),
            Row {
                content: RowContent::HeaderRowsSummary {
                    header: None,
                    summary: None,
                    rows: Some(Rows {
                        row: Some(vec![
                            data_row(&["Savings", "800.00"]),
                            data_row(&["Cash", "50.00"]),
                        ]),
                    }),
                },
                id: None,
                parent_id: None,
                row_type: None,
                group: None,
            },
        ]),
    };
    let leaves = collect_leaf_rows(&rows);
    assert_eq!(leaves.len(), 3);
    assert_eq!(leaves[1][0].value.as_deref(), Some("Savings"));
    assert_eq!(leaves[2][1].value.as_deref(), Some("50.00"));
}

#[test]
fn row_data_skips_section_rows() {
    let report = Report {
        header: None,
        columns: None,
        rows: Some(Rows {
            row: Some(vec![
                data_row(&["Checking", "1200.00"]),
                Row {
                    content: RowContent::HeaderRowsSummary {
                        header: None,
                        summary: None,
                        rows: None,
                    },
                    id: None,
                    parent_id: None,
                    row_type: None,
                    group: None,
                },
                data_row(&["Savings", "800.00"]),
            ]),
        }),
    };
    let rows = report.row_data().unwrap();
    assert_eq!(rows.len(), 2);
    assert_eq!(rows[0][0].value.as_deref(), Some("Checking"));
    assert_eq!(rows[1][0].value.as_deref(), Some("Savings"));

    let bare = Report {
        header: None,
        columns: None,
        rows: None,
    };
    assert!(bare.row_data().is_none());
}

#[test]
fn report_name_comes_from_the_header() {
    let report = Report {
        header: Some(quickbooks_types::ReportHeader {
            time: None,
            report_name: Some("BalanceSheet".to_string()),
            date_macro: None,
            report_basis: None,
            start_period: None,
            end_period: None,
            summarize_columns_by: None,
            currency: None,
            option: None,
        }),
        columns: None,
        rows: None,
    };
    assert_eq!(report.name().map(|s| s.as_str()), Some("BalanceSheet"));
}
