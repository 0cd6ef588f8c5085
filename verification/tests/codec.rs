use quickbooks_types::content_type_from_ext;
use quickbooks_types::decode_line;
use quickbooks_types::encode_line;
use quickbooks_types::Date;
use quickbooks_types::Decimal;
use quickbooks_types::DecodeError;
use quickbooks_types::EncodeError;
use quickbooks_types::Line;
use quickbooks_types::LineDetail;
use quickbooks_types::NtRef;
use quickbooks_types::SalesItemLineDetail;
use quickbooks_types::SubTotalLineDetail;
use quickbooks_types::WireField;
use quickbooks_types::WireValue;

fn field(key: &str, value: WireValue) -> WireField {
    WireField {
        key: key.to_string(),
        value,
    }
}

fn ref_obj(name: Option<&str>, value: &str) -> WireValue {
    let mut fields = Vec::new();
    if let Some(n) = name {
        fields.push(field("name", WireValue::Str(n.to_string())));
    }
    fields.push(field("value", WireValue::Str(value.to_string())));
    WireValue::Obj(fields)
}

fn sales_row(description: &str, qty: i64, unit_price_hundredths: i64, item: (&str, &str), amount_hundredths: i64, id: &str) -> WireValue {
    let payload = WireValue::Obj(vec![
        field("TaxCodeRef", ref_obj(None, "TAX")),
        field("Qty", WireValue::Num(Decimal::from_hundredths(qty * 100))),
        field("UnitPrice", WireValue::Num(Decimal::from_hundredths(unit_price_hundredths))),
        field("ItemRef", ref_obj(Some(item.0), item.1)),
    ]);
    WireValue::Obj(vec![
        field("Description", WireValue::Str(description.to_string())),
        field("DetailType", WireValue::Str("SalesItemLineDetail".to_string())),
        field("SalesItemLineDetail", payload),
        field("LineNum", WireValue::Num(Decimal::from_hundredths(100))),
        field("Amount", WireValue::Num(Decimal::from_hundredths(amount_hundredths))),
        field("Id", WireValue::Str(id.to_string())),
    ])
}

#[test]
fn deserialize_line() {
    let rows = vec![
        sales_row("Rock Fountain", 1, 27500, ("Rock Fountain", "5"), 27500, "1"),
        sales_row("Fountain Pump", 1, 1275, ("Pump", "11"), 1275, "2"),
        sales_row("Concrete for fountain installation", 5, 950, ("Concrete", "3"), 4750, "3"),
        WireValue::Obj(vec![
            field("DetailType", WireValue::Str("SubTotalLineDetail".to_string())),
            field("Amount", WireValue::Num(Decimal::from_hundredths(33525))),
            field("SubTotalLineDetail", WireValue::Obj(Vec::new())),
        ]),
    ];
    let mut decoded = Vec::new();
    for row in &rows {
        decoded.push(decode_line(row).unwrap());
    }
    assert_eq!(decoded.len(), 4);
    assert_eq!(decoded[0].description.as_deref(), Some("Rock Fountain"));
    assert_eq!(decoded[0].amount, Some(Decimal::from_hundredths(27500)));
    assert_eq!(decoded[1].amount, Some(Decimal::from_hundredths(1275)));
    match &decoded[0].line_detail {
        LineDetail::SalesItemLineDetail(d) => {
            assert_eq!(d.qty, Some(Decimal::from_hundredths(100)));
            assert_eq!(d.unit_price, Some(Decimal::from_hundredths(27500)));
            let item = d.item_ref.as_ref().unwrap();
            assert_eq!(item.name.as_deref(), Some("Rock Fountain"));
            assert_eq!(item.value.as_deref(), Some("5"));
            let tax = d.tax_code_ref.as_ref().unwrap();
            assert_eq!(tax.value.as_deref(), Some("TAX"));
        }
        other => panic!("expected a sold-item detail, got {:?}", other),
    }
    match &decoded[3].line_detail {
        LineDetail::SubTotalLineDetail(d) => {
            assert_eq!(d.item_ref, NtRef::default());
        }
        other => panic!("expected a subtotal detail, got {:?}", other),
    }
}

fn sample_sales_line() -> Line {
    Line {
        line_detail: LineDetail::SalesItemLineDetail(SalesItemLineDetail {
            tax_inclusive_amt: None,
            discount_amt: None,
            item_ref: Some(NtRef {
                entity_ref_type: None,
                name: Some("Pump".to_string()),
                value: Some("11".to_string()),
            }),
            class_ref: None,
            tax_code_ref: Some(NtRef {
                entity_ref_type: None,
                name: None,
                value: Some("TAX".to_string()),
            }),
            service_date: Some(Date {
                year: 2024,
                month: 2,
                day: 29,
            }),
            discount_rate: None,
            qty: Some(Decimal::from_hundredths(100)),
            unit_price: Some(Decimal::from_hundredths(1275)),
            tax_classification_ref: None,
        }),
        amount: Some(Decimal::from_hundredths(1275)),
        description: Some("Fountain Pump".to_string()),
        id: Some("2".to_string()),
        linked_txn: None,
    }
}

#[test]
fn sales_line_round_trip() {
    let line = sample_sales_line();
    let wire = encode_line(&line).unwrap();
    let back = decode_line(&wire).unwrap();
    assert_eq!(back, line);
}

#[test]
fn subtotal_line_round_trip() {
    let line = Line {
        line_detail: LineDetail::SubTotalLineDetail(SubTotalLineDetail {
            item_ref: NtRef::default(),
        }),
        amount: Some(Decimal::from_hundredths(33525)),
        description: None,
        id: None,
        linked_txn: None,
    };
    let wire = encode_line(&line).unwrap();
    let back = decode_line(&wire).unwrap();
    assert_eq!(back, line);
}

#[test]
fn group_line_round_trip() {
    let inner = sample_sales_line();
    let line = Line {
        line_detail: LineDetail::GroupLineDetail(quickbooks_types::GroupLineDetail {
            quantity: Decimal::from_hundredths(200),
            line: vec![inner],
            group_item_ref: NtRef {
                entity_ref_type: None,
                name: Some("Fountains".to_string()),
                value: Some("77".to_string()),
            },
        }),
        amount: Some(Decimal::from_hundredths(2550)),
        description: None,
        id: Some("9".to_string()),
        linked_txn: None,
    };
    let wire = encode_line(&line).unwrap();
    let back = decode_line(&wire).unwrap();
    assert_eq!(back, line);
}

#[test]
fn encoding_empty_detail_fails() {
    let line = Line {
        line_detail: LineDetail::Empty,
        amount: Some(Decimal::from_hundredths(100)),
        description: None,
        id: None,
        linked_txn: None,
    };
    assert_eq!(encode_line(&line), Err(EncodeError::EmptyDetail));
}

#[test]
fn encoding_emits_detail_type_tag() {
    let wire = encode_line(&sample_sales_line()).unwrap();
    let fields = match wire {
        WireValue::Obj(fields) => fields,
        other => panic!("expected an object, got {:?}", other),
    };
    let tag: Vec<&WireField> = fields.iter().filter(|f| f.key == "DetailType").collect();
    assert_eq!(tag.len(), 1);
    assert_eq!(
        tag[0].value,
        WireValue::Str("SalesItemLineDetail".to_string())
    );
    assert!(fields.iter().any(|f| f.key == "SalesItemLineDetail"));
}

#[test]
fn ambiguous_detail_fails() {
    let row = WireValue::Obj(vec![
        field("SalesItemLineDetail", WireValue::Obj(Vec::new())),
        field("SubTotalLineDetail", WireValue::Obj(Vec::new())),
    ]);
    assert_eq!(decode_line(&row), Err(DecodeError::AmbiguousDetail));
}

#[test]
fn missing_detail_key_decodes_to_empty() {
    let row = WireValue::Obj(vec![
        field("Amount", WireValue::Num(Decimal::from_hundredths(33525))),
        field("FutureDetailKind", WireValue::Obj(Vec::new())),
    ]);
    let line = decode_line(&row).unwrap();
    assert!(matches!(line.line_detail, LineDetail::Empty));
    assert_eq!(line.amount, Some(Decimal::from_hundredths(33525)));
}

#[test]
fn non_object_row_fails() {
    assert_eq!(
        decode_line(&WireValue::Str("row".to_string())),
        Err(DecodeError::NotAnObject)
    );
}

#[test]
fn malformed_field_shape_fails() {
    let row = WireValue::Obj(vec![
        field("SubTotalLineDetail", WireValue::Obj(Vec::new())),
        field("Amount", WireValue::Str("not a number".to_string())),
    ]);
    assert_eq!(decode_line(&row), Err(DecodeError::FieldShape));
}

#[test]
fn reference_aliases_are_accepted() {
    let payload = WireValue::Obj(vec![field(
        "ItemRef",
        WireValue::Obj(vec![
            field("Name", WireValue::Str("Pump".to_string())),
            field("Value", WireValue::Str("11".to_string())),
        ]),
    )]);
    let row = WireValue::Obj(vec![field("SalesItemLineDetail", payload)]);
    let line = decode_line(&row).unwrap();
    match &line.line_detail {
        LineDetail::SalesItemLineDetail(d) => {
            let item = d.item_ref.as_ref().unwrap();
            assert_eq!(item.name.as_deref(), Some("Pump"));
            assert_eq!(item.value.as_deref(), Some("11"));
        }
        other => panic!("expected a sold-item detail, got {:?}", other),
    }
}

#[test]
fn invalid_service_date_rejected_on_encode() {
    let mut line = sample_sales_line();
    if let LineDetail::SalesItemLineDetail(d) = &mut line.line_detail {
        d.service_date = Some(Date {
            year: 2024,
            month: 13,
            day: 1,
        });
    }
    assert_eq!(encode_line(&line), Err(EncodeError::InvalidDate));
}

#[test]
fn dates_travel_as_text() {
    let wire = encode_line(&sample_sales_line()).unwrap();
    let fields = match wire {
        WireValue::Obj(fields) => fields,
        other => panic!("expected an object, got {:?}", other),
    };
    let payload = fields
        .iter()
        .find(|f| f.key == "SalesItemLineDetail")
        .unwrap();
    let inner = match &payload.value {
        WireValue::Obj(inner) => inner,
        other => panic!("expected an object, got {:?}", other),
    };
    let service = inner.iter().find(|f| f.key == "ServiceDate").unwrap();
    assert_eq!(service.value, WireValue::Str("2024-02-29".to_string()));
}

#[test]
fn fractional_seconds_are_accepted_and_discarded() {
    let payload = WireValue::Obj(vec![field(
        "ServiceDate",
        WireValue::Str("2015-07-01T09:16:28.250-07:00".to_string()),
    )]);
    let row = WireValue::Obj(vec![field("DescriptionLineDetail", payload)]);
    let line = decode_line(&row).unwrap();
    match &line.line_detail {
        LineDetail::DescriptionLineDetail(d) => {
            assert_eq!(d.service_date.date.year, 2015);
            assert_eq!(d.service_date.hour, 9);
            assert_eq!(d.service_date.second, 28);
            assert_eq!(d.service_date.offset_minutes, -420);
        }
        other => panic!("expected a description detail, got {:?}", other),
    }

    let bad = WireValue::Obj(vec![field(
        "DescriptionLineDetail",
        WireValue::Obj(vec![field(
            "ServiceDate",
            WireValue::Str("2015-07-01T09:16:28.-07:00".to_string()),
        )]),
    )]);
    assert_eq!(decode_line(&bad), Err(DecodeError::FieldShape));
}

#[test]
fn content_types_match_known_extensions() {
    assert_eq!(content_type_from_ext("pdf"), Some("application/pdf"));
    assert_eq!(content_type_from_ext("jpeg"), Some("image/jpeg"));
    assert_eq!(content_type_from_ext("txt"), Some("text/plain"));
    assert_eq!(content_type_from_ext("eps"), Some("application/postscript"));
    assert_eq!(content_type_from_ext("zip"), None);
}
