use quickbooks_types::AttachableBuilder;
use quickbooks_types::ItemType;
use quickbooks_types::Decimal;
use quickbooks_types::Email;
use quickbooks_types::EmailStatus;
use quickbooks_types::EntityKind;
use quickbooks_types::Line;
use quickbooks_types::LineDetail;
use quickbooks_types::EntityRecord;
use quickbooks_types::NtRef;
use quickbooks_types::QBAttachable;
use quickbooks_types::QBCreatable;
use quickbooks_types::QBDeletable;
use quickbooks_types::QBFullUpdatable;
use quickbooks_types::QBItem;
use quickbooks_types::QBReadable;
use quickbooks_types::QBSparseUpdateable;
use quickbooks_types::QBToRef;
use quickbooks_types::QBTypeError;
use quickbooks_types::QBVoidable;
use quickbooks_types::SubTotalLineDetail;
use quickbooks_types::TaxExemptStatus;
use quickbooks_types::TaxableLine;

fn ready_line() -> Line {
    Line {
        line_detail: LineDetail::SubTotalLineDetail(SubTotalLineDetail {
            item_ref: NtRef::default(),
        }),
        amount: Some(Decimal::whole(100)),
        description: None,
        id: None,
        linked_txn: None,
    }
}

fn bare_ref() -> NtRef {
    NtRef {
        entity_ref_type: None,
        name: None,
        value: Some("1".to_string()),
    }
}

#[test]
fn bare_person_record_is_not_creatable() {
    let mut customer = EntityRecord::new(EntityKind::Customer);
    assert!(!customer.can_create());
    customer.display_name = Some("John Doe".to_string());
    assert!(customer.can_create());

    let mut vendor = EntityRecord::new(EntityKind::Vendor);
    assert!(!vendor.can_create());
    vendor.given_name = Some("Ada".to_string());
    assert!(vendor.can_create());

    let mut other = EntityRecord::new(EntityKind::Customer);
    other.family_name = Some("Doe".to_string());
    assert!(other.can_create());
}

#[test]
fn document_needs_target_and_ready_line() {
    let mut invoice = EntityRecord::new(EntityKind::Invoice);
    invoice.line = Some(vec![ready_line()]);
    assert!(!invoice.can_create());
    invoice.target_ref = Some(bare_ref());
    assert!(invoice.can_create());

    let mut empty_lines = EntityRecord::new(EntityKind::Invoice);
    empty_lines.target_ref = Some(bare_ref());
    empty_lines.line = Some(Vec::new());
    assert!(!empty_lines.can_create());

    let mut unready = EntityRecord::new(EntityKind::Invoice);
    unready.target_ref = Some(bare_ref());
    unready.line = Some(vec![Line::default()]);
    assert!(!unready.can_create());
}

#[test]
fn three_records() {
    let mut e = EntityRecord::new(EntityKind::Estimate);
    assert!(!e.has_read());
    assert!(!e.can_delete());
    e.id = Some("42".to_string());
    assert!(!e.has_read());
    assert!(e.can_read());
    e.sync_token = Some("3".to_string());
    assert!(e.has_read());
    assert_eq!(e.can_delete(), e.has_read());
    assert_eq!(e.can_void(), e.has_read());
}

#[test]
fn reference_needs_an_id() {
    let mut customer = EntityRecord::new(EntityKind::Customer);
    customer.display_name = Some("Acme".to_string());
    assert_eq!(customer.to_ref(), Err(QBTypeError::QBToRefError));

    customer.id = Some("42".to_string());
    let r = customer.to_ref().unwrap();
    assert_eq!(r.entity_ref_type.as_deref(), Some("Customer"));
    assert_eq!(r.name.as_deref(), Some("Acme"));
    assert_eq!(r.value.as_deref(), Some("42"));
}

#[test]
fn sparse_update_needs_the_flag() {
    let mut customer = EntityRecord::new(EntityKind::Customer);
    customer.id = Some("42".to_string());
    customer.sync_token = Some("0".to_string());
    customer.display_name = Some("Acme".to_string());
    assert!(customer.can_full_update());
    assert!(!customer.can_sparse_update());
    customer.sparse = Some(false);
    assert!(!customer.can_sparse_update());
    customer.sparse = Some(true);
    assert!(customer.can_sparse_update());
}

#[test]
fn full_update_needs_both_identifiers() {
    // A record with an id but no concurrency stamp is not fully updatable.
    let mut customer = EntityRecord::new(EntityKind::Customer);
    customer.id = Some("42".to_string());
    customer.display_name = Some("Acme".to_string());
    assert!(!customer.can_full_update());
    customer.sync_token = Some("0".to_string());
    assert!(customer.can_full_update());

    // A creatable receipt that was never read back is not fully updatable.
    let mut receipt = EntityRecord::new(EntityKind::SalesReceipt);
    receipt.target_ref = Some(bare_ref());
    receipt.line = Some(vec![ready_line()]);
    assert!(receipt.can_create());
    assert!(!receipt.can_full_update());
    receipt.id = Some("5".to_string());
    receipt.sync_token = Some("1".to_string());
    assert!(receipt.can_full_update());

    // Company information needs both identifiers beside its named fields.
    let mut info = EntityRecord::new(EntityKind::CompanyInfo);
    info.sync_token = Some("2".to_string());
    info.company_name = Some("Acme".to_string());
    info.company_addr = Some(quickbooks_types::Addr::default());
    assert!(!info.can_full_update());
    info.id = Some("1".to_string());
    assert!(info.can_full_update());
}

#[test]
fn estimate_full_update_needs_a_ready_row() {
    let mut estimate = EntityRecord::new(EntityKind::Estimate);
    estimate.id = Some("7".to_string());
    estimate.sync_token = Some("0".to_string());
    estimate.target_ref = Some(bare_ref());
    assert!(!estimate.can_full_update());
    estimate.line = Some(vec![Line::default()]);
    assert!(!estimate.can_full_update());
    estimate.line = Some(vec![ready_line()]);
    assert!(estimate.can_full_update());
}

#[test]
fn estimate_pending_send_needs_billing_email() {
    let mut estimate = EntityRecord::new(EntityKind::Estimate);
    estimate.id = Some("7".to_string());
    estimate.sync_token = Some("0".to_string());
    estimate.target_ref = Some(bare_ref());
    estimate.line = Some(vec![ready_line()]);
    assert!(estimate.has_read());
    assert!(estimate.can_create());
    assert!(estimate.can_full_update());

    estimate.email_status = Some(EmailStatus::NeedToSend);
    assert!(!estimate.can_full_update());

    estimate.bill_email = Some(Email {
        address: Some("billing@example.com".to_string()),
    });
    assert!(estimate.can_full_update());
}

#[test]
fn item_create_depends_on_item_type() {
    let mut item = EntityRecord::new(EntityKind::Item);
    item.name = Some("Widget".to_string());
    assert!(!item.can_create());
    item.expense_account_ref = Some(bare_ref());
    assert!(!item.can_create());
    item.asset_account_ref = Some(bare_ref());
    assert!(item.can_create());

    item.item_type = Some(ItemType::Service);
    assert!(!item.can_create());
    item.income_account_ref = Some(bare_ref());
    assert!(item.can_create());

    item.item_type = Some(ItemType::Inventory);
    assert!(!item.can_create());
    item.inv_start_date = Some(quickbooks_types::Date {
        year: 2024,
        month: 1,
        day: 1,
    });
    item.qty_on_hand = Some(10);
    assert!(item.can_create());
}

#[test]
fn attachable_upload_errors_name_the_missing_field() {
    let mut a = EntityRecord::new(EntityKind::Attachable);
    match a.can_upload() {
        Err(QBTypeError::MissingField(f)) => assert_eq!(f, "note"),
        other => panic!("expected a missing-field error, got {:?}", other),
    }
    a.note = Some("receipt scan".to_string());
    match a.can_upload() {
        Err(QBTypeError::MissingField(f)) => assert_eq!(f, "file_name"),
        other => panic!("expected a missing-field error, got {:?}", other),
    }
    a.file_name = Some("receipt.pdf".to_string());
    assert!(a.can_upload().is_ok());
    assert_eq!(a.file_path().map(|s| s.as_str()), Some("receipt.pdf"));
}

#[test]
fn builder_derives_file_fields_from_path() {
    let b = AttachableBuilder::new()
        .file("scans/2024/receipt.pdf")
        .unwrap();
    assert_eq!(b.file_name.as_deref(), Some("receipt.pdf"));
    assert_eq!(b.file_path.as_deref(), Some("scans/2024/receipt.pdf"));
    assert_eq!(b.content_type.as_deref(), Some("application/pdf"));

    let record = b.build();
    assert_eq!(record.kind, EntityKind::Attachable);
    assert_eq!(record.file_name.as_deref(), Some("receipt.pdf"));

    assert!(AttachableBuilder::new().file("scans/").is_err());
    assert!(AttachableBuilder::new().file("scans/noextension").is_err());
    assert!(AttachableBuilder::new().file("scans/.bashrc").is_err());
    assert!(AttachableBuilder::new().file(".bashrc").is_err());
}

#[test]
fn references_convert_from_borrowed_strings() {
    let r = NtRef::from("42");
    assert_eq!(r.value.as_deref(), Some("42"));
    assert_eq!(r.name, None);

    let r = NtRef::from(("Acme", "42"));
    assert_eq!(r.name.as_deref(), Some("Acme"));
    assert_eq!(r.value.as_deref(), Some("42"));
}

#[test]
fn meta_data_is_exposed_through_the_trait() {
    let mut e = EntityRecord::new(EntityKind::Customer);
    assert!(e.meta_data().is_none());
    let stamp = quickbooks_types::Timestamp::new(
        quickbooks_types::Date::new(2024, 1, 2),
        3,
        4,
        5,
        0,
    );
    e.meta_data = Some(quickbooks_types::MetaData {
        create_time: stamp,
        last_updated_time: stamp,
    });
    assert_eq!(e.meta_data().unwrap().create_time, stamp);
}

#[test]
fn set_taxable_marks_sold_item_details() {
    let mut lines = vec![
        Line {
            line_detail: LineDetail::SalesItemLineDetail(quickbooks_types::SalesItemLineDetail {
                tax_inclusive_amt: None,
                discount_amt: None,
                item_ref: None,
                class_ref: None,
                tax_code_ref: None,
                service_date: None,
                discount_rate: None,
                qty: None,
                unit_price: None,
                tax_classification_ref: None,
            }),
            amount: Some(Decimal::whole(5)),
            description: None,
            id: None,
            linked_txn: None,
        },
        ready_line(),
    ];
    lines.set_taxable();
    match &lines[0].line_detail {
        LineDetail::SalesItemLineDetail(d) => {
            let marker = d.tax_code_ref.as_ref().unwrap();
            assert_eq!(marker.value.as_deref(), Some("TAX"));
            assert_eq!(marker.name, None);
        }
        other => panic!("expected a sold-item detail, got {:?}", other),
    }
    assert_eq!(lines[1], ready_line());
}

#[test]
fn tax_exempt_codes_round_trip() {
    assert_eq!(TaxExemptStatus::from(5), TaxExemptStatus::CharitableOrganization);
    assert_eq!(u8::from(TaxExemptStatus::CharitableOrganization), 5);
    assert_eq!(TaxExemptStatus::from(99), TaxExemptStatus::Other);
    assert_eq!(u8::from(TaxExemptStatus::Other), 0);
    assert_eq!(u8::from(TaxExemptStatus::ForeignDiplomat), 15);
}

#[test]
fn descriptor_names_and_memberships() {
    let d = EntityKind::Invoice.descriptor();
    assert_eq!(d.name, "Invoice");
    assert_eq!(d.api_id, "invoice");
    assert!(d.supports_delete);
    assert!(d.supports_void);
    assert!(d.supports_send);
    assert!(d.supports_pdf);
    assert!(d.supports_sparse_update);

    let c = EntityKind::Customer.descriptor();
    assert!(!c.supports_delete);
    assert!(!c.supports_void);
    assert!(c.supports_full_update);

    assert_eq!(EntityKind::Currency.canonical_name(), "CompanyCurrency");
    assert_eq!(EntityKind::SalesReceipt.qb_id(), "salesreceipt");
    assert!(!EntityKind::TaxAgency.descriptor().supports_full_update);
}

#[test]
fn class_and_department_rules() {
    let mut class = EntityRecord::new(EntityKind::Class);
    class.name = Some("   ".to_string());
    assert!(!class.can_create());
    class.name = Some("\u{00a0}\u{2003}".to_string());
    assert!(!class.can_create());
    class.name = Some("Landscaping".to_string());
    assert!(class.can_create());
    class.sub_entry = Some(true);
    assert!(!class.can_create());
    class.parent_ref = Some(bare_ref());
    assert!(class.can_create());

    let mut dept = EntityRecord::new(EntityKind::Department);
    dept.name = Some("North".to_string());
    assert!(dept.can_create());
    dept.sub_entry = Some(true);
    assert!(!dept.can_create());
    dept.parent_ref = Some(bare_ref());
    assert!(dept.can_create());
}

#[test]
fn address_renders_as_one_line() {
    let mut addr = quickbooks_types::Addr::default();
    addr.line1 = Some("4581 Finch St.".to_string());
    addr.city = Some("Bayshore".to_string());
    addr.country_sub_division_code = Some("CA".to_string());
    addr.postal_code = Some("94326".to_string());
    assert_eq!(addr.display_line(), "4581 Finch St., Bayshore, CA,  94326");
}
