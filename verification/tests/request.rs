use fbr_tools::calendar::CalendarDate;
use fbr_tools::labels::PurchaseOrderLine;
use fbr_tools::request::{
    content_disposition, crate_labels_for_order, parse_purchase_order_number, pdf_file_name,
    LabelsFailure,
};

#[test]
fn purchase_order_numbers_parse_like_std() {
    for text in [
        "983892", "0", "+5", "-5", "-0", "2147483647", "-2147483648", "2147483648",
        "-2147483649", "", "-", "+", "12a", " 12", "12 ", "+-1", "99999999999999999999",
        "007", "١٢",
    ] {
        assert_eq!(parse_purchase_order_number(text), text.parse::<i32>().ok(), "{text:?}");
    }
}

#[test]
fn purchase_order_number_examples() {
    assert_eq!(parse_purchase_order_number("983892"), Some(983892));
    assert_eq!(parse_purchase_order_number("abc"), None);
    assert_eq!(parse_purchase_order_number("-2147483648"), Some(i32::MIN));
}

#[test]
fn purchase_order_number_round_trip() {
    for n in [0, 1, 42, 983892, i32::MAX, -1, i32::MIN] {
        assert_eq!(parse_purchase_order_number(&n.to_string()), Some(n));
    }
}

#[test]
fn failure_replies() {
    assert_eq!(LabelsFailure::InvalidPurchaseOrderNumber.status_code(), 400);
    assert_eq!(LabelsFailure::InvalidPurchaseOrderNumber.message(), "Invalid purchase order number");
    assert_eq!(LabelsFailure::DatabaseConnection.status_code(), 500);
    assert_eq!(LabelsFailure::DatabaseConnection.message(), "Failed to connect to database");
    assert_eq!(LabelsFailure::PurchaseOrderQuery.status_code(), 500);
    assert_eq!(LabelsFailure::PurchaseOrderQuery.message(), "Failed to query purchase order");
    assert_eq!(LabelsFailure::NoCrateLabels.status_code(), 404);
    assert_eq!(
        LabelsFailure::NoCrateLabels.message(),
        "No crate labels found for this purchase order"
    );
}

#[test]
fn pdf_is_named_after_the_order() {
    assert_eq!(pdf_file_name("983892"), "PO-983892-crate-labels.pdf");
    assert_eq!(
        content_disposition("983892"),
        "inline; filename=\"PO-983892-crate-labels.pdf\""
    );
}

fn one_line(crates: Option<usize>) -> PurchaseOrderLine {
    PurchaseOrderLine {
        sku_number: "S".to_string(),
        description: None,
        warehouse_name: None,
        location_stock_type: "SPECIAL ORDER".to_string(),
        customer: None,
        customer_sku: None,
        origin: None,
        date: CalendarDate { year: 1970, month: 1, day: 1 },
        square_footage_per_crate: None,
        number_of_crates: crates,
        pieces_per_crate: None,
        weight_per_crate_lbs: None,
    }
}

#[test]
fn an_order_without_crates_is_not_found() {
    assert_eq!(
        crate_labels_for_order(vec![one_line(None), one_line(Some(0))]).err(),
        Some(LabelsFailure::NoCrateLabels)
    );
    assert_eq!(crate_labels_for_order(Vec::new()).err(), Some(LabelsFailure::NoCrateLabels));
}

#[test]
fn an_order_with_crates_gives_its_labels() {
    let labels = crate_labels_for_order(vec![one_line(Some(2))]).ok().unwrap();
    assert_eq!(labels.len(), 2);
}
