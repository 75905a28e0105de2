use fbr_tools::calendar::CalendarDate;
use fbr_tools::labels::{
    expand_to_crate_labels, format_square_footage, format_whole_number, CrateLabel,
    PurchaseOrderLine,
};
use fbr_tools::text::{format_i64, format_u64};

fn line(sku: &str, crates: Option<usize>) -> PurchaseOrderLine {
    PurchaseOrderLine {
        sku_number: sku.to_string(),
        description: Some("Carrara slab".to_string()),
        warehouse_name: None,
        location_stock_type: "SPECIAL ORDER".to_string(),
        customer: Some("Acme Stone".to_string()),
        customer_sku: None,
        origin: Some("Italy".to_string()),
        date: CalendarDate { year: 2024, month: 3, day: 5 },
        square_footage_per_crate: Some(48),
        number_of_crates: crates,
        pieces_per_crate: Some("12.000000".to_string()),
        weight_per_crate_lbs: Some("1850.5".to_string()),
    }
}

#[test]
fn whole_number_drops_the_fraction() {
    assert_eq!(format_whole_number(Some("12.5")), "12");
    assert_eq!(format_whole_number(Some("12.000000")), "12");
    assert_eq!(format_whole_number(Some("1.2.3")), "1");
}

#[test]
fn whole_number_keeps_text_without_a_point() {
    assert_eq!(format_whole_number(Some("7")), "7");
    assert_eq!(format_whole_number(Some("abc")), "abc");
    assert_eq!(format_whole_number(Some("")), "");
}

#[test]
fn whole_number_of_a_leading_point_is_empty() {
    assert_eq!(format_whole_number(Some(".5")), "");
}

#[test]
fn whole_number_of_nothing_is_empty() {
    assert_eq!(format_whole_number(None), "");
}

#[test]
fn whole_number_is_idempotent() {
    let once = format_whole_number(Some("42.75"));
    let twice = format_whole_number(Some(once.as_str()));
    assert_eq!(once, twice);
}

#[test]
fn whole_number_of_non_ascii_text() {
    assert_eq!(format_whole_number(Some("ünf.zig")), "ünf");
}

#[test]
fn square_footage_is_printed_with_its_unit() {
    assert_eq!(format_square_footage(Some(48)), "48 SQF");
    assert_eq!(format_square_footage(Some(0)), "0 SQF");
    assert_eq!(format_square_footage(Some(-3)), "-3 SQF");
    assert_eq!(format_square_footage(None), "");
}

#[test]
fn integers_in_decimal() {
    assert_eq!(format_u64(0), "0");
    assert_eq!(format_u64(10), "10");
    assert_eq!(format_u64(1234567890), "1234567890");
    assert_eq!(format_u64(u64::MAX), u64::MAX.to_string());
    assert_eq!(format_i64(-7), "-7");
    assert_eq!(format_i64(i64::MIN), i64::MIN.to_string());
    assert_eq!(format_i64(i64::MAX), i64::MAX.to_string());
}

fn numbers(labels: &[CrateLabel]) -> Vec<(String, usize)> {
    labels.iter().map(|l| (l.sku_number.clone(), l.crate_number)).collect()
}

#[test]
fn one_label_per_crate_in_line_order() {
    let lines = vec![
        line("A1", Some(3)),
        line("B2", None),
        line("C3", Some(0)),
        line("D4", Some(2)),
    ];
    let labels = expand_to_crate_labels(lines);
    assert_eq!(
        numbers(&labels),
        vec![
            ("A1".to_string(), 1),
            ("A1".to_string(), 2),
            ("A1".to_string(), 3),
            ("D4".to_string(), 1),
            ("D4".to_string(), 2),
        ]
    );
}

#[test]
fn no_lines_give_no_labels() {
    assert!(expand_to_crate_labels(Vec::new()).is_empty());
}

#[test]
fn labels_carry_the_line_fields() {
    let labels = expand_to_crate_labels(vec![line("SKU-9", Some(1))]);
    assert_eq!(labels.len(), 1);
    let label = &labels[0];
    assert_eq!(label.sku_number, "SKU-9");
    assert_eq!(label.description, "Carrara slab");
    assert_eq!(label.warehouse_name, "");
    assert_eq!(label.location_stock_type, "SPECIAL ORDER");
    assert_eq!(label.customer, "Acme Stone");
    assert_eq!(label.customer_sku, "");
    assert_eq!(label.origin, "Italy");
    assert_eq!(label.square_footage_per_crate, "48 SQF");
    assert_eq!(label.pieces_per_crate, "12");
    assert_eq!(label.weight_per_crate_lbs, "1850");
    assert_eq!(label.crate_number, 1);
    assert_eq!((label.date.year, label.date.month, label.date.day), (2024, 3, 5));
}

#[test]
fn missing_counts_and_texts_become_empty() {
    let mut bare = line("X", Some(1));
    bare.description = None;
    bare.origin = None;
    bare.square_footage_per_crate = None;
    bare.pieces_per_crate = None;
    bare.weight_per_crate_lbs = None;
    let labels = expand_to_crate_labels(vec![bare]);
    assert_eq!(labels[0].description, "");
    assert_eq!(labels[0].origin, "");
    assert_eq!(labels[0].square_footage_per_crate, "");
    assert_eq!(labels[0].pieces_per_crate, "");
    assert_eq!(labels[0].weight_per_crate_lbs, "");
}
