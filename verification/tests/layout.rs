use fbr_tools::calendar::CalendarDate;
use fbr_tools::labels::CrateLabel;
use fbr_tools::layout::{build_page_ops, document_pages, FontStyle, LayoutOp, Point, Rgb};

fn label(sku: &str, crate_number: usize) -> CrateLabel {
    CrateLabel {
        sku_number: sku.to_string(),
        description: "carrara slab".to_string(),
        warehouse_name: "main yard".to_string(),
        location_stock_type: "SPECIAL ORDER".to_string(),
        customer: "acme stone".to_string(),
        customer_sku: "ac-1".to_string(),
        origin: "italy".to_string(),
        date: CalendarDate { year: 2024, month: 3, day: 5 },
        square_footage_per_crate: "48 SQF".to_string(),
        pieces_per_crate: "12".to_string(),
        weight_per_crate_lbs: "1850".to_string(),
        crate_number,
    }
}

fn texts(ops: &[LayoutOp]) -> Vec<String> {
    ops.iter()
        .filter_map(|op| match op {
            LayoutOp::ShowText { text } => Some(text.clone()),
            _ => None,
        })
        .collect()
}

#[test]
fn a_page_has_263_operations() {
    assert_eq!(build_page_ops(&label("ab", 1)).len(), 263);
    assert_eq!(build_page_ops(&label("a much longer sku", 40)).len(), 263);
}

#[test]
fn the_page_starts_with_the_gray_header_cells() {
    let ops = build_page_ops(&label("ab", 1));
    assert!(matches!(ops[0], LayoutOp::SetFillColor { col: Rgb { r: 191, g: 191, b: 191 } }));
    // The SKU-number cell: 11 mm from the left, 10 mm below the top, 40 by 10 mm.
    match &ops[1] {
        LayoutOp::FillQuad { a, b, c, d } => {
            assert_eq!((a.x, a.y), (11_000_000, 190_000_000));
            assert_eq!((b.x, b.y), (51_000_000, 190_000_000));
            assert_eq!((c.x, c.y), (51_000_000, 200_000_000));
            assert_eq!((d.x, d.y), (11_000_000, 200_000_000));
        }
        other => panic!("unexpected {other:?}"),
    }
}

#[test]
fn the_grid_is_black_half_point_lines() {
    let ops = build_page_ops(&label("ab", 1));
    assert!(matches!(ops[26], LayoutOp::SetOutlineColor { col: Rgb { r: 0, g: 0, b: 0 } }));
    assert!(matches!(ops[27], LayoutOp::SetOutlineThickness { millipoints: 500 }));
    let lines = ops.iter().filter(|op| matches!(op, LayoutOp::DrawLine { .. })).count();
    assert_eq!(lines, 17);
    match &ops[28] {
        LayoutOp::DrawLine { from, to } => {
            assert_eq!((from.x, from.y), (11_000_000, 200_000_000));
            assert_eq!((to.x, to.y), (11_000_000, 10_000_000));
        }
        other => panic!("unexpected {other:?}"),
    }
}

#[test]
fn the_logo_sits_in_the_disclaimer_row() {
    let ops = build_page_ops(&label("ab", 1));
    assert!(matches!(
        ops[45],
        LayoutOp::PlaceLogo { x: 241_000_000, y: 15_000_000, width: 40_000_000, height: 40_000_000 }
    ));
}

#[test]
fn values_are_shown_upper_case() {
    let shown = texts(&build_page_ops(&label("ab-7", 12)));
    assert_eq!(shown.len(), 31);
    assert_eq!(&shown[0..3], &["SKU NUMBER", "DESCRIPTION", "ORIGIN"]);
    assert_eq!(&shown[3..6], &["AB-7", "CARRARA SLAB", "ITALY"]);
    assert_eq!(&shown[8..10], &["ACME STONE", "AC-1"]);
    assert_eq!(&shown[13..16], &["MAIN YARD", "SPECIAL ORDER", "5 MARCH 2024"]);
    assert_eq!(&shown[20..24], &["48 SQF", "12", "1850 LBS", "12"]);
    assert_eq!(shown[24], "DISCLAIMER");
    assert_eq!(
        shown[30],
        "Marble accepts no liability for errors arising from illegible or damaged labels."
    );
}

#[test]
fn upper_case_follows_unicode() {
    let shown = texts(&build_page_ops(&label("straße", 1)));
    assert_eq!(shown[3], "STRASSE");
}

#[test]
fn values_are_centred_on_their_cells() {
    let ops = build_page_ops(&label("ab", 1));
    // The SKU value is the fourth text section; its cursor is its third operation.
    let cursor = &ops[46 + 3 * 7 + 2];
    match cursor {
        LayoutOp::SetTextCursor { pos: Point { x, y } } => {
            // "AB" is two bytes: half its width is 2 * 0.632 * 7.05556 mm / 2, rounded down.
            assert_eq!(*x, 30_340_418 - 4_459_113);
            assert_eq!(*y, 210_000_000 - 34_915_340);
        }
        other => panic!("unexpected {other:?}"),
    }
    assert!(matches!(ops[46 + 3 * 7 + 3], LayoutOp::SetFont { font: FontStyle::Bold, size: 7_055_560 }));
}

#[test]
fn header_labels_are_placed_as_given() {
    let ops = build_page_ops(&label("ab", 1));
    match &ops[46 + 2] {
        LayoutOp::SetTextCursor { pos } => assert_eq!((pos.x, pos.y), (17_614_212, 210_000_000 - 16_413_929)),
        other => panic!("unexpected {other:?}"),
    }
    assert!(matches!(ops[46 + 3], LayoutOp::SetFont { font: FontStyle::Regular, size: 4_233_330 }));
}

#[test]
fn one_page_per_label() {
    let labels = vec![label("a", 1), label("a", 2), label("b", 1)];
    let pages = document_pages(&labels);
    assert_eq!(pages.len(), 3);
    let numbers: Vec<String> = pages.iter().map(|p| texts(p)[23].clone()).collect();
    assert_eq!(numbers, vec!["1", "2", "1"]);
    assert!(document_pages(&[]).is_empty());
}

#[test]
fn frames_are_shared_between_pages() {
    let a = build_page_ops(&label("ab", 1));
    let b = build_page_ops(&label("something else entirely", 99));
    for i in 0..46 {
        assert_eq!(format!("{:?}", a[i]), format!("{:?}", b[i]));
    }
}
