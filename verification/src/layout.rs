//! The page of a crate label as a list of drawing operations.
//!
//! Lengths are whole nanometres (a millionth of a millimetre) on an A4
//! landscape page. Positions are given the way the label was designed, from
//! the top edge of the page, and are turned into PDF positions, which count
//! from the bottom edge.

use vstd::prelude::*;
use vstd::utf8::encode_utf8;
use crate::labels::{CrateLabel, LabelView};
use crate::text::{decimal, format_u64, to_uppercase, uppercase};

verus! {

/// The width of the page: 297 mm.
pub const PAGE_WIDTH_NM: i64 = 297_000_000;

/// The height of the page: 210 mm.
pub const PAGE_HEIGHT_NM: i64 = 210_000_000;

/// The size of the header labels of the cells (4.23333 mm).
pub const HEADER_LABEL_SIZE_NM: u32 = 4_233_330;

/// The size of the values in the cells (7.05556 mm).
pub const VALUE_SIZE_NM: u32 = 7_055_560;

/// The size of the disclaimer text (3.52778 mm).
pub const DISCLAIMER_SIZE_NM: u32 = 3_527_780;

/// The gray of the header cells: 191 of 255 on each channel (#bfbfbf).
pub const HEADER_BACKGROUND_GRAY: u8 = 191;

/// A colour by its red, green and blue levels out of 255.
#[derive(Clone, Copy, Debug, PartialEq, Eq, Structural)]
pub struct Rgb {
    pub r: u8,
    pub g: u8,
    pub b: u8,
}

/// A point of the page in PDF coordinates (nanometres from the bottom-left corner).
#[derive(Clone, Copy, Debug, PartialEq, Eq, Structural)]
pub struct Point {
    pub x: i128,
    pub y: i128,
}

/// The two faces of the label font.
#[derive(Clone, Copy, Debug, PartialEq, Eq, Structural)]
pub enum FontStyle {
    Regular,
    Bold,
}

/// One drawing operation of a page.
#[derive(Debug)]
pub enum LayoutOp {
    /// The colour of what is filled or written next.
    SetFillColor { col: Rgb },
    /// A filled four-cornered polygon, its corners in drawing order.
    FillQuad { a: Point, b: Point, c: Point, d: Point },
    /// The colour of the lines drawn next.
    SetOutlineColor { col: Rgb },
    /// The thickness of the lines drawn next, in thousandths of a point.
    SetOutlineThickness { millipoints: u32 },
    /// A straight line.
    DrawLine { from: Point, to: Point },
    /// The logo, its lower-left corner at `(x, y)`, scaled to `width` by `height`.
    PlaceLogo { x: i128, y: i128, width: i128, height: i128 },
    StartTextSection,
    /// Where the next text starts: the left end of its baseline.
    SetTextCursor { pos: Point },
    /// The face and size (in nanometres) of the next text.
    SetFont { font: FontStyle, size: u32 },
    SetLineHeight { lh: u32 },
    ShowText { text: String },
    EndTextSection,
}

/// A point of the page, as a model.
pub struct Position {
    pub x: int,
    pub y: int,
}

/// The model of a drawing operation.
pub enum PageOp {
    SetFillColor { col: Rgb },
    FillQuad { a: Position, b: Position, c: Position, d: Position },
    SetOutlineColor { col: Rgb },
    SetOutlineThickness { millipoints: nat },
    DrawLine { from: Position, to: Position },
    PlaceLogo { x: int, y: int, width: int, height: int },
    StartTextSection,
    SetTextCursor { pos: Position },
    SetFont { font: FontStyle, size: int },
    SetLineHeight { lh: int },
    ShowText { text: Seq<char> },
    EndTextSection,
}

impl View for Point {
    type V = Position;

    open spec fn view(&self) -> Position {
        Position { x: self.x as int, y: self.y as int }
    }
}

impl View for LayoutOp {
    type V = PageOp;

    open spec fn view(&self) -> PageOp {
        match *self {
            LayoutOp::SetFillColor { col } => PageOp::SetFillColor { col },
            LayoutOp::FillQuad { a, b, c, d } => PageOp::FillQuad { a: a@, b: b@, c: c@, d: d@ },
            LayoutOp::SetOutlineColor { col } => PageOp::SetOutlineColor { col },
            LayoutOp::SetOutlineThickness { millipoints } => PageOp::SetOutlineThickness {
                millipoints: millipoints as nat,
            },
            LayoutOp::DrawLine { from, to } => PageOp::DrawLine { from: from@, to: to@ },
            LayoutOp::PlaceLogo { x, y, width, height } => PageOp::PlaceLogo {
                x: x as int,
                y: y as int,
                width: width as int,
                height: height as int,
            },
            LayoutOp::StartTextSection => PageOp::StartTextSection,
            LayoutOp::SetTextCursor { pos } => PageOp::SetTextCursor { pos: pos@ },
            LayoutOp::SetFont { font, size } => PageOp::SetFont { font, size: size as int },
            LayoutOp::SetLineHeight { lh } => PageOp::SetLineHeight { lh: lh as int },
            LayoutOp::ShowText { text } => PageOp::ShowText { text: text@ },
            LayoutOp::EndTextSection => PageOp::EndTextSection,
        }
    }
}

/// The models of a list of operations.
pub open spec fn ops_view(ops: Seq<LayoutOp>) -> Seq<PageOp> {
    ops.map_values(|o: LayoutOp| o@)
}

/// A length in millimetres, in nanometres.
pub open spec fn mm(n: int) -> int {
    n * 1_000_000
}

pub open spec fn black_rgb() -> Rgb {
    Rgb { r: 0, g: 0, b: 0 }
}

pub open spec fn gray_rgb(level: u8) -> Rgb {
    Rgb { r: level, g: level, b: level }
}

/// The PDF height of a point that lies `from_top` below the top edge.
pub open spec fn pdf_y(from_top: int) -> int {
    PAGE_HEIGHT_NM - from_top
}

/// A filled rectangle whose top-left corner lies `x` from the left edge and
/// `y_top` below the top edge: the fill colour, then its corners from the
/// bottom-left one, counter-clockwise.
pub open spec fn fill_rect_ops(x: int, y_top: int, w: int, h: int, col: Rgb) -> Seq<PageOp> {
    let bottom: int = pdf_y(y_top) - h;
    seq![
        PageOp::SetFillColor { col },
        PageOp::FillQuad {
            a: Position { x: x, y: bottom },
            b: Position { x: x + w, y: bottom },
            c: Position { x: x + w, y: bottom + h },
            d: Position { x: x, y: bottom + h },
        },
    ]
}

/// A line between two points given from the top edge.
pub open spec fn line_ops(x1: int, y1: int, x2: int, y2: int) -> Seq<PageOp> {
    seq![
        PageOp::DrawLine {
            from: Position { x: x1, y: pdf_y(y1) },
            to: Position { x: x2, y: pdf_y(y2) },
        },
    ]
}

/// A text written from `x`, on a baseline `baseline` below the top edge,
/// in black: a text section of its own.
pub open spec fn text_ops(text: Seq<char>, x: int, baseline: int, font: FontStyle, size: int) -> Seq<PageOp> {
    seq![
        PageOp::SetFillColor { col: black_rgb() },
        PageOp::StartTextSection,
        PageOp::SetTextCursor { pos: Position { x: x, y: pdf_y(baseline) } },
        PageOp::SetFont { font, size },
        PageOp::SetLineHeight { lh: size },
        PageOp::ShowText { text },
        PageOp::EndTextSection,
    ]
}

/// Where a text centred on `center` starts: half its width before the
/// centre, rounded down to a whole nanometre.
pub open spec fn centered_x(center: int, text: Seq<char>, size: int) -> int {
    center - encode_utf8(text).len() * 632 * size / 2000
}

pub open spec fn centered_text_ops(text: Seq<char>, center: int, baseline: int, font: FontStyle, size: int) -> Seq<PageOp> {
    text_ops(text, centered_x(center, text, size), baseline, font, size)
}

/// The gray header cells of the five rows, after the operations `p`.
pub open spec fn with_header_backgrounds(p: Seq<PageOp>) -> Seq<PageOp> {
    let g = gray_rgb(HEADER_BACKGROUND_GRAY);
    p
        + fill_rect_ops(mm(11), mm(10), mm(40), mm(10), g)
        + fill_rect_ops(mm(51), mm(10), mm(210), mm(10), g)
        + fill_rect_ops(mm(261), mm(10), mm(25), mm(10), g)
        + fill_rect_ops(mm(11), mm(45), mm(185), mm(10), g)
        + fill_rect_ops(mm(196), mm(45), mm(90), mm(10), g)
        + fill_rect_ops(mm(11), mm(80), mm(100), mm(10), g)
        + fill_rect_ops(mm(111), mm(80), mm(95), mm(10), g)
        + fill_rect_ops(mm(206), mm(80), mm(80), mm(10), g)
        + fill_rect_ops(mm(11), mm(115), mm(65), mm(10), g)
        + fill_rect_ops(mm(76), mm(115), mm(70), mm(10), g)
        + fill_rect_ops(mm(146), mm(115), mm(70), mm(10), g)
        + fill_rect_ops(mm(216), mm(115), mm(70), mm(10), g)
        + fill_rect_ops(mm(11), mm(150), mm(225), mm(10), g)
}

/// The black grid of half-point lines: the border, the rows and the cells.
pub open spec fn with_grid(p: Seq<PageOp>) -> Seq<PageOp> {
    p
        + seq![
            PageOp::SetOutlineColor { col: black_rgb() },
            PageOp::SetOutlineThickness { millipoints: 500 },
        ]
        + line_ops(mm(11), mm(10), mm(11), mm(200))
        + line_ops(mm(286), mm(10), mm(286), mm(200))
        + line_ops(mm(11), mm(10), mm(286), mm(10))
        + line_ops(mm(11), mm(200), mm(286), mm(200))
        + line_ops(mm(11), mm(45), mm(286), mm(45))
        + line_ops(mm(11), mm(80), mm(286), mm(80))
        + line_ops(mm(11), mm(115), mm(286), mm(115))
        + line_ops(mm(11), mm(150), mm(286), mm(150))
        + line_ops(mm(51), mm(10), mm(51), mm(45))
        + line_ops(mm(261), mm(10), mm(261), mm(45))
        + line_ops(mm(196), mm(45), mm(196), mm(80))
        + line_ops(mm(111), mm(80), mm(111), mm(115))
        + line_ops(mm(206), mm(80), mm(206), mm(115))
        + line_ops(mm(76), mm(115), mm(76), mm(150))
        + line_ops(mm(146), mm(115), mm(146), mm(150))
        + line_ops(mm(216), mm(115), mm(216), mm(150))
        + line_ops(mm(236), mm(150), mm(236), mm(200))
}

/// The logo, 40 mm square, its top-left corner 241 mm from the left edge
/// and 155 mm below the top edge.
pub open spec fn with_logo(p: Seq<PageOp>) -> Seq<PageOp> {
    p + seq![
        PageOp::PlaceLogo { x: mm(241), y: pdf_y(mm(155)) - mm(40), width: mm(40), height: mm(40) },
    ]
}

/// The texts of a label: each cell's header label and value (values
/// upper-cased where the label shows them so), then the disclaimer.
pub open spec fn with_label_texts(p: Seq<PageOp>, label: LabelView) -> Seq<PageOp> {
    let header: int = HEADER_LABEL_SIZE_NM as int;
    let value: int = VALUE_SIZE_NM as int;
    let small: int = DISCLAIMER_SIZE_NM as int;
    let r = FontStyle::Regular;
    let b = FontStyle::Bold;
    p
        + text_ops("SKU NUMBER"@, 17614212, 16413929, r, header)
        + text_ops("DESCRIPTION"@, 141289180, 16413929, r, header)
        + text_ops("ORIGIN"@, 265547700, 16413940, r, header)
        + centered_text_ops(uppercase(label.sku_number), 30340418, 34915340, b, value)
        + centered_text_ops(uppercase(label.description), 155590770, 34915340, b, value)
        + centered_text_ops(uppercase(label.origin), 273133120, 35000000, b, value)
        + text_ops("CUSTOMER"@, 92810844, 51413925, r, header)
        + text_ops("CUSTOMER SKU"@, 224993770, 51413929, r, header)
        + centered_text_ops(uppercase(label.customer), 102766220, 69804832, b, value)
        + centered_text_ops(uppercase(label.customer_sku), 240273250, 69797783, b, value)
        + text_ops("WAREHOUSE"@, 49121277, 86413933, r, header)
        + text_ops("STOCK TYPE"@, 145173480, 86413933, r, header)
        + text_ops("DATE"@, 240678710, 86413940, r, header)
        + centered_text_ops(uppercase(label.warehouse_name), 60753056, 104915340, b, value)
        + centered_text_ops(uppercase(label.location_stock_type), 158175450, 104915340, b, value)
        + centered_text_ops(uppercase(label.date.text()), 245541400, 104804840, b, value)
        + text_ops("QUANTITY IN CRATE"@, 20858034, 121411810, r, header)
        + text_ops("PIECES IN CRATE"@, 90898033, 121413930, r, header)
        + text_ops("WEIGHT OF CRATE"@, 161094890, 121413930, r, header)
        + text_ops("CRATE NUMBER"@, 234959920, 121413930, r, header)
        + centered_text_ops(label.square_footage_per_crate, 43034294, 139901210, b, value)
        + centered_text_ops(label.pieces_per_crate, 110746010, 139804840, b, value)
        + centered_text_ops(label.weight_per_crate_lbs + " LBS"@, 180569610, 139915340, b, value)
        + centered_text_ops(decimal(label.crate_number), 250961200, 139915340, b, value)
        + text_ops("DISCLAIMER"@, 15690967, 156413940, r, header)
        + text_ops(disclaimer_line(0), 15813029, 167529420, r, small)
        + text_ops(disclaimer_line(1), 15813029, 172468310, r, small)
        + text_ops(disclaimer_line(2), 15813029, 177407200, r, small)
        + text_ops(disclaimer_line(3), 15813029, 182346090, r, small)
        + text_ops(disclaimer_line(4), 15813029, 187284980, r, small)
        + text_ops(disclaimer_line(5), 15813029, 192223870, r, small)
}

/// The disclaimer, broken into its six printed lines.
pub open spec fn disclaimer_line(i: int) -> Seq<char> {
    if i == 0 {
        "This label is intended solely for the use of the named recipient and contains confidential"@
    } else if i == 1 {
        "information pertaining to the shipment of goods. The contents of this crate have been packed and"@
    } else if i == 2 {
        "verified in accordance with the applicable purchase order. Any discrepancies in quantity,"@
    } else if i == 3 {
        "condition, or identity of goods must be reported immediately to the warehouse manager upon"@
    } else if i == 4 {
        "receipt. Unauthorised reproduction or distribution of this label is strictly prohibited. FBR"@
    } else {
        "Marble accepts no liability for errors arising from illegible or damaged labels."@
    }
}

/// The whole page of a label: header cells, grid, logo, then texts.
pub open spec fn page_ops(label: LabelView) -> Seq<PageOp> {
    with_label_texts(with_logo(with_grid(with_header_backgrounds(Seq::empty()))), label)
}

proof fn lemma_push_view(s: Seq<LayoutOp>, op: LayoutOp)
    ensures
        ops_view(s.push(op)) == ops_view(s).push(op@),
{
    assert(ops_view(s.push(op)) =~= ops_view(s).push(op@));
}

fn black() -> (c: Rgb)
    ensures
        c == black_rgb(),
{
    Rgb { r: 0, g: 0, b: 0 }
}

fn gray(level: u8) -> (c: Rgb)
    ensures
        c == gray_rgb(level),
{
    Rgb { r: level, g: level, b: level }
}

fn push_op(ops: &mut Vec<LayoutOp>, op: LayoutOp)
    ensures
        ops_view(final(ops)@) == ops_view(old(ops)@).push(op@),
{
    proof {
        lemma_push_view(ops@, op);
    }
    ops.push(op);
}

fn fill_rect(ops: &mut Vec<LayoutOp>, x: i64, y_top: i64, w: i64, h: i64, color: Rgb)
    ensures
        ops_view(final(ops)@) == ops_view(old(ops)@) + fill_rect_ops(
            x as int,
            y_top as int,
            w as int,
            h as int,
            color,
        ),
{
    let left: i128 = x as i128;
    let right: i128 = (x as i128) + (w as i128);
    let bottom: i128 = (PAGE_HEIGHT_NM as i128) - (y_top as i128) - (h as i128);
    let top: i128 = bottom + (h as i128);
    push_op(ops, LayoutOp::SetFillColor { col: color });
    push_op(
        ops,
        LayoutOp::FillQuad {
            a: Point { x: left, y: bottom },
            b: Point { x: right, y: bottom },
            c: Point { x: right, y: top },
            d: Point { x: left, y: top },
        },
    );
    proof {
        assert(ops_view(ops@) =~= ops_view(old(ops)@) + fill_rect_ops(
            x as int,
            y_top as int,
            w as int,
            h as int,
            color,
        ));
    }
}

fn draw_line(ops: &mut Vec<LayoutOp>, x1: i64, y1: i64, x2: i64, y2: i64)
    ensures
        ops_view(final(ops)@) == ops_view(old(ops)@) + line_ops(x1 as int, y1 as int, x2 as int, y2 as int),
{
    let height: i128 = PAGE_HEIGHT_NM as i128;
    push_op(
        ops,
        LayoutOp::DrawLine {
            from: Point { x: x1 as i128, y: height - (y1 as i128) },
            to: Point { x: x2 as i128, y: height - (y2 as i128) },
        },
    );
    proof {
        assert(ops_view(ops@) =~= ops_view(old(ops)@) + line_ops(x1 as int, y1 as int, x2 as int, y2 as int));
    }
}

fn left_text(ops: &mut Vec<LayoutOp>, text: &str, x: i128, baseline: i64, font: FontStyle, size: u32)
    ensures
        ops_view(final(ops)@) == ops_view(old(ops)@) + text_ops(text@, x as int, baseline as int, font, size as int),
{
    let y: i128 = (PAGE_HEIGHT_NM as i128) - (baseline as i128);
    push_op(ops, LayoutOp::SetFillColor { col: black() });
    push_op(ops, LayoutOp::StartTextSection);
    push_op(ops, LayoutOp::SetTextCursor { pos: Point { x: x, y: y } });
    push_op(ops, LayoutOp::SetFont { font: font, size: size });
    push_op(ops, LayoutOp::SetLineHeight { lh: size });
    push_op(ops, LayoutOp::ShowText { text: String::from_str(text) });
    push_op(ops, LayoutOp::EndTextSection);
    proof {
        assert(ops_view(ops@) =~= ops_view(old(ops)@) + text_ops(text@, x as int, baseline as int, font, size as int));
    }
}

fn centered_text(ops: &mut Vec<LayoutOp>, text: &str, center_x: i64, baseline: i64, font: FontStyle, size: u32)
    ensures
        ops_view(final(ops)@) == ops_view(old(ops)@) + centered_text_ops(
            text@,
            center_x as int,
            baseline as int,
            font,
            size as int,
        ),
{
    let bytes: usize = text.as_bytes().len();
    let scaled: i128 = (bytes as i128) * 632;
    proof {
        assert(0 <= scaled * (size as i128) <= 0xffff_ffff_ffff_ffff * 632 * 0xffff_ffff)
            by (nonlinear_arith)
            requires
                0 <= scaled <= 0xffff_ffff_ffff_ffff * 632,
                0 <= size <= 0xffff_ffff,
        ;
    }
    let half_width: i128 = scaled * (size as i128) / 2000;
    let x: i128 = (center_x as i128) - half_width;
    left_text(ops, text, x, baseline, font, size);
}

fn draw_header_backgrounds(ops: &mut Vec<LayoutOp>)
    ensures
        ops_view(final(ops)@) == with_header_backgrounds(ops_view(old(ops)@)),
{
    let g = gray(HEADER_BACKGROUND_GRAY);
    // Row 1: SKU number, description, origin.
    fill_rect(ops, 11_000_000, 10_000_000, 40_000_000, 10_000_000, g);
    fill_rect(ops, 51_000_000, 10_000_000, 210_000_000, 10_000_000, g);
    fill_rect(ops, 261_000_000, 10_000_000, 25_000_000, 10_000_000, g);
    // Row 2: customer, customer SKU.
    fill_rect(ops, 11_000_000, 45_000_000, 185_000_000, 10_000_000, g);
    fill_rect(ops, 196_000_000, 45_000_000, 90_000_000, 10_000_000, g);
    // Row 3: warehouse, stock type, date.
    fill_rect(ops, 11_000_000, 80_000_000, 100_000_000, 10_000_000, g);
    fill_rect(ops, 111_000_000, 80_000_000, 95_000_000, 10_000_000, g);
    fill_rect(ops, 206_000_000, 80_000_000, 80_000_000, 10_000_000, g);
    // Row 4: quantity, pieces, weight, crate number.
    fill_rect(ops, 11_000_000, 115_000_000, 65_000_000, 10_000_000, g);
    fill_rect(ops, 76_000_000, 115_000_000, 70_000_000, 10_000_000, g);
    fill_rect(ops, 146_000_000, 115_000_000, 70_000_000, 10_000_000, g);
    fill_rect(ops, 216_000_000, 115_000_000, 70_000_000, 10_000_000, g);
    // Row 5: disclaimer.
    fill_rect(ops, 11_000_000, 150_000_000, 225_000_000, 10_000_000, g);
}

fn draw_grid(ops: &mut Vec<LayoutOp>)
    ensures
        ops_view(final(ops)@) == with_grid(ops_view(old(ops)@)),
{
    let ghost start = ops_view(ops@);
    push_op(ops, LayoutOp::SetOutlineColor { col: black() });
    push_op(ops, LayoutOp::SetOutlineThickness { millipoints: 500 });
    proof {
        assert(ops_view(ops@) =~= start + seq![
            PageOp::SetOutlineColor { col: black_rgb() },
            PageOp::SetOutlineThickness { millipoints: 500 },
        ]);
    }
    // Outer border.
    draw_line(ops, 11_000_000, 10_000_000, 11_000_000, 200_000_000);
    draw_line(ops, 286_000_000, 10_000_000, 286_000_000, 200_000_000);
    draw_line(ops, 11_000_000, 10_000_000, 286_000_000, 10_000_000);
    draw_line(ops, 11_000_000, 200_000_000, 286_000_000, 200_000_000);
    // Between the rows.
    draw_line(ops, 11_000_000, 45_000_000, 286_000_000, 45_000_000);
    draw_line(ops, 11_000_000, 80_000_000, 286_000_000, 80_000_000);
    draw_line(ops, 11_000_000, 115_000_000, 286_000_000, 115_000_000);
    draw_line(ops, 11_000_000, 150_000_000, 286_000_000, 150_000_000);
    // Between the cells of each row.
    draw_line(ops, 51_000_000, 10_000_000, 51_000_000, 45_000_000);
    draw_line(ops, 261_000_000, 10_000_000, 261_000_000, 45_000_000);
    draw_line(ops, 196_000_000, 45_000_000, 196_000_000, 80_000_000);
    draw_line(ops, 111_000_000, 80_000_000, 111_000_000, 115_000_000);
    draw_line(ops, 206_000_000, 80_000_000, 206_000_000, 115_000_000);
    draw_line(ops, 76_000_000, 115_000_000, 76_000_000, 150_000_000);
    draw_line(ops, 146_000_000, 115_000_000, 146_000_000, 150_000_000);
    draw_line(ops, 216_000_000, 115_000_000, 216_000_000, 150_000_000);
    draw_line(ops, 236_000_000, 150_000_000, 236_000_000, 200_000_000);
}

fn draw_logo(ops: &mut Vec<LayoutOp>)
    ensures
        ops_view(final(ops)@) == with_logo(ops_view(old(ops)@)),
{
    // 155 mm below the top edge and 40 mm high: its bottom is 15 mm above the bottom edge.
    let size: i128 = 40_000_000;
    let bottom: i128 = (PAGE_HEIGHT_NM as i128) - 155_000_000 - size;
    push_op(ops, LayoutOp::PlaceLogo { x: 241_000_000, y: bottom, width: size, height: size });
    proof {
        assert(ops_view(ops@) =~= with_logo(ops_view(old(ops)@)));
    }
}

fn draw_all_text(label: &CrateLabel, ops: &mut Vec<LayoutOp>)
    ensures
        ops_view(final(ops)@) == with_label_texts(ops_view(old(ops)@), label@),
{
    let r = FontStyle::Regular;
    let b = FontStyle::Bold;
    let header: u32 = HEADER_LABEL_SIZE_NM;
    let value: u32 = VALUE_SIZE_NM;
    let small: u32 = DISCLAIMER_SIZE_NM;

    // Row 1.
    left_text(ops, "SKU NUMBER", 17614212, 16413929, r, header);
    left_text(ops, "DESCRIPTION", 141289180, 16413929, r, header);
    left_text(ops, "ORIGIN", 265547700, 16413940, r, header);
    let sku = to_uppercase(label.sku_number.as_str());
    centered_text(ops, sku.as_str(), 30340418, 34915340, b, value);
    let description = to_uppercase(label.description.as_str());
    centered_text(ops, description.as_str(), 155590770, 34915340, b, value);
    let origin = to_uppercase(label.origin.as_str());
    centered_text(ops, origin.as_str(), 273133120, 35000000, b, value);

    // Row 2.
    left_text(ops, "CUSTOMER", 92810844, 51413925, r, header);
    left_text(ops, "CUSTOMER SKU", 224993770, 51413929, r, header);
    let customer = to_uppercase(label.customer.as_str());
    centered_text(ops, customer.as_str(), 102766220, 69804832, b, value);
    let customer_sku = to_uppercase(label.customer_sku.as_str());
    centered_text(ops, customer_sku.as_str(), 240273250, 69797783, b, value);

    // Row 3.
    left_text(ops, "WAREHOUSE", 49121277, 86413933, r, header);
    left_text(ops, "STOCK TYPE", 145173480, 86413933, r, header);
    left_text(ops, "DATE", 240678710, 86413940, r, header);
    let date_plain = label.date.day_month_year();
    let date_text = to_uppercase(date_plain.as_str());
    let warehouse = to_uppercase(label.warehouse_name.as_str());
    centered_text(ops, warehouse.as_str(), 60753056, 104915340, b, value);
    let stock_type = to_uppercase(label.location_stock_type.as_str());
    centered_text(ops, stock_type.as_str(), 158175450, 104915340, b, value);
    centered_text(ops, date_text.as_str(), 245541400, 104804840, b, value);

    // Row 4.
    left_text(ops, "QUANTITY IN CRATE", 20858034, 121411810, r, header);
    left_text(ops, "PIECES IN CRATE", 90898033, 121413930, r, header);
    left_text(ops, "WEIGHT OF CRATE", 161094890, 121413930, r, header);
    left_text(ops, "CRATE NUMBER", 234959920, 121413930, r, header);
    let weight_text = label.weight_per_crate_lbs.clone().concat(" LBS");
    centered_text(ops, label.square_footage_per_crate.as_str(), 43034294, 139901210, b, value);
    centered_text(ops, label.pieces_per_crate.as_str(), 110746010, 139804840, b, value);
    centered_text(ops, weight_text.as_str(), 180569610, 139915340, b, value);
    let crate_number = format_u64(label.crate_number as u64);
    centered_text(ops, crate_number.as_str(), 250961200, 139915340, b, value);

    // Row 5: the disclaimer, in the lines it is printed in.
    left_text(ops, "DISCLAIMER", 15690967, 156413940, r, header);
    left_text(
        ops,
        "This label is intended solely for the use of the named recipient and contains confidential",
        15813029,
        167529420,
        r,
        small,
    );
    left_text(
        ops,
        "information pertaining to the shipment of goods. The contents of this crate have been packed and",
        15813029,
        172468310,
        r,
        small,
    );
    left_text(
        ops,
        "verified in accordance with the applicable purchase order. Any discrepancies in quantity,",
        15813029,
        177407200,
        r,
        small,
    );
    left_text(
        ops,
        "condition, or identity of goods must be reported immediately to the warehouse manager upon",
        15813029,
        182346090,
        r,
        small,
    );
    left_text(
        ops,
        "receipt. Unauthorised reproduction or distribution of this label is strictly prohibited. FBR",
        15813029,
        187284980,
        r,
        small,
    );
    left_text(
        ops,
        "Marble accepts no liability for errors arising from illegible or damaged labels.",
        15813029,
        192223870,
        r,
        small,
    );
}

/// The drawing operations of the page of one label.
pub fn build_page_ops(label: &CrateLabel) -> (ops: Vec<LayoutOp>)
    ensures
        ops_view(ops@) == page_ops(label@),
{
    let mut ops: Vec<LayoutOp> = Vec::new();
    proof {
        assert(ops_view(ops@) =~= Seq::<PageOp>::empty());
    }
    draw_header_backgrounds(&mut ops);
    draw_grid(&mut ops);
    draw_logo(&mut ops);
    draw_all_text(label, &mut ops);
    ops
}

/// One page per label, in the order of the labels.
pub fn document_pages(labels: &[CrateLabel]) -> (pages: Vec<Vec<LayoutOp>>)
    ensures
        pages@.len() == labels@.len(),
        forall|i: int| 0 <= i < pages@.len() ==> ops_view(#[trigger] pages@[i]@) == page_ops(labels@[i]@),
{
    let mut pages: Vec<Vec<LayoutOp>> = Vec::new();
    let n: usize = labels.len();
    let mut i: usize = 0;
    while i < n
        invariant
            n == labels@.len(),
            i <= n,
            pages@.len() == i,
            forall|j: int| 0 <= j < i ==> ops_view(#[trigger] pages@[j]@) == page_ops(labels@[j]@),
        decreases n - i,
    {
        let page = build_page_ops(&labels[i]);
        pages.push(page);
        i = i + 1;
    }
    pages
}

} // verus!

verus! {

/// What a page draws before its texts: the header cells, the grid and the logo.
pub open spec fn page_frame() -> Seq<PageOp> {
    with_logo(with_grid(with_header_backgrounds(Seq::empty())))
}

/// Every label's page has the same 263 operations in the same places, and
/// the first 46 of them (the header cells, the grid and the logo) are the
/// same for every label.
pub proof fn lemma_pages_share_their_frame(a: LabelView, b: LabelView)
    ensures
        page_frame().len() == 46,
        page_ops(a).len() == 263,
        page_ops(a).len() == page_ops(b).len(),
        page_ops(a).take(46) == page_frame(),
        page_ops(a).take(46) == page_ops(b).take(46),
{
    lemma_frame_len();
    lemma_label_texts_follow(page_frame(), a);
    lemma_label_texts_follow(page_frame(), b);
    assert(page_frame().take(46) =~= page_frame());
}

proof fn lemma_frame_len()
    ensures
        page_frame().len() == 46,
{
}

/// The texts of a label are 31 text sections of 7 operations each, added
/// after what was there.
#[verifier::rlimit(40)]
proof fn lemma_label_texts_follow(p: Seq<PageOp>, label: LabelView)
    ensures
        with_label_texts(p, label).len() == p.len() + 217,
        with_label_texts(p, label).take(p.len() as int) == p.take(p.len() as int),
{
    broadcast use lemma_take_of_longer_front, lemma_text_ops_len;
}

broadcast proof fn lemma_text_ops_len(text: Seq<char>, x: int, baseline: int, font: FontStyle, size: int)
    ensures
        #[trigger] text_ops(text, x, baseline, font, size).len() == 7,
{
}

/// Appending to a sequence does not change its first `k` elements.
broadcast proof fn lemma_take_of_longer_front(s: Seq<PageOp>, q: Seq<PageOp>, k: int)
    requires
        0 <= k <= s.len(),
    ensures
        #[trigger] (s + q).take(k) == s.take(k),
{
    assert((s + q).take(k) =~= s.take(k));
}

/// A centred text is centred to the nanometre: the distance from where it
/// starts to the centre is half its width, rounded down.
pub proof fn lemma_centered_text_is_centered(center: int, text: Seq<char>, size: int)
    requires
        size >= 0,
    ensures
        2000 * (center - centered_x(center, text, size)) <= encode_utf8(text).len() * 632 * size,
        encode_utf8(text).len() * 632 * size < 2000 * (center - centered_x(center, text, size)) + 2000,
{
    let w: int = encode_utf8(text).len() * 632 * size;
    assert(w >= 0) by (nonlinear_arith)
        requires
            encode_utf8(text).len() >= 0,
            size >= 0,
            w == encode_utf8(text).len() * 632 * size,
    ;
    assert(center - centered_x(center, text, size) == w / 2000);
}

} // verus!

verus! {

/// The section of text number `k` of a page (the header labels, values and
/// disclaimer lines, in the order they are drawn) starts at operation
/// `46 + 7 * k`; its cursor is its third operation and its text its sixth.
pub open spec fn section_cursor(ops: Seq<PageOp>, k: int) -> PageOp {
    ops[46 + 7 * k + 2]
}

pub open spec fn section_text(ops: Seq<PageOp>, k: int) -> PageOp {
    ops[46 + 7 * k + 5]
}

/// A header label and a value share one cell of the grid, the cell whose
/// left, top, right and bottom edges (from the top-left corner of the page)
/// are given: the header is written inside the cell, and the value, in the
/// value font, is centred on `center` inside the same cell, on its baseline.
pub open spec fn value_in_cell(
    ops: Seq<PageOp>,
    header_k: int,
    header: Seq<char>,
    value_k: int,
    value: Seq<char>,
    center: int,
    baseline: int,
    left: int,
    top: int,
    right: int,
    bottom: int,
) -> bool {
    &&& section_text(ops, header_k) == PageOp::ShowText { text: header }
    &&& section_cursor(ops, header_k) matches PageOp::SetTextCursor { pos }
        && left < pos.x < right && PAGE_HEIGHT_NM - bottom < pos.y < PAGE_HEIGHT_NM - top
    &&& section_text(ops, value_k) == PageOp::ShowText { text: value }
    &&& ops[46 + 7 * value_k + 3] == PageOp::SetFont { font: FontStyle::Bold, size: VALUE_SIZE_NM as int }
    &&& section_cursor(ops, value_k) == PageOp::SetTextCursor {
        pos: Position {
            x: center - encode_utf8(value).len() * 632 * (VALUE_SIZE_NM as int) / 2000,
            y: PAGE_HEIGHT_NM - baseline,
        },
    }
    &&& left < center < right
    &&& top < baseline < bottom
}

/// Each value of a label is shown in the cell of the header that names it,
/// centred on that cell's own centre: first the two rows of names and
/// places.
#[verifier::rlimit(100)]
pub proof fn lemma_name_values_in_their_cells(label: LabelView)
    ensures
        value_in_cell(page_ops(label), 0, "SKU NUMBER"@, 3, uppercase(label.sku_number), 30340418, 34915340,
            mm(11), mm(10), mm(51), mm(45)),
        value_in_cell(page_ops(label), 1, "DESCRIPTION"@, 4, uppercase(label.description), 155590770, 34915340,
            mm(51), mm(10), mm(261), mm(45)),
        value_in_cell(page_ops(label), 2, "ORIGIN"@, 5, uppercase(label.origin), 273133120, 35000000,
            mm(261), mm(10), mm(286), mm(45)),
        value_in_cell(page_ops(label), 6, "CUSTOMER"@, 8, uppercase(label.customer), 102766220, 69804832,
            mm(11), mm(45), mm(196), mm(80)),
        value_in_cell(page_ops(label), 7, "CUSTOMER SKU"@, 9, uppercase(label.customer_sku), 240273250, 69797783,
            mm(196), mm(45), mm(286), mm(80)),
{
    broadcast use lemma_text_ops_len;

    lemma_frame_len();
}

/// The values of the warehouse row in the cells of their headers.
#[verifier::rlimit(100)]
pub proof fn lemma_warehouse_values_in_their_cells(label: LabelView)
    ensures
        value_in_cell(page_ops(label), 10, "WAREHOUSE"@, 13, uppercase(label.warehouse_name), 60753056, 104915340,
            mm(11), mm(80), mm(111), mm(115)),
        value_in_cell(page_ops(label), 11, "STOCK TYPE"@, 14, uppercase(label.location_stock_type), 158175450,
            104915340, mm(111), mm(80), mm(206), mm(115)),
        value_in_cell(page_ops(label), 12, "DATE"@, 15, uppercase(label.date.text()), 245541400, 104804840,
            mm(206), mm(80), mm(286), mm(115)),
{
    broadcast use lemma_text_ops_len;

    lemma_frame_len();
}

/// The values of the crate row in the cells of their headers: the square
/// footage, the pieces, the weight in pounds and the crate's number.
#[verifier::rlimit(100)]
pub proof fn lemma_crate_values_in_their_cells(label: LabelView)
    ensures
        value_in_cell(page_ops(label), 16, "QUANTITY IN CRATE"@, 20, label.square_footage_per_crate, 43034294,
            139901210, mm(11), mm(115), mm(76), mm(150)),
        value_in_cell(page_ops(label), 17, "PIECES IN CRATE"@, 21, label.pieces_per_crate, 110746010, 139804840,
            mm(76), mm(115), mm(146), mm(150)),
        value_in_cell(page_ops(label), 18, "WEIGHT OF CRATE"@, 22, label.weight_per_crate_lbs + " LBS"@, 180569610,
            139915340, mm(146), mm(115), mm(216), mm(150)),
        value_in_cell(page_ops(label), 19, "CRATE NUMBER"@, 23, decimal(label.crate_number), 250961200, 139915340,
            mm(216), mm(115), mm(286), mm(150)),
{
    broadcast use lemma_text_ops_len;

    lemma_frame_len();
}

/// Header band `r` (the `r`-th gray rectangle) fills the top 10 mm of a grid
/// cell: its left and right edges lie on the grid lines `left_line` and
/// `right_line`, its top on the grid line `top_line` (grid lines counted in
/// the order they are drawn).
pub open spec fn band_in_cell(
    ops: Seq<PageOp>,
    r: int,
    left_line: int,
    right_line: int,
    top_line: int,
) -> bool {
    &&& ops[2 * r] == PageOp::SetFillColor { col: gray_rgb(HEADER_BACKGROUND_GRAY) }
    &&& ops[2 * r + 1] matches PageOp::FillQuad { a, b, c, d }
        && ops[28 + left_line] matches PageOp::DrawLine { from: l, to: l2 }
        && ops[28 + right_line] matches PageOp::DrawLine { from: rr, to: rr2 }
        && ops[28 + top_line] matches PageOp::DrawLine { from: t, to: t2 }
        && l.x == l2.x && rr.x == rr2.x && t.y == t2.y
        && a.x == l.x && d.x == l.x && b.x == rr.x && c.x == rr.x
        && c.y == t.y && d.y == t.y && a.y == b.y && c.y - a.y == mm(10)
        && a.x < b.x
}

/// The gray header bands line up with the grid: each fills the top of one
/// cell, from the divider (or border) on its left to the one on its right,
/// and the cells of a row follow one another across the page.
#[verifier::rlimit(60)]
pub proof fn lemma_header_bands_fill_their_cells()
    ensures
        band_in_cell(page_frame(), 0, 0, 8, 2),
        band_in_cell(page_frame(), 1, 8, 9, 2),
        band_in_cell(page_frame(), 2, 9, 1, 2),
        band_in_cell(page_frame(), 3, 0, 10, 4),
        band_in_cell(page_frame(), 4, 10, 1, 4),
        band_in_cell(page_frame(), 5, 0, 11, 5),
        band_in_cell(page_frame(), 6, 11, 12, 5),
        band_in_cell(page_frame(), 7, 12, 1, 5),
        band_in_cell(page_frame(), 8, 0, 13, 6),
        band_in_cell(page_frame(), 9, 13, 14, 6),
        band_in_cell(page_frame(), 10, 14, 15, 6),
        band_in_cell(page_frame(), 11, 15, 1, 6),
        band_in_cell(page_frame(), 12, 0, 16, 7),
        page_frame()[26] == (PageOp::SetOutlineColor { col: black_rgb() }),
        page_frame()[45] == (PageOp::PlaceLogo { x: mm(241), y: mm(15), width: mm(40), height: mm(40) }),
{
}

} // verus!
