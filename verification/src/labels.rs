//! Purchase-order lines and the crate labels they expand to.

use vstd::prelude::*;
use crate::calendar::CalendarDate;
use crate::text::{format_i64, signed_decimal};

verus! {

/// One line of a purchase order as the labels need it.
///
/// The counts that the database holds as floating-point numbers come here
/// already rounded to whole numbers: `number_of_crates` is the number of
/// crates to label (`None` where the order gives no positive count) and
/// `square_footage_per_crate` the rounded square footage.
pub struct PurchaseOrderLine {
    pub sku_number: String,
    pub description: Option<String>,
    pub warehouse_name: Option<String>,
    pub location_stock_type: String,
    pub customer: Option<String>,
    pub customer_sku: Option<String>,
    pub origin: Option<String>,
    pub date: CalendarDate,
    pub square_footage_per_crate: Option<i64>,
    pub number_of_crates: Option<usize>,
    pub pieces_per_crate: Option<String>,
    pub weight_per_crate_lbs: Option<String>,
}

/// The texts and numbers printed on the label of one crate.
pub struct CrateLabel {
    pub sku_number: String,
    pub description: String,
    pub warehouse_name: String,
    pub location_stock_type: String,
    pub customer: String,
    pub customer_sku: String,
    pub origin: String,
    pub date: CalendarDate,
    pub square_footage_per_crate: String,
    pub pieces_per_crate: String,
    pub weight_per_crate_lbs: String,
    pub crate_number: usize,
}

/// The model of a purchase-order line.
pub struct LineView {
    pub sku_number: Seq<char>,
    pub description: Option<Seq<char>>,
    pub warehouse_name: Option<Seq<char>>,
    pub location_stock_type: Seq<char>,
    pub customer: Option<Seq<char>>,
    pub customer_sku: Option<Seq<char>>,
    pub origin: Option<Seq<char>>,
    pub date: CalendarDate,
    pub square_footage_per_crate: Option<int>,
    pub number_of_crates: Option<nat>,
    pub pieces_per_crate: Option<Seq<char>>,
    pub weight_per_crate_lbs: Option<Seq<char>>,
}

/// The model of a crate label.
pub struct LabelView {
    pub sku_number: Seq<char>,
    pub description: Seq<char>,
    pub warehouse_name: Seq<char>,
    pub location_stock_type: Seq<char>,
    pub customer: Seq<char>,
    pub customer_sku: Seq<char>,
    pub origin: Seq<char>,
    pub date: CalendarDate,
    pub square_footage_per_crate: Seq<char>,
    pub pieces_per_crate: Seq<char>,
    pub weight_per_crate_lbs: Seq<char>,
    pub crate_number: nat,
}

pub open spec fn opt_text(o: Option<String>) -> Option<Seq<char>> {
    match o {
        Some(s) => Some(s@),
        None => None,
    }
}

impl View for PurchaseOrderLine {
    type V = LineView;

    open spec fn view(&self) -> LineView {
        LineView {
            sku_number: self.sku_number@,
            description: opt_text(self.description),
            warehouse_name: opt_text(self.warehouse_name),
            location_stock_type: self.location_stock_type@,
            customer: opt_text(self.customer),
            customer_sku: opt_text(self.customer_sku),
            origin: opt_text(self.origin),
            date: self.date,
            square_footage_per_crate: match self.square_footage_per_crate {
                Some(n) => Some(n as int),
                None => None,
            },
            number_of_crates: match self.number_of_crates {
                Some(n) => Some(n as nat),
                None => None,
            },
            pieces_per_crate: opt_text(self.pieces_per_crate),
            weight_per_crate_lbs: opt_text(self.weight_per_crate_lbs),
        }
    }
}

impl View for CrateLabel {
    type V = LabelView;

    open spec fn view(&self) -> LabelView {
        LabelView {
            sku_number: self.sku_number@,
            description: self.description@,
            warehouse_name: self.warehouse_name@,
            location_stock_type: self.location_stock_type@,
            customer: self.customer@,
            customer_sku: self.customer_sku@,
            origin: self.origin@,
            date: self.date,
            square_footage_per_crate: self.square_footage_per_crate@,
            pieces_per_crate: self.pieces_per_crate@,
            weight_per_crate_lbs: self.weight_per_crate_lbs@,
            crate_number: self.crate_number as nat,
        }
    }
}

/// The text, or the empty text where there is none.
pub open spec fn text_or_empty(o: Option<Seq<char>>) -> Seq<char> {
    match o {
        Some(t) => t,
        None => Seq::empty(),
    }
}

/// The part of a text before its first `.` (all of it where it has none).
pub open spec fn before_first_dot(t: Seq<char>) -> Seq<char>
    decreases t.len(),
{
    if t.len() == 0 {
        Seq::empty()
    } else if t[0] == '.' {
        Seq::empty()
    } else {
        seq![t[0]] + before_first_dot(t.drop_first())
    }
}

/// A number kept as text, cut at its decimal point; no text gives the empty text.
pub open spec fn whole_number_text(v: Option<Seq<char>>) -> Seq<char> {
    match v {
        Some(t) => before_first_dot(t),
        None => Seq::empty(),
    }
}

/// A square footage as the label prints it, as in `12 SQF`; none gives the empty text.
pub open spec fn square_footage_text(v: Option<int>) -> Seq<char> {
    match v {
        Some(n) => signed_decimal(n) + " SQF"@,
        None => Seq::empty(),
    }
}

/// The label of crate number `crate_number` of a line.
pub open spec fn label_for(line: LineView, crate_number: nat) -> LabelView {
    LabelView {
        sku_number: line.sku_number,
        description: text_or_empty(line.description),
        warehouse_name: text_or_empty(line.warehouse_name),
        location_stock_type: line.location_stock_type,
        customer: text_or_empty(line.customer),
        customer_sku: text_or_empty(line.customer_sku),
        origin: text_or_empty(line.origin),
        date: line.date,
        square_footage_per_crate: square_footage_text(line.square_footage_per_crate),
        pieces_per_crate: whole_number_text(line.pieces_per_crate),
        weight_per_crate_lbs: whole_number_text(line.weight_per_crate_lbs),
        crate_number: crate_number,
    }
}

/// The number of labels a line gives: its crate count, or none without one.
pub open spec fn crate_count(line: LineView) -> nat {
    match line.number_of_crates {
        Some(n) => n,
        None => 0,
    }
}

/// The labels of one line: crates 1 to its crate count, in order.
pub open spec fn line_labels(line: LineView) -> Seq<LabelView> {
    Seq::new(crate_count(line), |i: int| label_for(line, (i + 1) as nat))
}

/// The labels of all lines, line after line.
pub open spec fn expected_labels(lines: Seq<LineView>) -> Seq<LabelView>
    decreases lines.len(),
{
    if lines.len() == 0 {
        Seq::empty()
    } else {
        expected_labels(lines.drop_last()) + line_labels(lines.last())
    }
}

pub open spec fn lines_view(lines: Seq<PurchaseOrderLine>) -> Seq<LineView> {
    lines.map_values(|l: PurchaseOrderLine| l@)
}

pub open spec fn labels_view(labels: Seq<CrateLabel>) -> Seq<LabelView> {
    labels.map_values(|l: CrateLabel| l@)
}

proof fn lemma_before_first_dot_at(t: Seq<char>, i: int)
    requires
        0 <= i <= t.len(),
        forall|j: int| 0 <= j < i ==> t[j] != '.',
        i == t.len() || t[i] == '.',
    ensures
        before_first_dot(t) == t.subrange(0, i),
    decreases t.len(),
{
    if t.len() == 0 {
        assert(t.subrange(0, i) =~= Seq::<char>::empty());
    } else if i == 0 {
        assert(t.subrange(0, i) =~= Seq::<char>::empty());
    } else {
        let rest = t.drop_first();
        assert forall|j: int| 0 <= j < i - 1 implies rest[j] != '.' by {
            assert(rest[j] == t[j + 1]);
        }
        lemma_before_first_dot_at(rest, i - 1);
        assert(t.subrange(0, i) =~= seq![t[0]] + rest.subrange(0, i - 1));
    }
}

/// The whole-number part of a number kept as text: everything before the
/// first `.`, or the empty text where there is no value.
pub fn format_whole_number(value: Option<&str>) -> (res: String)
    ensures
        res@ == match value {
            Some(text) => before_first_dot(text@),
            None => Seq::empty(),
        },
{
    match value {
        Some(text) => {
            let len: usize = text.unicode_len();
            let mut i: usize = 0;
            while i < len && text.get_char(i) != '.'
                invariant
                    len == text@.len(),
                    i <= len,
                    forall|j: int| 0 <= j < i ==> text@[j] != '.',
                decreases len - i,
            {
                i = i + 1;
            }
            proof {
                lemma_before_first_dot_at(text@, i as int);
            }
            String::from_str(text.substring_char(0, i))
        },
        None => String::new(),
    }
}

/// The square footage of a crate as the label prints it, as in `12 SQF`,
/// or the empty text where there is none.
pub fn format_square_footage(value: Option<i64>) -> (res: String)
    ensures
        res@ == square_footage_text(match value {
            Some(n) => Some(n as int),
            None => None,
        }),
{
    match value {
        Some(sqf) => {
            let digits = format_i64(sqf);
            digits.concat(" SQF")
        },
        None => String::new(),
    }
}

fn text_or_default(o: &Option<String>) -> (res: String)
    ensures
        res@ == text_or_empty(opt_text(*o)),
{
    match o {
        Some(s) => s.clone(),
        None => String::new(),
    }
}

fn as_text(o: &Option<String>) -> (res: Option<&str>)
    ensures
        match res {
            Some(t) => opt_text(*o) == Some(t@),
            None => o.is_none(),
        },
{
    match o {
        Some(s) => Some(s.as_str()),
        None => None,
    }
}

fn label_for_crate(line: &PurchaseOrderLine, crate_number: usize) -> (res: CrateLabel)
    ensures
        res@ == label_for(line@, crate_number as nat),
{
    CrateLabel {
        sku_number: line.sku_number.clone(),
        description: text_or_default(&line.description),
        warehouse_name: text_or_default(&line.warehouse_name),
        location_stock_type: line.location_stock_type.clone(),
        customer: text_or_default(&line.customer),
        customer_sku: text_or_default(&line.customer_sku),
        origin: text_or_default(&line.origin),
        date: line.date,
        square_footage_per_crate: format_square_footage(line.square_footage_per_crate),
        pieces_per_crate: format_whole_number(as_text(&line.pieces_per_crate)),
        weight_per_crate_lbs: format_whole_number(as_text(&line.weight_per_crate_lbs)),
        crate_number: crate_number,
    }
}

/// One label per crate: for each line in order, the labels of crates 1 to
/// its crate count; lines without a crate count give none.
pub fn expand_to_crate_labels(lines: Vec<PurchaseOrderLine>) -> (labels: Vec<CrateLabel>)
    ensures
        labels_view(labels@) == expected_labels(lines_view(lines@)),
{
    let mut labels: Vec<CrateLabel> = Vec::new();
    let n: usize = lines.len();
    let mut i: usize = 0;
    while i < n
        invariant
            n == lines.len(),
            i <= n,
            labels_view(labels@) == expected_labels(lines_view(lines@).take(i as int)),
        decreases n - i,
    {
        let line = &lines[i];
        let ghost base = labels_view(labels@);
        let count: usize = match line.number_of_crates {
            Some(c) => c,
            None => 0,
        };
        let mut crate_number: usize = 0;
        while crate_number < count
            invariant
                i < n == lines.len(),
                line == &lines@[i as int],
                count == crate_count(line@),
                crate_number <= count,
                labels_view(labels@) == base + line_labels(line@).take(crate_number as int),
            decreases count - crate_number,
        {
            crate_number = crate_number + 1;
            let label = label_for_crate(line, crate_number);
            let ghost before = labels@;
            labels.push(label);
            proof {
                assert(labels@ == before.push(label));
                assert(labels_view(labels@) =~= labels_view(before).push(label@));
                assert(line_labels(line@).take(crate_number as int) =~= line_labels(line@).take(
                    crate_number - 1,
                ).push(label@));
            }
        }
        proof {
            let lv: Seq<LineView> = lines_view(lines@);
            assert(line_labels(line@).take(count as int) =~= line_labels(line@));
            assert(lv.take(i + 1).drop_last() =~= lv.take(i as int));
            assert(lv.take(i + 1).last() == line@);
        }
        i = i + 1;
    }
    proof {
        assert(lines_view(lines@).take(n as int) =~= lines_view(lines@));
    }
    labels
}

} // verus!

verus! {

/// The number of crates of all lines together.
pub open spec fn total_crates(lines: Seq<LineView>) -> nat
    decreases lines.len(),
{
    if lines.len() == 0 {
        0
    } else {
        total_crates(lines.drop_last()) + crate_count(lines.last())
    }
}

/// One label per crate: the labels of a purchase order are as many as its
/// crates, and crate `j` of line `k` has its label right after the labels
/// of the lines before `k` and of the crates before `j`.
pub proof fn lemma_one_label_per_crate(lines: Seq<LineView>)
    ensures
        expected_labels(lines).len() == total_crates(lines),
        forall|k: int, j: nat|
            0 <= k < lines.len() && 1 <= j <= crate_count(lines[k]) ==> expected_labels(lines)[total_crates(lines.take(k)) + j - 1]
                == #[trigger] label_for(lines[k], j),
    decreases lines.len(),
{
    if lines.len() > 0 {
        let init = lines.drop_last();
        let last = lines.last();
        lemma_one_label_per_crate(init);
        assert forall|k: int, j: nat|
            0 <= k < lines.len() && 1 <= j <= crate_count(lines[k]) implies expected_labels(lines)[total_crates(lines.take(k)) + j - 1]
                == #[trigger] label_for(lines[k], j) by {
            if k < lines.len() - 1 {
                assert(lines.take(k) =~= init.take(k));
                assert(lines[k] == init[k]);
                lemma_total_crates_prefix(init, k);
            } else {
                assert(lines.take(k) =~= init);
            }
        }
    }
}

/// The lines before `k` have no more crates than all the lines.
proof fn lemma_total_crates_prefix(lines: Seq<LineView>, k: int)
    requires
        0 <= k <= lines.len(),
    ensures
        total_crates(lines.take(k)) + (if k < lines.len() { crate_count(lines[k]) } else { 0 }) <= total_crates(lines),
    decreases lines.len(),
{
    if k < lines.len() {
        let init = lines.drop_last();
        if k < lines.len() - 1 {
            assert(lines.take(k) =~= init.take(k));
            assert(lines[k] == init[k]);
            lemma_total_crates_prefix(init, k);
        } else {
            assert(lines.take(k) =~= init);
        }
    } else {
        assert(lines.take(k) =~= lines);
    }
}

/// The whole-number part of a text has no `.` and begins the text.
pub proof fn lemma_whole_part_is_dot_free_prefix(t: Seq<char>)
    ensures
        !before_first_dot(t).contains('.'),
        before_first_dot(t).len() <= t.len(),
        before_first_dot(t) == t.take(before_first_dot(t).len() as int),
        before_first_dot(t).len() < t.len() ==> t[before_first_dot(t).len() as int] == '.',
    decreases t.len(),
{
    if t.len() > 0 && t[0] != '.' {
        let rest = t.drop_first();
        lemma_whole_part_is_dot_free_prefix(rest);
        let w = before_first_dot(rest);
        assert(before_first_dot(t) == seq![t[0]] + w);
        assert(t.take(w.len() + 1int) =~= seq![t[0]] + rest.take(w.len() as int));
        if before_first_dot(t).contains('.') {
            let i = choose|i: int| 0 <= i < before_first_dot(t).len() && before_first_dot(t)[i] == '.';
            if i > 0 {
                assert(w[i - 1] == '.');
            }
        }
        if w.len() < rest.len() {
            assert(t[w.len() + 1int] == rest[w.len() as int]);
        }
    } else if t.len() > 0 {
        assert(t.take(0) =~= Seq::<char>::empty());
    } else {
        assert(t.take(0) =~= Seq::<char>::empty());
    }
}

/// Cutting a number text at its decimal point twice cuts nothing more.
pub proof fn lemma_whole_part_idempotent(t: Seq<char>)
    ensures
        before_first_dot(before_first_dot(t)) == before_first_dot(t),
{
    let w = before_first_dot(t);
    lemma_whole_part_is_dot_free_prefix(t);
    lemma_before_first_dot_at(w, w.len() as int);
    assert(w.subrange(0, w.len() as int) =~= w);
}

} // verus!

verus! {

/// A square footage is printed as its number in decimal followed by ` SQF`:
/// the text before the unit reads back as exactly that number, for every
/// number; no square footage prints nothing.
pub proof fn lemma_square_footage_reads_back(n: int)
    ensures
        square_footage_text(Some(n)).len() >= 5,
        square_footage_text(Some(n)).subrange(square_footage_text(Some(n)).len() - 4, square_footage_text(Some(n)).len() as int)
            == " SQF"@,
        crate::request::parsed_integer(
            square_footage_text(Some(n)).subrange(0, square_footage_text(Some(n)).len() - 4),
        ) == Some(n),
        square_footage_text(None) == Seq::<char>::empty(),
{
    reveal_strlit(" SQF");
    crate::request::lemma_signed_decimal_reads_back(n);
    let d = signed_decimal(n);
    let m: nat = if n < 0 { (-n) as nat } else { n as nat };
    crate::request::lemma_decimal_digits(m);
    let t = square_footage_text(Some(n));
    assert(t == d + " SQF"@);
    assert(t.subrange(0, t.len() - 4) =~= d);
    assert(t.subrange(t.len() - 4, t.len() as int) =~= " SQF"@);
}

} // verus!

verus! {

/// The label of crate `j` of line `k`: the one after the labels of the
/// lines before `k` and of the crates before `j`.
pub open spec fn label_of_crate(lines: Seq<LineView>, k: int, j: nat) -> LabelView {
    expected_labels(lines)[total_crates(lines.take(k)) + j - 1]
}

/// A label text taken from an optional field: the field's text, or nothing.
pub open spec fn copied_or_empty(shown: Seq<char>, field: Option<Seq<char>>) -> bool {
    match field {
        Some(t) => shown == t,
        None => shown == Seq::<char>::empty(),
    }
}

/// Every label of a line carries that line's own fields, each in its own
/// place, and the number of its crate.
pub proof fn lemma_labels_carry_their_line(lines: Seq<LineView>)
    ensures
        forall|k: int, j: nat|
            0 <= k < lines.len() && 1 <= j <= crate_count(lines[k]) ==> {
                let label = #[trigger] label_of_crate(lines, k, j);
                let line = lines[k];
                &&& label.sku_number == line.sku_number
                &&& copied_or_empty(label.description, line.description)
                &&& copied_or_empty(label.warehouse_name, line.warehouse_name)
                &&& label.location_stock_type == line.location_stock_type
                &&& copied_or_empty(label.customer, line.customer)
                &&& copied_or_empty(label.customer_sku, line.customer_sku)
                &&& copied_or_empty(label.origin, line.origin)
                &&& label.date == line.date
                &&& label.square_footage_per_crate == square_footage_text(line.square_footage_per_crate)
                &&& label.pieces_per_crate == whole_number_text(line.pieces_per_crate)
                &&& label.weight_per_crate_lbs == whole_number_text(line.weight_per_crate_lbs)
                &&& label.crate_number == j
            },
{
    lemma_one_label_per_crate(lines);
    assert forall|k: int, j: nat|
        0 <= k < lines.len() && 1 <= j <= crate_count(lines[k]) implies {
            let label = #[trigger] label_of_crate(lines, k, j);
            let line = lines[k];
            &&& label.sku_number == line.sku_number
            &&& copied_or_empty(label.description, line.description)
            &&& copied_or_empty(label.warehouse_name, line.warehouse_name)
            &&& label.location_stock_type == line.location_stock_type
            &&& copied_or_empty(label.customer, line.customer)
            &&& copied_or_empty(label.customer_sku, line.customer_sku)
            &&& copied_or_empty(label.origin, line.origin)
            &&& label.date == line.date
            &&& label.square_footage_per_crate == square_footage_text(line.square_footage_per_crate)
            &&& label.pieces_per_crate == whole_number_text(line.pieces_per_crate)
            &&& label.weight_per_crate_lbs == whole_number_text(line.weight_per_crate_lbs)
            &&& label.crate_number == j
        } by {
        assert(label_of_crate(lines, k, j) == label_for(lines[k], j));
    }
}

} // verus!
