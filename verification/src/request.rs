//! The decisions of the crate-label request: reading the purchase order
//! number from the request path, the replies to each failure, and the name
//! of the PDF that is sent back.

use vstd::prelude::*;
use crate::text::{decimal, digit_char, signed_decimal};
use crate::labels::{PurchaseOrderLine, CrateLabel, expand_to_crate_labels, expected_labels, lines_view, labels_view};

verus! {

pub open spec fn is_ascii_digit(c: char) -> bool {
    '0' <= c && c <= '9'
}

pub open spec fn digit_value(c: char) -> int {
    (c as int) - ('0' as int)
}

/// The number that a run of decimal digits writes.
pub open spec fn digits_value(d: Seq<char>) -> int
    decreases d.len(),
{
    if d.len() == 0 {
        0
    } else {
        digits_value(d.drop_last()) * 10 + digit_value(d.last())
    }
}

pub open spec fn all_digits(d: Seq<char>) -> bool {
    forall|i: int| 0 <= i < d.len() ==> is_ascii_digit(#[trigger] d[i])
}

/// Whether the text starts with a minus sign.
pub open spec fn has_minus(s: Seq<char>) -> bool {
    s.len() > 0 && s[0] == '-'
}

/// The digits after an optional `+` or `-` sign.
pub open spec fn unsigned_part(s: Seq<char>) -> Seq<char> {
    if s.len() > 0 && (s[0] == '-' || s[0] == '+') {
        s.drop_first()
    } else {
        s
    }
}

/// What std's `str::parse::<i32>` accepts and gives: an optional sign, then
/// at least one decimal digit and nothing else, for a value that fits.
pub open spec fn parsed_i32(s: Seq<char>) -> Option<int> {
    let d = unsigned_part(s);
    let v: int = if has_minus(s) { -digits_value(d) } else { digits_value(d) };
    if d.len() > 0 && all_digits(d) && i32::MIN <= v <= i32::MAX {
        Some(v)
    } else {
        None
    }
}

proof fn lemma_digits_value_nonneg(d: Seq<char>)
    requires
        all_digits(d),
    ensures
        digits_value(d) >= 0,
    decreases d.len(),
{
    if d.len() > 0 {
        assert(is_ascii_digit(d[d.len() - 1]));
        lemma_digits_value_nonneg(d.drop_last());
    }
}

proof fn lemma_digits_value_prefix(d: Seq<char>, k: int)
    requires
        all_digits(d),
        0 <= k <= d.len(),
    ensures
        digits_value(d.take(k)) <= digits_value(d),
    decreases d.len(),
{
    if k < d.len() {
        let rest = d.drop_last();
        assert(rest.take(k) =~= d.take(k));
        lemma_digits_value_prefix(rest, k);
        lemma_digits_value_nonneg(rest);
        assert(is_ascii_digit(d[d.len() - 1]));
    } else {
        assert(d.take(k) =~= d);
    }
}

/// Reads a purchase order number as std's `str::parse::<i32>` does: an
/// optional sign and decimal digits, within the range of `i32`.
pub fn parse_purchase_order_number(text: &str) -> (res: Option<i32>)
    ensures
        match res {
            Some(n) => parsed_i32(text@) == Some(n as int),
            None => parsed_i32(text@) is None,
        },
{
    let len: usize = text.unicode_len();
    if len == 0 {
        return None;
    }
    let first = text.get_char(0);
    let negative = first == '-';
    let start: usize = if first == '-' || first == '+' { 1 } else { 0 };
    let ghost d = unsigned_part(text@);
    proof {
        assert(d =~= text@.subrange(start as int, len as int));
    }
    if start == len {
        return None;
    }
    let limit: i64 = if negative { 2147483648 } else { 2147483647 };
    let mut value: i64 = 0;
    let mut i: usize = start;
    while i < len
        invariant
            len == text@.len(),
            start <= i <= len,
            d == text@.subrange(start as int, len as int),
            d == unsigned_part(text@),
            all_digits(d.take(i - start)),
            value == digits_value(d.take(i - start)),
            0 <= value <= limit,
            limit == (if has_minus(text@) { 2147483648i64 } else { 2147483647i64 }),
        decreases len - i,
    {
        let c = text.get_char(i);
        if !('0' <= c && c <= '9') {
            proof {
                assert(d[i - start] == c);
                assert(!is_ascii_digit(d[i - start]));
            }
            return None;
        }
        let digit: i64 = ((c as u32) - ('0' as u32)) as i64;
        let ghost prefix = d.take(i - start);
        proof {
            assert(d.take(i - start + 1).drop_last() =~= prefix);
            assert(d.take(i - start + 1).last() == c);
        }
        value = value * 10 + digit;
        i = i + 1;
        if value > limit {
            proof {
                if all_digits(d) {
                    lemma_digits_value_prefix(d, i - start);
                }
            }
            return None;
        }
    }
    proof {
        assert(d.take(i - start) =~= d);
    }
    if negative {
        Some((0 - value) as i32)
    } else {
        Some(value as i32)
    }
}

/// The ways a crate-label request can fail.
#[derive(Clone, Copy, Debug, PartialEq, Eq, Structural)]
pub enum LabelsFailure {
    InvalidPurchaseOrderNumber,
    DatabaseConnection,
    PurchaseOrderQuery,
    NoCrateLabels,
}

impl LabelsFailure {
    pub open spec fn spec_status(self) -> int {
        match self {
            LabelsFailure::InvalidPurchaseOrderNumber => 400,
            LabelsFailure::DatabaseConnection => 500,
            LabelsFailure::PurchaseOrderQuery => 500,
            LabelsFailure::NoCrateLabels => 404,
        }
    }

    pub open spec fn spec_message(self) -> Seq<char> {
        match self {
            LabelsFailure::InvalidPurchaseOrderNumber => "Invalid purchase order number"@,
            LabelsFailure::DatabaseConnection => "Failed to connect to database"@,
            LabelsFailure::PurchaseOrderQuery => "Failed to query purchase order"@,
            LabelsFailure::NoCrateLabels => "No crate labels found for this purchase order"@,
        }
    }

    /// The HTTP status the failure is answered with.
    pub fn status_code(&self) -> (code: u16)
        ensures
            code == self.spec_status(),
    {
        match self {
            LabelsFailure::InvalidPurchaseOrderNumber => 400,
            LabelsFailure::DatabaseConnection => 500,
            LabelsFailure::PurchaseOrderQuery => 500,
            LabelsFailure::NoCrateLabels => 404,
        }
    }

    /// The text of the reply to the failure.
    pub fn message(&self) -> (text: &'static str)
        ensures
            text@ == self.spec_message(),
    {
        match self {
            LabelsFailure::InvalidPurchaseOrderNumber => "Invalid purchase order number",
            LabelsFailure::DatabaseConnection => "Failed to connect to database",
            LabelsFailure::PurchaseOrderQuery => "Failed to query purchase order",
            LabelsFailure::NoCrateLabels => "No crate labels found for this purchase order",
        }
    }
}

/// The crate labels of a purchase order's lines, or `NoCrateLabels` when
/// the order gives none.
pub fn crate_labels_for_order(lines: Vec<PurchaseOrderLine>) -> (res: Result<Vec<CrateLabel>, LabelsFailure>)
    ensures
        match res {
            Ok(labels) => labels_view(labels@) == expected_labels(lines_view(lines@))
                && labels@.len() > 0,
            Err(failure) => failure == LabelsFailure::NoCrateLabels
                && expected_labels(lines_view(lines@)).len() == 0,
        },
{
    let labels = expand_to_crate_labels(lines);
    if labels.len() == 0 {
        Err(LabelsFailure::NoCrateLabels)
    } else {
        Ok(labels)
    }
}

/// The name of the PDF sent back for a purchase order, as in `PO-42-crate-labels.pdf`.
pub open spec fn pdf_file_name_text(order: Seq<char>) -> Seq<char> {
    "PO-"@ + order + "-crate-labels.pdf"@
}

/// The `Content-Disposition` header of the PDF: shown inline, under its file name.
pub open spec fn content_disposition_text(order: Seq<char>) -> Seq<char> {
    "inline; filename=\""@ + pdf_file_name_text(order) + "\""@
}

/// The file name of the labels PDF of the purchase order written `order`
/// in the request.
pub fn pdf_file_name(order: &str) -> (name: String)
    ensures
        name@ == pdf_file_name_text(order@),
        name@ == "PO-"@ + order@ + "-crate-labels.pdf"@,
{
    String::from_str("PO-").concat(order).concat("-crate-labels.pdf")
}

/// The `Content-Disposition` header value for the labels PDF.
pub fn content_disposition(order: &str) -> (value: String)
    ensures
        value@ == content_disposition_text(order@),
        value@ == "inline; filename=\"PO-"@ + order@ + "-crate-labels.pdf\""@,
{
    let name = pdf_file_name(order);
    let value = String::from_str("inline; filename=\"").concat(name.as_str()).concat("\"");
    proof {
        reveal_strlit("inline; filename=\"PO-");
        reveal_strlit("inline; filename=\"");
        reveal_strlit("PO-");
        reveal_strlit("-crate-labels.pdf\"");
        reveal_strlit("-crate-labels.pdf");
        reveal_strlit("\"");
        assert(value@ =~= "inline; filename=\"PO-"@ + order@ + "-crate-labels.pdf\""@);
    }
    value
}

} // verus!

verus! {

pub(crate) proof fn lemma_digit_char(d: nat)
    requires
        d < 10,
    ensures
        is_ascii_digit(digit_char(d)),
        digit_value(digit_char(d)) == d,
{
}

/// The digits of a number read back as that number.
pub(crate) proof fn lemma_decimal_digits(n: nat)
    ensures
        decimal(n).len() > 0,
        all_digits(decimal(n)),
        digits_value(decimal(n)) == n,
    decreases n,
{
    if n < 10 {
        lemma_digit_char(n);
        assert(decimal(n).drop_last() =~= Seq::<char>::empty());
        assert(digits_value(decimal(n).drop_last()) == 0);
        assert(decimal(n).last() == digit_char(n));
    } else {
        lemma_decimal_digits(n / 10);
        lemma_digit_char(n % 10);
        let d = decimal(n);
        assert(d.drop_last() =~= decimal(n / 10));
        assert(d.last() == digit_char(n % 10));
        assert(digits_value(d) == digits_value(decimal(n / 10)) * 10 + digit_value(digit_char(n % 10)));
        assert((n / 10) * 10 + n % 10 == n);
        assert forall|i: int| 0 <= i < d.len() implies is_ascii_digit(#[trigger] d[i]) by {
            if i < d.len() - 1 {
                assert(d[i] == decimal(n / 10)[i]);
            }
        }
    }
}

/// A purchase order number written in decimal reads back as itself.
pub proof fn lemma_purchase_order_number_round_trip(n: int)
    requires
        i32::MIN <= n <= i32::MAX,
    ensures
        parsed_i32(signed_decimal(n)) == Some(n),
{
    let m: nat = if n < 0 { (-n) as nat } else { n as nat };
    lemma_decimal_digits(m);
    let s = signed_decimal(n);
    if n < 0 {
        assert(s.drop_first() =~= decimal(m));
        assert(s[0] == '-');
    } else {
        assert(is_ascii_digit(decimal(m)[0]));
    }
}

} // verus!

verus! {

/// The value a text writes as a signed decimal: an optional `+` or `-`, then
/// at least one decimal digit and nothing else, of any size.
pub open spec fn parsed_integer(s: Seq<char>) -> Option<int> {
    let d = unsigned_part(s);
    if d.len() > 0 && all_digits(d) {
        Some(if has_minus(s) { -digits_value(d) } else { digits_value(d) })
    } else {
        None
    }
}

/// Any integer written with `signed_decimal` reads back as itself.
pub proof fn lemma_signed_decimal_reads_back(n: int)
    ensures
        parsed_integer(signed_decimal(n)) == Some(n),
{
    let m: nat = if n < 0 { (-n) as nat } else { n as nat };
    lemma_decimal_digits(m);
    let s = signed_decimal(n);
    if n < 0 {
        assert(s.drop_first() =~= decimal(m));
        assert(s[0] == '-');
    } else {
        assert(is_ascii_digit(decimal(m)[0]));
    }
}

/// The labels PDF is named `PO-`, the order as written in the request, and
/// `-crate-labels.pdf`: the order's text can be read back whole from the name.
pub proof fn lemma_file_name_holds_the_order(order: Seq<char>)
    ensures
        pdf_file_name_text(order).len() == order.len() + 20,
        pdf_file_name_text(order).subrange(0, 3) == "PO-"@,
        pdf_file_name_text(order).subrange(3, 3 + order.len() as int) == order,
        pdf_file_name_text(order).subrange(3 + order.len() as int, order.len() as int + 20) == "-crate-labels.pdf"@,
        content_disposition_text(order) == "inline; filename=\""@ + pdf_file_name_text(order) + "\""@,
{
    reveal_strlit("PO-");
    reveal_strlit("-crate-labels.pdf");
    let t = pdf_file_name_text(order);
    assert(t.subrange(0, 3) =~= "PO-"@);
    assert(t.subrange(3, 3 + order.len() as int) =~= order);
    assert(t.subrange(3 + order.len() as int, order.len() as int + 20) =~= "-crate-labels.pdf"@);
}

} // verus!
