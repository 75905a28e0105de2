//! Decimal rendering of integers and the text helpers the labels use.

use vstd::prelude::*;

verus! {

/// The character of a decimal digit `d` (0 to 9).
pub open spec fn digit_char(d: nat) -> char {
    if d == 0 { '0' }
    else if d == 1 { '1' }
    else if d == 2 { '2' }
    else if d == 3 { '3' }
    else if d == 4 { '4' }
    else if d == 5 { '5' }
    else if d == 6 { '6' }
    else if d == 7 { '7' }
    else if d == 8 { '8' }
    else { '9' }
}

/// The decimal digits of `n`, most significant first, with no leading zeros
/// (zero is the single digit `0`).
pub open spec fn decimal(n: nat) -> Seq<char>
    decreases n,
{
    if n < 10 {
        seq![digit_char(n)]
    } else {
        decimal(n / 10).push(digit_char(n % 10))
    }
}

/// The decimal text of a signed integer: a `-` before the digits of its
/// magnitude when it is negative.
pub open spec fn signed_decimal(n: int) -> Seq<char> {
    if n < 0 {
        seq!['-'] + decimal((-n) as nat)
    } else {
        decimal(n as nat)
    }
}

fn digit_text(d: u64) -> (res: &'static str)
    requires
        d < 10,
    ensures
        res@ == seq![digit_char(d as nat)],
{
    if d == 0 {
        proof { reveal_strlit("0"); }
        "0"
    } else if d == 1 {
        proof { reveal_strlit("1"); }
        "1"
    } else if d == 2 {
        proof { reveal_strlit("2"); }
        "2"
    } else if d == 3 {
        proof { reveal_strlit("3"); }
        "3"
    } else if d == 4 {
        proof { reveal_strlit("4"); }
        "4"
    } else if d == 5 {
        proof { reveal_strlit("5"); }
        "5"
    } else if d == 6 {
        proof { reveal_strlit("6"); }
        "6"
    } else if d == 7 {
        proof { reveal_strlit("7"); }
        "7"
    } else if d == 8 {
        proof { reveal_strlit("8"); }
        "8"
    } else {
        proof { reveal_strlit("9"); }
        "9"
    }
}

/// Writes `n` in decimal.
pub fn format_u64(n: u64) -> (res: String)
    ensures
        res@ == decimal(n as nat),
{
    let mut m: u64 = n;
    let mut res = String::new();
    while m >= 10
        invariant
            decimal(n as nat) == decimal(m as nat) + res@,
        decreases m,
    {
        let d: u64 = m % 10;
        let next = String::from_str(digit_text(d)).concat(res.as_str());
        proof {
            assert(decimal(m as nat) == decimal((m / 10) as nat).push(digit_char(d as nat)));
            assert(decimal(n as nat) =~= decimal((m / 10) as nat) + next@);
        }
        res = next;
        m = m / 10;
    }
    let last = String::from_str(digit_text(m)).concat(res.as_str());
    proof {
        assert(decimal(n as nat) =~= last@);
    }
    last
}

/// Writes `n` in decimal, with a leading `-` when it is negative.
pub fn format_i64(n: i64) -> (res: String)
    ensures
        res@ == signed_decimal(n as int),
{
    if n < 0 {
        let magnitude: u64 = (0i128 - (n as i128)) as u64;
        let digits = format_u64(magnitude);
        proof { reveal_strlit("-"); }
        String::from_str("-").concat(digits.as_str())
    } else {
        format_u64(n as u64)
    }
}

} // verus!

verus! {

/// What std's `char::to_uppercase` gives for a character outside ASCII:
/// the first character of its upper-case mapping, and the characters after
/// it (a mapping has one or more characters).
pub uninterp spec fn unicode_uppercase(c: char) -> (char, Seq<char>);

pub open spec fn is_ascii_lowercase(c: char) -> bool {
    'a' <= c && c <= 'z'
}

/// The upper-case mapping of one character: an ASCII lower-case letter
/// becomes its capital, another ASCII character stays as it is, and a
/// character outside ASCII maps to one or more characters.
pub open spec fn char_uppercase(c: char) -> Seq<char> {
    if is_ascii_lowercase(c) {
        seq![((c as u32) - 32) as char]
    } else if (c as u32) < 128 {
        seq![c]
    } else {
        seq![unicode_uppercase(c).0] + unicode_uppercase(c).1
    }
}

/// The upper-case form of a text: the upper-case mappings of its
/// characters, one after the other.
pub open spec fn uppercase(s: Seq<char>) -> Seq<char>
    decreases s.len(),
{
    if s.len() == 0 {
        Seq::empty()
    } else {
        char_uppercase(s[0]) + uppercase(s.drop_first())
    }
}

/// Calls std's `str::to_uppercase`. Claimed: the result is the upper-case
/// mapping of each character in turn, as `char::to_uppercase` gives it (one
/// or more characters, with ASCII letters mapped to their capitals and other
/// ASCII characters unchanged); std's mapping depends on no locale and, unlike
/// lower-casing, on no neighbouring character. What a character outside
/// ASCII maps to is only named (`unicode_uppercase`).
#[verifier::external_body]
pub(crate) fn to_uppercase(s: &str) -> (res: String)
    ensures
        res@ == uppercase(s@),
        s@.len() == 1 && (s@[0] as u32) >= 128 ==> res@ == seq![unicode_uppercase(s@[0]).0]
            + unicode_uppercase(s@[0]).1,
{
    s.to_uppercase()
}

} // verus!

verus! {

/// Upper-casing a joined text upper-cases each part.
pub proof fn lemma_uppercase_of_join(a: Seq<char>, b: Seq<char>)
    ensures
        uppercase(a + b) == uppercase(a) + uppercase(b),
    decreases a.len(),
{
    if a.len() == 0 {
        assert(a + b =~= b);
    } else {
        assert((a + b).drop_first() =~= a.drop_first() + b);
        assert((a + b)[0] == a[0]);
        lemma_uppercase_of_join(a.drop_first(), b);
    }
}

/// Upper-casing never loses characters: every character maps to at least one.
pub proof fn lemma_uppercase_keeps_every_character(s: Seq<char>)
    ensures
        uppercase(s).len() >= s.len(),
    decreases s.len(),
{
    if s.len() > 0 {
        lemma_uppercase_keeps_every_character(s.drop_first());
    }
}

/// An ASCII text upper-cases character for character: lower-case letters
/// become their capitals and everything else stays.
pub proof fn lemma_uppercase_of_ascii(s: Seq<char>)
    requires
        forall|i: int| 0 <= i < s.len() ==> (#[trigger] s[i] as u32) < 128,
    ensures
        uppercase(s).len() == s.len(),
        forall|i: int|
            0 <= i < s.len() ==> #[trigger] uppercase(s)[i] == if is_ascii_lowercase(s[i]) {
                ((s[i] as u32) - 32) as char
            } else {
                s[i]
            },
    decreases s.len(),
{
    if s.len() > 0 {
        let rest = s.drop_first();
        assert forall|i: int| 0 <= i < rest.len() implies (#[trigger] rest[i] as u32) < 128 by {
            assert(rest[i] == s[i + 1]);
        }
        lemma_uppercase_of_ascii(rest);
        assert forall|i: int| 0 <= i < s.len() implies #[trigger] uppercase(s)[i] == if is_ascii_lowercase(
            s[i],
        ) {
            ((s[i] as u32) - 32) as char
        } else {
            s[i]
        } by {
            if i > 0 {
                assert(uppercase(s)[i] == uppercase(rest)[i - 1]);
                assert(rest[i - 1] == s[i]);
            }
        }
    }
}

/// A text with no lower-case ASCII letter and nothing outside ASCII (capitals,
/// digits, spaces, punctuation) is already upper-case.
pub proof fn lemma_uppercase_keeps_capitals(s: Seq<char>)
    requires
        forall|i: int| 0 <= i < s.len() ==> (#[trigger] s[i] as u32) < 128 && !is_ascii_lowercase(s[i]),
    ensures
        uppercase(s) == s,
{
    lemma_uppercase_of_ascii(s);
    assert(uppercase(s) =~= s);
}

} // verus!
