//! Decimal numbers as the portal writes them, read as thousandths.
use vstd::prelude::*;
use crate::text::{
    all_digits, chars_of, decimal_value, digit_value, parse_decimal, split, split_chars,
};

verus! {

/// `s` with every comma replaced by a full stop.
pub open spec fn with_decimal_point(s: Seq<char>) -> Seq<char> {
    s.map_values(|c: char| if c == ',' { '.' } else { c })
}

/// The thousandths that the fraction digits `frac` denote; digits after the third are cut off.
pub open spec fn fraction_millis(frac: Seq<char>) -> nat {
    (if frac.len() > 0 { digit_value(frac[0]) * 100 } else { 0 })
    + (if frac.len() > 1 { digit_value(frac[1]) * 10 } else { 0 })
    + (if frac.len() > 2 { digit_value(frac[2]) } else { 0 })
}

/// Whether `s` is a decimal number as the portal writes one: digits, optionally
/// followed by a comma or a full stop and further digits, with at least one digit in
/// all and at most six before the separator. A sign, an exponent, a blank or any other
/// character makes the text no number, and so does a seventh digit before the separator.
pub open spec fn is_decimal(s: Seq<char>) -> bool {
    let parts = split(with_decimal_point(s), '.');
    if parts.len() == 1 {
        all_digits(parts[0]) && 1 <= parts[0].len() <= 6
    } else if parts.len() == 2 {
        all_digits(parts[0]) && all_digits(parts[1]) && parts[0].len() <= 6 && parts[0].len()
            + parts[1].len() >= 1
    } else {
        false
    }
}

/// The thousandths that the decimal number `s` denotes.
pub open spec fn thousandths(s: Seq<char>) -> nat
    recommends
        is_decimal(s),
{
    let parts = split(with_decimal_point(s), '.');
    if parts.len() == 2 {
        decimal_value(parts[0]) * 1000 + fraction_millis(parts[1])
    } else {
        decimal_value(parts[0]) * 1000
    }
}

/// The thousandths that the text `s` denotes: those of the decimal number that it is,
/// or zero where it is none.
pub open spec fn decimal_millis(s: Seq<char>) -> nat {
    if is_decimal(s) {
        thousandths(s)
    } else {
        0
    }
}

fn all_digits_in(v: &Vec<char>) -> (r: bool)
    ensures
        r == all_digits(v@),
{
    let mut i: usize = 0;
    while i < v.len()
        invariant
            i <= v.len(),
            forall|j: int| 0 <= j < i ==> crate::text::is_digit(#[trigger] v@[j]),
        decreases v.len() - i,
    {
        let c = v[i];
        if !('0' <= c && c <= '9') {
            return false;
        }
        i += 1;
    }
    true
}

fn digit_at(v: &Vec<char>, i: usize) -> (r: u32)
    requires
        all_digits(v@),
    ensures
        r == (if i < v@.len() { digit_value(v@[i as int]) } else { 0 }),
        r <= 9,
{
    if i < v.len() {
        assert(crate::text::is_digit(v@[i as int]));
        v[i] as u32 - '0' as u32
    } else {
        0
    }
}

/// Reads a decimal number as thousandths. `None` where the text is no decimal number.
pub fn parse_millis(text: &str) -> (r: Option<u32>)
    ensures
        r is Some <==> is_decimal(text@),
        r is Some ==> r->0 == thousandths(text@) && r->0 < 1_000_000_000,
{
    let raw = chars_of(text);
    let mut chars: Vec<char> = Vec::new();
    let mut i: usize = 0;
    while i < raw.len()
        invariant
            i <= raw.len(),
            chars@ == with_decimal_point(raw@).take(i as int),
        decreases raw.len() - i,
    {
        let c = raw[i];
        chars.push(if c == ',' { '.' } else { c });
        i += 1;
        assert(chars@ =~= with_decimal_point(raw@).take(i as int));
    }
    assert(chars@ =~= with_decimal_point(raw@));
    let parts = split_chars(&chars, '.');
    assert(parts.deep_view().len() == parts.len());
    if parts.len() == 0 || parts.len() > 2 {
        return None;
    }
    proof {
        crate::text::lemma_chars_deep_view(parts@[0]);
        assert(parts.deep_view()[0] == parts@[0]@);
    }
    let whole = &parts[0];
    if whole.len() > 6 {
        return None;
    }
    let whole_value: u32 = match parse_decimal(whole) {
        Some(n) => n,
        None => { return None; },
    };
    proof {
        crate::text::lemma_decimal_value_bound(whole@);
    }
    if parts.len() == 1 {
        if whole.len() >= 1 {
            Some(whole_value * 1000)
        } else {
            None
        }
    } else {
        proof {
            crate::text::lemma_chars_deep_view(parts@[1]);
            assert(parts.deep_view()[1] == parts@[1]@);
        }
        let frac = &parts[1];
        if !all_digits_in(frac) || (whole.len() == 0 && frac.len() == 0) {
            return None;
        }
        let extra: u32 = digit_at(frac, 0) * 100 + digit_at(frac, 1) * 10 + digit_at(frac, 2);
        Some(whole_value * 1000 + extra)
    }
}

/// Reads a decimal number as thousandths; text that is no decimal number gives zero.
pub fn read_millis(text: &str) -> (r: u32)
    ensures
        r == decimal_millis(text@),
        !is_decimal(text@) ==> r == 0,
        r < 1_000_000_000,
{
    match parse_millis(text) {
        Some(millis) => millis,
        None => 0,
    }
}

} // verus!
