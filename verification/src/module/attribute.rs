//! Attributes of devices.

use vstd::prelude::*;
use vstd::string::StringSliceAdditionalSpecFns;

verus! {

/// Number that a text of decimal digits stands for.
pub open spec fn digits_value(digits: Seq<u8>) -> int
    decreases digits.len(),
{
    if digits.len() == 0 {
        0
    } else {
        digits_value(digits.drop_last()) * 10 + (digits.last() - 0x30)
    }
}

/// The text holds at least one byte, and decimal digits only.
pub open spec fn is_decimal(digits: Seq<u8>) -> bool {
    digits.len() >= 1 && forall|i: int| 0 <= i < digits.len() ==> 0x30 <= #[trigger] digits[i] <= 0x39
}

/// Digits of a number's text: the text without a leading plus sign.
pub open spec fn unsigned_digits(text: Seq<u8>) -> Seq<u8> {
    if text.len() >= 1 && text[0] == 0x2B {
        text.subrange(1, text.len() as int)
    } else {
        text
    }
}

/// Number up to `max` that a text stands for: decimal digits, which a plus
/// sign may precede.
pub open spec fn parsed_number(text: Seq<u8>, max: u64) -> Option<u64> {
    let digits = unsigned_digits(text);
    if is_decimal(digits) && digits_value(digits) <= max {
        Some(digits_value(digits) as u64)
    } else {
        None
    }
}

/// The number that digits stand for is no smaller than the one that their
/// first `len` digits stand for.
proof fn lemma_digits_value_grows(digits: Seq<u8>, len: int)
    requires
        0 <= len <= digits.len(),
        forall|i: int| 0 <= i < digits.len() ==> 0x30 <= #[trigger] digits[i] <= 0x39,
    ensures
        0 <= digits_value(digits.subrange(0, len)) <= digits_value(digits),
    decreases digits.len() - len,
{
    if len == 0 {
        lemma_digits_value_positive(digits);
        assert(digits.subrange(0, 0).len() == 0);
    } else if len < digits.len() {
        lemma_digits_value_grows(digits, len + 1);
        let longer = digits.subrange(0, len + 1);
        assert(longer.drop_last() =~= digits.subrange(0, len));
        lemma_digits_value_positive(digits.subrange(0, len));
    } else {
        assert(digits.subrange(0, len) =~= digits);
        lemma_digits_value_positive(digits);
    }
}

/// Digits stand for a number that is not negative.
proof fn lemma_digits_value_positive(digits: Seq<u8>)
    requires
        forall|i: int| 0 <= i < digits.len() ==> 0x30 <= #[trigger] digits[i] <= 0x39,
    ensures
        digits_value(digits) >= 0,
    decreases digits.len(),
{
    if digits.len() > 0 {
        lemma_digits_value_positive(digits.drop_last());
    }
}

/// Read a number up to `max` from the text of an attribute.
pub fn parse_number(text: &str, max: u64) -> (number: Option<u64>)
    ensures
        number == parsed_number(text.spec_bytes(), max),
{
    let bytes = text.as_bytes();
    let start: usize = if bytes.len() >= 1 && bytes[0] == 0x2B {
        1
    } else {
        0
    };
    let ghost digits = unsigned_digits(bytes@);
    assert(digits =~= bytes@.subrange(start as int, bytes@.len() as int));
    if bytes.len() == start {
        return None;
    }
    let mut value: u64 = 0;
    let mut i: usize = start;
    while i < bytes.len()
        invariant
            bytes@ == text.spec_bytes(),
            digits == unsigned_digits(bytes@),
            digits =~= bytes@.subrange(start as int, bytes@.len() as int),
            start <= i <= bytes.len(),
            start < bytes.len(),
            forall|k: int| 0 <= k < i - start ==> 0x30 <= #[trigger] digits[k] <= 0x39,
            value == digits_value(digits.subrange(0, i - start)),
            value <= max,
        decreases bytes.len() - i,
    {
        let byte = bytes[i];
        if byte < 0x30 || byte > 0x39 {
            assert(digits[i - start] == byte);
            return None;
        }
        let digit = (byte - 0x30) as u64;
        let ghost longer = digits.subrange(0, i - start + 1);
        proof {
            assert(longer.drop_last() =~= digits.subrange(0, i - start));
            assert(longer.last() == byte);
            assert(digits_value(longer) == value * 10 + digit);
        }
        if digit > max || value > (max - digit) / 10 {
            proof {
                assert(value * 10 + digit > max) by (nonlinear_arith)
                    requires
                        digit > max || value > (max - digit) / 10,
                        0 <= digit <= 9,
                        0 <= value <= max,
                ;
                if is_decimal(digits) {
                    lemma_digits_value_grows(digits, i - start + 1);
                }
            }
            return None;
        }
        assert(value * 10 + digit <= max) by (nonlinear_arith)
            requires
                value <= (max - digit) / 10,
                0 <= digit <= 9,
                digit <= max,
        ;
        value = value * 10 + digit;
        i += 1;
    }
    assert(digits.subrange(0, i - start) =~= digits);
    Some(value)
}

/// First pair of a list whose two attributes were both found.
pub open spec fn first_found<A, B>(devices: Seq<(Option<A>, Option<B>)>, from: int) -> Option<(A, B)>
    decreases devices.len() - from,
{
    if from < 0 || from >= devices.len() {
        None
    } else if devices[from].0 is Some && devices[from].1 is Some {
        Some((devices[from].0->0, devices[from].1->0))
    } else {
        first_found(devices, from + 1)
    }
}

/// Find the first device with both of two attributes.
pub fn first_complete<A: Copy, B: Copy>(devices: &Vec<(Option<A>, Option<B>)>) -> (found: Option<(A, B)>)
    ensures
        found == first_found(devices@, 0),
{
    let mut i: usize = 0;
    while i < devices.len()
        invariant
            0 <= i <= devices.len(),
            first_found(devices@, 0) == first_found(devices@, i as int),
        decreases devices.len() - i,
    {
        match (devices[i].0, devices[i].1) {
            (Some(first), Some(second)) => {
                return Some((first, second));
            },
            _ => {},
        }
        i += 1;
    }
    None
}

} // verus!
