//! Version texts of the form `major.minor.patch` and their packed form.

use vstd::prelude::*;

verus! {

/// The fields of a version, packed: the variant in the top three bits, then
/// seven bits of major, ten of minor and twelve of patch version. Bits that
/// a field has beyond its room are not cut off.
pub open spec fn packed_version(variant: u32, major: u32, minor: u32, patch: u32) -> u32 {
    (variant << 29u32) | (major << 22u32) | (minor << 12u32) | patch
}

/// Calls `ash::vk::make_api_version`, which the binding defines as the
/// four fields shifted to their places and joined by bitwise or.
#[verifier::external_body]
fn make_api_version(variant: u32, major: u32, minor: u32, patch: u32) -> (r: u32)
    ensures
        r == packed_version(variant, major, minor, patch),
{
    ash::vk::make_api_version(variant, major, minor, patch)
}

/// Whether `b` is a decimal digit.
pub open spec fn is_digit(b: u8) -> bool {
    0x30 <= b <= 0x39
}

/// The number that the digits `digits` state.
pub open spec fn decimal(digits: Seq<u8>) -> nat
    decreases digits.len(),
{
    if digits.len() == 0 {
        0
    } else {
        10 * decimal(digits.drop_last()) + (digits.last() - 0x30) as nat
    }
}

/// The digits of a field: the field without its plus sign, if it has one.
pub open spec fn field_digits(field: Seq<u8>) -> Seq<u8> {
    if field.len() > 0 && field[0] == 0x2b {
        field.drop_first()
    } else {
        field
    }
}

/// The number that a field states: at least one digit, after a plus sign or
/// none, of a value that fits 32 bits.
pub open spec fn field_value(field: Seq<u8>) -> Option<u32> {
    let digits = field_digits(field);
    if digits.len() > 0 && (forall|i: int| 0 <= i < digits.len() ==> is_digit(digits[i]))
        && decimal(digits) <= u32::MAX {
        Some(decimal(digits) as u32)
    } else {
        None
    }
}

/// Where the field that starts at `start` ends: at the next dot, or at the
/// end of the text.
pub open spec fn field_end(text: Seq<u8>, start: int) -> int
    decreases text.len() - start,
{
    if start >= text.len() {
        text.len() as int
    } else if text[start] == 0x2e {
        start
    } else {
        field_end(text, start + 1)
    }
}

/// The packed version that `text` states: its first three fields, parted
/// by dots, as major, minor and patch version of variant zero. What
/// follows a third dot does not count.
pub open spec fn version_of(text: Seq<u8>) -> Option<u32> {
    let first = field_end(text, 0);
    let second = field_end(text, first + 1);
    let third = field_end(text, second + 1);
    if first < text.len() && second < text.len() {
        match (
            field_value(text.subrange(0, first)),
            field_value(text.subrange(first + 1, second)),
            field_value(text.subrange(second + 1, third)),
        ) {
            (Some(major), Some(minor), Some(patch)) => Some(packed_version(0, major, minor, patch)),
            _ => None,
        }
    } else {
        None
    }
}

proof fn lemma_decimal_grows(digits: Seq<u8>, k: int)
    requires
        0 <= k <= digits.len(),
    ensures
        decimal(digits.subrange(0, k)) <= decimal(digits),
    decreases digits.len() - k,
{
    if k == digits.len() {
        assert(digits.subrange(0, k) =~= digits);
    } else {
        lemma_decimal_grows(digits.drop_last(), k);
        assert(digits.drop_last().subrange(0, k) =~= digits.subrange(0, k));
    }
}

/// Where the field that starts at `start` ends.
fn scan_field(text: &[u8], start: usize) -> (end: usize)
    requires
        start <= text@.len(),
    ensures
        end == field_end(text@, start as int),
        start <= end <= text@.len(),
{
    let mut end = start;
    while end < text.len() && text[end] != 0x2e
        invariant
            start <= end <= text@.len(),
            field_end(text@, start as int) == field_end(text@, end as int),
        decreases text@.len() - end,
    {
        end += 1;
    }
    end
}

/// The number that the field from `start` to `end` states.
fn parse_field(text: &[u8], start: usize, end: usize) -> (r: Option<u32>)
    requires
        start <= end <= text@.len(),
    ensures
        r == field_value(text@.subrange(start as int, end as int)),
{
    let ghost field = text@.subrange(start as int, end as int);
    let from = if start < end && text[start] == 0x2b {
        start + 1
    } else {
        start
    };
    let ghost digits = field_digits(field);
    assert(digits =~= text@.subrange(from as int, end as int));
    if from == end {
        return None;
    }
    let mut value: u32 = 0;
    let mut i = from;
    while i < end
        invariant
            from <= i <= end <= text@.len(),
            start <= end,
            field == text@.subrange(start as int, end as int),
            digits == field_digits(field),
            digits == text@.subrange(from as int, end as int),
            forall|k: int| 0 <= k < i - from ==> is_digit(digits[k]),
            value == decimal(digits.subrange(0, i - from)),
        decreases end - i,
    {
        let b = text[i];
        if b < 0x30 || b > 0x39 {
            assert(!is_digit(digits[i - from]));
            return None;
        }
        let d: u32 = (b - 0x30) as u32;
        proof {
            let next = digits.subrange(0, i - from + 1);
            assert(next.drop_last() =~= digits.subrange(0, i - from));
            assert(next.last() == b);
            lemma_decimal_grows(digits, i - from + 1);
        }
        if value > (u32::MAX - d) / 10 {
            return None;
        }
        value = value * 10 + d;
        i += 1;
    }
    assert(digits.subrange(0, i - from) =~= digits);
    Some(value)
}

/// The packed version that `version`, a text such as `0.1.0`, states.
pub fn get_version(version: &[u8]) -> (r: Option<u32>)
    ensures
        r == version_of(version@),
{
    let first = scan_field(version, 0);
    if first >= version.len() {
        return None;
    }
    let second = scan_field(version, first + 1);
    if second >= version.len() {
        return None;
    }
    let third = scan_field(version, second + 1);
    let major = parse_field(version, 0, first);
    let minor = parse_field(version, first + 1, second);
    let patch = parse_field(version, second + 1, third);
    match (major, minor, patch) {
        (Some(major), Some(minor), Some(patch)) => Some(make_api_version(0, major, minor, patch)),
        _ => None,
    }
}

} // verus!
