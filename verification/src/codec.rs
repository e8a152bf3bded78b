use crate::timestamp::Timestamp;
use vstd::prelude::*;

verus! {

// The fixed textual form is `YYYY:MM:DD HH:MM:SS`: zero-padded decimal
// fields, 24-hour clock, 19 ASCII bytes in all, with `:` (byte 58) between
// the fields and one space (byte 32) between the date and the time.

/// ASCII decimal digit.
pub open spec fn is_digit(b: u8) -> bool {
    48 <= b <= 57
}

/// Numeric value of an ASCII digit.
pub open spec fn digit_value(b: u8) -> int {
    b as int - 48
}

/// ASCII digit for the given decimal place of `n` (units for `p == 1`,
/// tens for `p == 10`, and so on).
pub open spec fn digit_of(n: int, p: int) -> u8 {
    (48 + (n / p) % 10) as u8
}

/// Value of the two-digit field starting at `i`.
pub open spec fn field2(s: Seq<u8>, i: int) -> int {
    digit_value(s[i]) * 10 + digit_value(s[i + 1])
}

/// Value of the four-digit field starting at `i`.
pub open spec fn field4(s: Seq<u8>, i: int) -> int {
    digit_value(s[i]) * 1000 + digit_value(s[i + 1]) * 100 + digit_value(s[i + 2]) * 10
        + digit_value(s[i + 3])
}

/// The bytes have the shape of the fixed form: digits and separators in
/// exactly the right places.
pub open spec fn layout_ok(s: Seq<u8>) -> bool {
    &&& s.len() == 19
    &&& is_digit(s[0]) && is_digit(s[1]) && is_digit(s[2]) && is_digit(s[3])
    &&& s[4] == 58u8
    &&& is_digit(s[5]) && is_digit(s[6])
    &&& s[7] == 58u8
    &&& is_digit(s[8]) && is_digit(s[9])
    &&& s[10] == 32u8
    &&& is_digit(s[11]) && is_digit(s[12])
    &&& s[13] == 58u8
    &&& is_digit(s[14]) && is_digit(s[15])
    &&& s[16] == 58u8
    &&& is_digit(s[17]) && is_digit(s[18])
}

/// The timestamp spelled by well-laid-out bytes, before range checking.
/// The textual form carries no sub-second part, so the remainder is zero.
pub open spec fn candidate_of(s: Seq<u8>) -> Timestamp {
    Timestamp {
        year: field4(s, 0) as u16,
        month: field2(s, 5) as u8,
        day: field2(s, 8) as u8,
        hour: field2(s, 11) as u8,
        minute: field2(s, 14) as u8,
        second: field2(s, 17) as u8,
        nanos: 0,
    }
}

/// What parsing returns: the spelled timestamp when the bytes have the fixed
/// shape and name a real calendar date and time, nothing otherwise.
pub open spec fn spec_parse(s: Seq<u8>) -> Option<Timestamp> {
    if layout_ok(s) && candidate_of(s).wf() {
        Some(candidate_of(s))
    } else {
        None
    }
}

/// The 19 bytes of the fixed textual form for `t`, zero-padded. The
/// sub-second remainder is not representable and is dropped.
pub open spec fn spec_format(t: Timestamp) -> Seq<u8> {
    seq![
        digit_of(t.year as int, 1000),
        digit_of(t.year as int, 100),
        digit_of(t.year as int, 10),
        digit_of(t.year as int, 1),
        58u8,
        digit_of(t.month as int, 10),
        digit_of(t.month as int, 1),
        58u8,
        digit_of(t.day as int, 10),
        digit_of(t.day as int, 1),
        32u8,
        digit_of(t.hour as int, 10),
        digit_of(t.hour as int, 1),
        58u8,
        digit_of(t.minute as int, 10),
        digit_of(t.minute as int, 1),
        58u8,
        digit_of(t.second as int, 10),
        digit_of(t.second as int, 1),
    ]
}

/// Parses one raw embedded field value. Returns the named timestamp exactly
/// when the bytes spell the fixed `YYYY:MM:DD HH:MM:SS` form and the spelled
/// components are a real calendar date and a valid time of day; a malformed
/// value yields `None` and never an error.
pub fn parse_timestamp(s: &[u8]) -> (r: Option<Timestamp>)
    ensures
        r == spec_parse(s@),
        r matches Some(t) ==> t.wf() && t.nanos == 0,
{
    if s.len() != 19 {
        return None;
    }
    let shape_ok: bool = digit_at(s, 0) && digit_at(s, 1) && digit_at(s, 2) && digit_at(s, 3)
        && s[4] == 58 && digit_at(s, 5) && digit_at(s, 6) && s[7] == 58 && digit_at(s, 8)
        && digit_at(s, 9) && s[10] == 32 && digit_at(s, 11) && digit_at(s, 12) && s[13] == 58
        && digit_at(s, 14) && digit_at(s, 15) && s[16] == 58 && digit_at(s, 17) && digit_at(s, 18);
    if !shape_ok {
        return None;
    }
    let year: u16 = (s[0] - 48) as u16 * 1000 + (s[1] - 48) as u16 * 100 + (s[2] - 48) as u16 * 10
        + (s[3] - 48) as u16;
    let t = Timestamp {
        year,
        month: (s[5] - 48) * 10 + (s[6] - 48),
        day: (s[8] - 48) * 10 + (s[9] - 48),
        hour: (s[11] - 48) * 10 + (s[12] - 48),
        minute: (s[14] - 48) * 10 + (s[15] - 48),
        second: (s[17] - 48) * 10 + (s[18] - 48),
        nanos: 0,
    };
    if t.well_formed() {
        Some(t)
    } else {
        None
    }
}

/// A number up to 9999 is recomposed exactly from its four decimal digits.
proof fn lemma_four_digits(y: int)
    requires
        0 <= y <= 9999,
    ensures
        ((y / 1000) % 10) * 1000 + ((y / 100) % 10) * 100 + ((y / 10) % 10) * 10 + y % 10 == y,
{
    assert(y == 10 * (y / 10) + y % 10);
    assert(y / 10 == 10 * (y / 100) + (y / 10) % 10);
    assert(y / 100 == 10 * (y / 1000) + (y / 100) % 10);
    assert(y / 1000 == (y / 1000) % 10);
}

/// A number up to 99 is recomposed exactly from its two decimal digits.
proof fn lemma_two_digits(m: int)
    requires
        0 <= m <= 99,
    ensures
        ((m / 10) % 10) * 10 + m % 10 == m,
{
    assert(m == 10 * (m / 10) + m % 10);
    assert(m / 10 == (m / 10) % 10);
}

/// Round trip: formatting a well-formed timestamp and parsing the bytes back
/// returns the same timestamp with the (unrepresentable) sub-second remainder
/// dropped. The textual form is lossless for the supported precision.
pub proof fn lemma_format_parse_round_trip(t: Timestamp)
    requires
        t.wf(),
    ensures
        spec_parse(spec_format(t)) == Some(Timestamp { nanos: 0, ..t }),
        t.nanos == 0 ==> spec_parse(spec_format(t)) == Some(t),
{
    let s = spec_format(t);
    lemma_four_digits(t.year as int);
    lemma_two_digits(t.month as int);
    lemma_two_digits(t.day as int);
    lemma_two_digits(t.hour as int);
    lemma_two_digits(t.minute as int);
    lemma_two_digits(t.second as int);
    assert(layout_ok(s));
    assert(candidate_of(s) == Timestamp { nanos: 0, ..t });
}

/// Decides `is_digit` at index `i`.
fn digit_at(s: &[u8], i: usize) -> (r: bool)
    requires
        i < s@.len(),
    ensures
        r == is_digit(s@[i as int]),
{
    48 <= s[i] && s[i] <= 57
}

/// Formats `t` into the fixed textual form, the inverse of parsing up to the
/// dropped sub-second remainder.
pub fn format_timestamp(t: &Timestamp) -> (r: Vec<u8>)
    requires
        t.wf(),
    ensures
        r@ == spec_format(*t),
{
    let mut v: Vec<u8> = Vec::new();
    v.push((48 + (t.year / 1000) % 10) as u8);
    v.push((48 + (t.year / 100) % 10) as u8);
    v.push((48 + (t.year / 10) % 10) as u8);
    v.push((48 + t.year % 10) as u8);
    v.push(58);
    v.push(48 + (t.month / 10) % 10);
    v.push(48 + t.month % 10);
    v.push(58);
    v.push(48 + (t.day / 10) % 10);
    v.push(48 + t.day % 10);
    v.push(32);
    v.push(48 + (t.hour / 10) % 10);
    v.push(48 + t.hour % 10);
    v.push(58);
    v.push(48 + (t.minute / 10) % 10);
    v.push(48 + t.minute % 10);
    v.push(58);
    v.push(48 + (t.second / 10) % 10);
    v.push(48 + t.second % 10);
    proof {
        assert(v@ =~= spec_format(*t));
    }
    v
}

} // verus!
