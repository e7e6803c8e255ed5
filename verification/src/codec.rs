//! The controller's wire encodings: flags sent as the integers 0 and 1,
//! temperatures in hundredths of a degree Celsius, and times of day with two
//! reserved "not set" values.

use crate::text::{
    all_digits, chars_of, decimal_text, digit_char, digit_value, digits_value, is_digit,
    lemma_decimal_text, push_char, push_decimal, push_two_digits, strip_plus, two_digit_text,
};
use vstd::prelude::*;
use vstd::string::StringExecFns;

verus! {

/// Why a wire value could not be decoded.
#[derive(Clone, Copy, Debug, PartialEq, Eq, Structural)]
pub enum CodecError {
    /// A flag held an integer other than 0 and 1.
    InvalidBoolean(i8),
}

/// The flag that a wire integer stands for, if it stands for one.
pub open spec fn flag_of(raw: int) -> Option<bool> {
    if raw == 0 {
        Some(false)
    } else if raw == 1 {
        Some(true)
    } else {
        None
    }
}

/// The wire integer of a flag.
pub open spec fn flag_code(flag: bool) -> int {
    if flag {
        1
    } else {
        0
    }
}

/// Decodes a flag that the controller sends as 0 or 1.
pub fn deserialize_int_as_bool(raw: i8) -> (r: Result<bool, CodecError>)
    ensures
        r == match flag_of(raw as int) {
            Some(flag) => Ok::<bool, CodecError>(flag),
            None => Err(CodecError::InvalidBoolean(raw)),
        },
{
    if raw == 0 {
        Ok(false)
    } else if raw == 1 {
        Ok(true)
    } else {
        Err(CodecError::InvalidBoolean(raw))
    }
}

/// Encodes a flag as the controller expects it.
pub fn serialize_bool_as_int(flag: bool) -> (r: u8)
    ensures
        r == flag_code(flag),
{
    if flag {
        1
    } else {
        0
    }
}

/// A flag survives being encoded and decoded again.
pub proof fn lemma_flag_round_trip(flag: bool)
    ensures
        flag_of(flag_code(flag)) == Some(flag),
{
}

/// Only 0 and 1 decode to a flag.
pub proof fn lemma_flag_domain(raw: int)
    ensures
        flag_of(raw) is Some <==> (raw == 0 || raw == 1),
{
}

/// `raw` hundredths in tenths, rounded to the nearest tenth; a value exactly
/// halfway goes to the even tenth.
pub open spec fn temp_tenths(raw: nat) -> nat {
    let q = raw / 10;
    let rest = raw % 10;
    if rest > 5 || (rest == 5 && q % 2 == 1) {
        q + 1
    } else {
        q
    }
}

/// A number of tenths written with one decimal place.
pub open spec fn tenths_text(tenths: nat) -> Seq<char> {
    decimal_text(tenths / 10) + seq!['.'] + seq![digit_char(tenths % 10)]
}

/// How a temperature of `raw` hundredths of a degree is displayed: in degrees,
/// with one decimal place.
pub open spec fn temp_text(raw: nat) -> Seq<char> {
    tenths_text(temp_tenths(raw))
}

/// A displayed temperature is made of digits and one point.
pub proof fn lemma_temp_text_chars(raw: nat)
    ensures
        forall|i: int|
            0 <= i < temp_text(raw).len() ==> is_digit(#[trigger] temp_text(raw)[i]) || temp_text(
                raw,
            )[i] == '.',
{
    let tenths = temp_tenths(raw);
    let whole = decimal_text(tenths / 10);
    lemma_decimal_text(tenths / 10);
    let text = temp_text(raw);
    assert forall|i: int| 0 <= i < text.len() implies is_digit(#[trigger] text[i]) || text[i]
        == '.' by {
        if i < whole.len() {
            assert(text[i] == whole[i]);
        } else if i == whole.len() {
            assert(text[i] == '.');
        } else {
            assert(text[i] == digit_char(tenths % 10));
        }
    }
}

/// Formats a temperature given in hundredths of a degree, e.g. 2150 as "21.5".
pub fn format_temp(temp_raw: u32) -> (r: String)
    ensures
        r@ == temp_text(temp_raw as nat),
{
    let q: u32 = temp_raw / 10;
    let rest: u32 = temp_raw % 10;
    let tenths: u64 = if rest > 5 || (rest == 5 && q % 2 == 1) {
        q as u64 + 1
    } else {
        q as u64
    };
    let mut out = String::new();
    push_decimal(&mut out, tenths / 10);
    push_char(&mut out, '.');
    push_char(&mut out, (48u8 + (tenths % 10) as u8) as char);
    assert(out@ =~= temp_text(temp_raw as nat));
    out
}

/// What the digits after the decimal point add, in hundredths: the first two
/// digits count, and a third digit of 5 or more rounds up.
pub open spec fn fraction_hundredths(frac: Seq<char>) -> nat {
    let first = if frac.len() > 0 {
        digit_value(frac[0])
    } else {
        0
    };
    let second = if frac.len() > 1 {
        digit_value(frac[1])
    } else {
        0
    };
    let up: nat = if frac.len() > 2 && digit_value(frac[2]) >= 5 {
        1
    } else {
        0
    };
    first * 10 + second + up
}

/// `body` is digits, a point at `p`, and digits again.
pub open spec fn splits_at(body: Seq<char>, p: int) -> bool {
    &&& 0 <= p < body.len()
    &&& body[p] == '.'
    &&& all_digits(body.take(p))
    &&& all_digits(body.skip(p + 1))
}

/// The hundredths of a degree that a decimal numeral of degrees denotes,
/// rounded to the nearest hundredth. The numeral is an optional `+`, digits,
/// and optionally a point and more digits, with a digit on at least one side
/// of the point.
pub open spec fn celsius_hundredths(s: Seq<char>) -> Option<nat> {
    let body = strip_plus(s);
    if body.len() > 0 && all_digits(body) {
        Some(digits_value(body) * 100)
    } else if exists|p: int| splits_at(body, p) {
        let p = choose|p: int| splits_at(body, p);
        if body.len() > 1 {
            Some(digits_value(body.take(p)) * 100 + fraction_hundredths(body.skip(p + 1)))
        } else {
            None
        }
    } else {
        None
    }
}

/// A numeral has its point in one place only.
pub proof fn lemma_split_unique(body: Seq<char>, p: int, q: int)
    requires
        splits_at(body, p),
        splits_at(body, q),
    ensures
        p == q,
{
    if p < q {
        assert(body.take(q)[p] == '.');
        assert(is_digit(body.take(q)[p]));
    } else if q < p {
        assert(body.take(p)[q] == '.');
        assert(is_digit(body.take(p)[q]));
    }
}

/// The largest whole part that is read exactly; anything above it is too
/// large for a 32-bit number of hundredths.
const WHOLE_CAP: u64 = 100_000_000;

/// Reads the digits `chars[from..]` up to the first character that is no
/// digit, and returns where it stopped and what the digits denote, capped at
/// `WHOLE_CAP`.
fn read_digits(chars: &Vec<char>, from: usize) -> (r: (usize, u64))
    requires
        from <= chars.len(),
    ensures
        from <= r.0 <= chars.len(),
        all_digits(chars@.subrange(from as int, r.0 as int)),
        r.0 < chars.len() ==> !is_digit(chars@[r.0 as int]),
        r.1 <= WHOLE_CAP,
        r.1 < WHOLE_CAP ==> r.1 == digits_value(chars@.subrange(from as int, r.0 as int)),
        r.1 == WHOLE_CAP ==> digits_value(chars@.subrange(from as int, r.0 as int)) >= WHOLE_CAP,
{
    let mut i: usize = from;
    let mut acc: u64 = 0;
    while i < chars.len() && '0' <= chars[i] && chars[i] <= '9'
        invariant
            from <= i <= chars.len(),
            all_digits(chars@.subrange(from as int, i as int)),
            acc <= WHOLE_CAP,
            acc < WHOLE_CAP ==> acc == digits_value(chars@.subrange(from as int, i as int)),
            acc == WHOLE_CAP ==> digits_value(chars@.subrange(from as int, i as int))
                >= WHOLE_CAP,
        decreases chars.len() - i,
    {
        let d: u64 = ((chars[i] as u8) - 48) as u64;
        let ghost before = chars@.subrange(from as int, i as int);
        let ghost after = chars@.subrange(from as int, i + 1);
        assert(after.drop_last() == before);
        assert(after.last() == chars@[i as int]);
        assert(all_digits(after)) by {
            assert forall|k: int| 0 <= k < after.len() implies is_digit(#[trigger] after[k]) by {
                if k < after.len() - 1 {
                    assert(after[k] == before[k]);
                }
            }
        }
        if acc >= WHOLE_CAP / 10 {
            acc = WHOLE_CAP;
        } else {
            acc = acc * 10 + d;
        }
        i += 1;
    }
    (i, acc)
}

/// A numeral made of digits alone has no point.
proof fn lemma_no_split_in_digits(body: Seq<char>)
    requires
        all_digits(body),
    ensures
        forall|q: int| !splits_at(body, q),
{
    assert forall|q: int| !splits_at(body, q) by {
        if 0 <= q < body.len() {
            assert(is_digit(body[q]));
        }
    }
}

/// Digits followed by a character that is neither a digit nor a point, or by
/// a point and later a character that is no digit, are no numeral.
proof fn lemma_no_split_with_stray(body: Seq<char>, p: int, bad: int)
    requires
        0 <= p <= bad < body.len(),
        all_digits(body.take(p)),
        !is_digit(body[p]),
        !is_digit(body[bad]),
        bad == p ==> body[p] != '.',
    ensures
        forall|q: int| !splits_at(body, q),
{
    assert forall|q: int| !splits_at(body, q) by {
        if splits_at(body, q) {
            if q < p {
                assert(body.take(p)[q] == '.');
                assert(is_digit(body.take(p)[q]));
            } else if q > p {
                assert(body.take(q)[p] == body[p]);
                assert(is_digit(body.take(q)[p]));
            } else {
                assert(body.skip(p + 1)[bad - p - 1] == body[bad]);
                assert(is_digit(body.skip(p + 1)[bad - p - 1]));
            }
        }
    }
}

/// The hundredths that the digits `chars[from..]` add when they stand after
/// the point.
fn read_fraction(chars: &Vec<char>, from: usize) -> (r: u64)
    requires
        from <= chars.len(),
        all_digits(chars@.subrange(from as int, chars@.len() as int)),
    ensures
        r == fraction_hundredths(chars@.subrange(from as int, chars@.len() as int)),
        r <= 100,
{
    let ghost frac = chars@.subrange(from as int, chars@.len() as int);
    let left: usize = chars.len() - from;
    let first: u64 = if left > 0 {
        assert(frac[0] == chars@[from as int]);
        assert(is_digit(frac[0]));
        ((chars[from] as u8) - 48) as u64
    } else {
        0
    };
    let second: u64 = if left > 1 {
        assert(frac[1] == chars@[from + 1]);
        assert(is_digit(frac[1]));
        ((chars[from + 1] as u8) - 48) as u64
    } else {
        0
    };
    let up: u64 = if left > 2 {
        assert(frac[2] == chars@[from + 2]);
        assert(is_digit(frac[2]));
        if chars[from + 2] >= '5' {
            1
        } else {
            0
        }
    } else {
        0
    };
    first * 10 + second + up
}

/// The hundredths of a numeral whose whole part was read as `whole`
/// (capped) and whose fraction adds `extra` hundredths: exact up to the
/// largest 32-bit number, and above it for every numeral that denotes more.
fn hundredths_in_reach(whole: u64, extra: u64) -> (r: u64)
    requires
        whole <= WHOLE_CAP,
        extra <= 100,
    ensures
        whole < WHOLE_CAP ==> r == whole * 100 + extra,
        whole == WHOLE_CAP ==> r > u32::MAX,
{
    whole * 100 + extra
}

/// What is read from a numeral that denotes `v` hundredths: `v` itself
/// where it fits 32 bits, and else some number that does not.
pub open spec fn read_as(v: nat, r: u64) -> bool {
    if v <= u32::MAX {
        r == v
    } else {
        r > u32::MAX
    }
}

/// Reads a temperature in degrees Celsius, e.g. "21.5", as hundredths of a
/// degree, rounded to the nearest hundredth. A numeral too large for 32
/// bits reads as a number too large for 32 bits; `None` if the text is no
/// numeral.
pub fn parse_celsius_wide(text: &str) -> (r: Option<u64>)
    ensures
        match celsius_hundredths(text@) {
            Some(v) => r is Some && read_as(v, r->0),
            None => r is None,
        },
{
    let chars = chars_of(text);
    let start: usize = if chars.len() > 0 && chars[0] == '+' {
        1
    } else {
        0
    };
    let ghost body = strip_plus(text@);
    assert(body == chars@.subrange(start as int, chars@.len() as int));
    let (stop, whole) = read_digits(&chars, start);
    let ghost p = stop - start;
    assert(chars@.subrange(start as int, stop as int) == body.take(p));
    if stop == chars.len() {
        assert(body.take(p) == body);
        proof {
            lemma_no_split_in_digits(body);
        }
        if stop == start {
            return None;
        }
        return Some(hundredths_in_reach(whole, 0));
    }
    assert(body[p] == chars@[stop as int]);
    assert(!all_digits(body));
    if chars[stop] != '.' {
        proof {
            lemma_no_split_with_stray(body, p, p);
        }
        return None;
    }
    let (end, _) = read_digits(&chars, stop + 1);
    if end < chars.len() {
        proof {
            assert(body[end - start] == chars@[end as int]);
            lemma_no_split_with_stray(body, p, end - start);
        }
        return None;
    }
    assert(chars@.subrange(stop + 1, end as int) == body.skip(p + 1));
    assert(splits_at(body, p));
    proof {
        let chosen = choose|q: int| splits_at(body, q);
        lemma_split_unique(body, chosen, p);
    }
    if chars.len() - start < 2 {
        return None;
    }
    let extra = read_fraction(&chars, stop + 1);
    Some(hundredths_in_reach(whole, extra))
}

/// Reads a temperature in degrees Celsius, e.g. "21.5", as hundredths of a
/// degree, rounded to the nearest hundredth. `None` if the text is no such
/// numeral or the result does not fit 32 bits.
pub fn parse_celsius(text: &str) -> (r: Option<u32>)
    ensures
        r == match celsius_hundredths(text@) {
            Some(v) => if v <= u32::MAX {
                Some(v as u32)
            } else {
                None
            },
            None => None,
        },
{
    match parse_celsius_wide(text) {
        Some(v) => if v <= u32::MAX as u64 {
            Some(v as u32)
        } else {
            None
        },
        None => None,
    }
}

/// Reading a displayed temperature gives the temperature rounded to the
/// tenth that was displayed.
pub proof fn lemma_parse_of_display(raw: nat)
    ensures
        celsius_hundredths(temp_text(raw)) == Some(temp_tenths(raw) * 10),
{
    let tenths = temp_tenths(raw);
    let whole = decimal_text(tenths / 10);
    let last = digit_char(tenths % 10);
    let text = temp_text(raw);
    lemma_decimal_text(tenths / 10);
    let p = whole.len() as int;
    assert(text.len() == p + 2);
    assert(text[0] == whole[0]);
    assert(is_digit(whole[0]));
    assert(strip_plus(text) == text);
    assert(text[p] == '.');
    assert(!all_digits(text)) by {
        assert(!is_digit(text[p]));
    }
    assert(text.take(p) == whole);
    assert(text.skip(p + 1) == seq![last]);
    assert(all_digits(seq![last]));
    assert(splits_at(text, p));
    let chosen = choose|q: int| splits_at(text, q);
    lemma_split_unique(text, chosen, p);
    assert(fraction_hundredths(seq![last]) == (tenths % 10) * 10);
}

/// A temperature that is a whole number of tenths of a degree is read back
/// from its display exactly.
pub proof fn lemma_display_round_trip(raw: nat)
    requires
        raw % 10 == 0,
    ensures
        celsius_hundredths(temp_text(raw)) == Some(raw),
{
    lemma_parse_of_display(raw);
}

/// Whether an (hour, minute) pair is one of the two encodings of "no time set".
pub open spec fn is_unset_time(hour: u8, minute: u8) -> bool {
    (hour == 255 && minute == 255) || (hour == 31 && minute == 63)
}

/// How a schedule's time is displayed: "N/A" when no time is set, else
/// hours and minutes in two digits each.
pub open spec fn time_text(hour: u8, minute: u8) -> Seq<char> {
    if is_unset_time(hour, minute) {
        "N/A"@
    } else {
        two_digit_text(hour as nat) + seq![':'] + two_digit_text(minute as nat)
    }
}

/// A schedule's start or stop time.
#[derive(Clone, Copy, Debug, PartialEq, Eq, Structural)]
pub enum ScheduleTime {
    /// No time is configured.
    Unset,
    /// A time of day as the controller reported it.
    At { hour: u8, minute: u8 },
}

/// The time that a pair of wire fields stands for; a missing field counts as 0.
pub open spec fn schedule_time_of(hour: Option<u8>, minute: Option<u8>) -> ScheduleTime {
    let h = match hour {
        Some(h) => h,
        None => 0u8,
    };
    let m = match minute {
        Some(m) => m,
        None => 0u8,
    };
    if is_unset_time(h, m) {
        ScheduleTime::Unset
    } else {
        ScheduleTime::At { hour: h, minute: m }
    }
}

/// Decodes a schedule's start or stop time from its two wire fields.
pub fn decode_schedule_time(hour: Option<u8>, minute: Option<u8>) -> (r: ScheduleTime)
    ensures
        r == schedule_time_of(hour, minute),
{
    let h: u8 = match hour {
        Some(h) => h,
        None => 0,
    };
    let m: u8 = match minute {
        Some(m) => m,
        None => 0,
    };
    if (h == 255 && m == 255) || (h == 31 && m == 63) {
        ScheduleTime::Unset
    } else {
        ScheduleTime::At { hour: h, minute: m }
    }
}

/// Formats a schedule time for display, e.g. (8, 5) as "08:05".
pub fn format_schedule_time(hour: u8, minute: u8) -> (r: String)
    ensures
        r@ == time_text(hour, minute),
{
    if (hour == 255 && minute == 255) || (hour == 31 && minute == 63) {
        String::from_str("N/A")
    } else {
        let mut out = String::new();
        push_two_digits(&mut out, hour);
        push_char(&mut out, ':');
        push_two_digits(&mut out, minute);
        assert(out@ =~= time_text(hour, minute));
        out
    }
}

} // verus!
