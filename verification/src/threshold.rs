//! The time parser: from a threshold as the operator writes it, such as
//! `30d`, to a length of time.
//!
//! An expression names a unit where a decimal digit stands directly before
//! the unit's letter. Its magnitude is the first unbroken run of decimal
//! digits in it.

use vstd::prelude::*;
use crate::text::chars_of;
use crate::time::Span;

verus! {

/// Seconds in a year of 365 days.
pub const SECS_PER_YEAR: u64 = 31_536_000;

/// Seconds in a day.
pub const SECS_PER_DAY: u64 = 86_400;

/// Seconds in an hour.
pub const SECS_PER_HOUR: u64 = 3_600;

/// Why an expression is no threshold.
#[derive(Debug, Clone, Copy, PartialEq, Eq)]
pub enum ParseError {
    /// The expression names no unit, or its magnitude times the unit's
    /// seconds is more than 64 bits hold.
    InvalidThresholdFormat,
}

/// The units in which a threshold can be written.
#[derive(Debug, Clone, Copy, PartialEq, Eq)]
pub enum TimeUnit {
    /// `y`: 365 days.
    Year,
    /// `d`: 24 hours.
    Day,
    /// `h`: 3600 seconds.
    Hour,
}

impl TimeUnit {
    /// The letter that stands for the unit.
    pub open spec fn spec_letter(self) -> char {
        match self {
            TimeUnit::Year => 'y',
            TimeUnit::Day => 'd',
            TimeUnit::Hour => 'h',
        }
    }

    /// The seconds that the unit lasts.
    pub open spec fn spec_seconds(self) -> u64 {
        match self {
            TimeUnit::Year => SECS_PER_YEAR,
            TimeUnit::Day => SECS_PER_DAY,
            TimeUnit::Hour => SECS_PER_HOUR,
        }
    }

    /// The letter that stands for the unit.
    #[verifier::when_used_as_spec(spec_letter)]
    pub fn letter(self) -> (letter: char)
        ensures
            letter == self.spec_letter(),
    {
        match self {
            TimeUnit::Year => 'y',
            TimeUnit::Day => 'd',
            TimeUnit::Hour => 'h',
        }
    }

    /// The seconds that the unit lasts.
    #[verifier::when_used_as_spec(spec_seconds)]
    pub fn seconds(self) -> (seconds: u64)
        ensures
            seconds == self.spec_seconds(),
    {
        match self {
            TimeUnit::Year => SECS_PER_YEAR,
            TimeUnit::Day => SECS_PER_DAY,
            TimeUnit::Hour => SECS_PER_HOUR,
        }
    }
}

/// Whether `c` is one of the ten decimal digits.
pub open spec fn is_digit(c: char) -> bool {
    '0' <= c <= '9'
}

/// The number that the decimal digit `c` stands for.
pub open spec fn digit_value(c: char) -> nat {
    (c as nat - '0' as nat) as nat
}

/// Whether somewhere in `s` a digit stands directly before `letter`.
pub open spec fn names_unit(s: Seq<char>, letter: char) -> bool {
    exists|i: int| 0 <= i < s.len() - 1 && is_digit(#[trigger] s[i]) && s[i + 1] == letter
}

/// The unit that `s` names. Where it names several, a year goes before a
/// day, and a day before an hour.
pub open spec fn unit_of(s: Seq<char>) -> Option<TimeUnit> {
    if names_unit(s, 'y') {
        Some(TimeUnit::Year)
    } else if names_unit(s, 'd') {
        Some(TimeUnit::Day)
    } else if names_unit(s, 'h') {
        Some(TimeUnit::Hour)
    } else {
        None
    }
}

/// The first place at or behind `from` where `s` holds a digit; the length
/// of `s` where it holds none there.
pub open spec fn digits_start(s: Seq<char>, from: int) -> int
    decreases s.len() - from,
{
    if from >= s.len() {
        s.len() as int
    } else if is_digit(s[from]) {
        from
    } else {
        digits_start(s, from + 1)
    }
}

/// The first place at or behind `from` where `s` holds no digit; the length
/// of `s` where it holds only digits there.
pub open spec fn digits_end(s: Seq<char>, from: int) -> int
    decreases s.len() - from,
{
    if from >= s.len() {
        s.len() as int
    } else if !is_digit(s[from]) {
        from
    } else {
        digits_end(s, from + 1)
    }
}

/// The number that a run of decimal digits writes.
pub open spec fn decimal_value(digits: Seq<char>) -> nat
    decreases digits.len(),
{
    if digits.len() == 0 {
        0
    } else {
        decimal_value(digits.drop_last()) * 10 + digit_value(digits.last())
    }
}

/// The magnitude of `s`: the number that its first run of digits writes.
/// None where `s` holds no digit.
pub open spec fn magnitude(s: Seq<char>) -> Option<nat> {
    let start = digits_start(s, 0);
    if start < s.len() {
        Some(decimal_value(s.subrange(start, digits_end(s, start))))
    } else {
        None
    }
}

/// The magnitude of `s` times `factor`, where `s` has a magnitude and both
/// it and the product fit in 64 bits.
pub open spec fn scaled_magnitude(s: Seq<char>, factor: nat) -> Option<nat> {
    match magnitude(s) {
        Some(m) => if m <= u64::MAX && m * factor <= u64::MAX {
            Some(m * factor)
        } else {
            None
        },
        None => None,
    }
}

/// The seconds that the threshold `s` stands for: its magnitude times the
/// seconds of the unit that it names.
pub open spec fn threshold_seconds(s: Seq<char>) -> Option<nat> {
    match unit_of(s) {
        Some(unit) => scaled_magnitude(s, unit.spec_seconds() as nat),
        None => None,
    }
}

/// An expression without any digit is no threshold; neither is the empty
/// expression.
pub proof fn lemma_rejects_without_digit(s: Seq<char>)
    requires
        forall|i: int| 0 <= i < s.len() ==> !is_digit(#[trigger] s[i]),
    ensures
        threshold_seconds(s) is None,
{
}

/// An expression without any of the letters `y`, `d` and `h` is no
/// threshold.
pub proof fn lemma_rejects_without_unit_letter(s: Seq<char>)
    requires
        forall|i: int| 0 <= i < s.len() ==> #[trigger] s[i] != 'y' && s[i] != 'd' && s[i] != 'h',
    ensures
        threshold_seconds(s) is None,
{
}

/// A run of digits holds no place without a digit before its end.
proof fn lemma_digits_end_of_run(s: Seq<char>, from: int, end: int)
    requires
        0 <= from <= end <= s.len(),
        forall|i: int| from <= i < end ==> is_digit(#[trigger] s[i]),
        end < s.len() ==> !is_digit(s[end]),
    ensures
        digits_end(s, from) == end,
    decreases end - from,
{
    if from < end {
        lemma_digits_end_of_run(s, from + 1, end);
    }
}

/// A magnitude followed by the letter of a unit, and nothing else, stands
/// for the magnitude times the seconds of that unit.
pub proof fn lemma_magnitude_then_unit(digits: Seq<char>, unit: TimeUnit)
    requires
        digits.len() > 0,
        forall|i: int| 0 <= i < digits.len() ==> is_digit(#[trigger] digits[i]),
        decimal_value(digits) * unit.spec_seconds() <= u64::MAX,
    ensures
        threshold_seconds(digits.push(unit.spec_letter())) == Some(
            decimal_value(digits) * unit.spec_seconds() as nat,
        ),
{
    let s = digits.push(unit.spec_letter());
    let last = digits.len() - 1;
    assert(is_digit(s[last]) && s[last + 1] == unit.spec_letter());
    lemma_digits_end_of_run(s, 0, digits.len() as int);
    assert(s.subrange(0, digits.len() as int) =~= digits);
    assert(decimal_value(digits) <= u64::MAX) by (nonlinear_arith)
        requires
            decimal_value(digits) * unit.spec_seconds() <= u64::MAX,
            unit.spec_seconds() >= 1,
    ;
}

fn is_digit_char(c: char) -> (digit: bool)
    ensures
        digit == is_digit(c),
{
    '0' <= c && c <= '9'
}

fn names_unit_in(chars: &Vec<char>, letter: char) -> (named: bool)
    ensures
        named == names_unit(chars@, letter),
{
    let mut i: usize = 1;
    while i < chars.len()
        invariant
            1 <= i,
            forall|j: int|
                0 <= j < i - 1 && j < chars.len() - 1 ==> !(is_digit(#[trigger] chars@[j])
                    && chars@[j + 1] == letter),
        decreases chars.len() - i,
    {
        if is_digit_char(chars[i - 1]) && chars[i] == letter {
            return true;
        }
        i += 1;
    }
    false
}

/// The unit that `expr` names, if it names one.
pub fn time_unit(expr: &str) -> (unit: Option<TimeUnit>)
    ensures
        unit == unit_of(expr@),
{
    let chars = chars_of(expr);
    if names_unit_in(&chars, 'y') {
        Some(TimeUnit::Year)
    } else if names_unit_in(&chars, 'd') {
        Some(TimeUnit::Day)
    } else if names_unit_in(&chars, 'h') {
        Some(TimeUnit::Hour)
    } else {
        None
    }
}

/// The digits that a run starts with write no more than the whole run.
proof fn lemma_decimal_prefix(digits: Seq<char>, k: int)
    requires
        0 <= k <= digits.len(),
    ensures
        decimal_value(digits.take(k)) <= decimal_value(digits),
    decreases digits.len(),
{
    if k < digits.len() {
        lemma_decimal_prefix(digits.drop_last(), k);
        assert(digits.drop_last().take(k) =~= digits.take(k));
    } else {
        assert(digits.take(k) =~= digits);
    }
}

fn find_digits_start(chars: &Vec<char>) -> (start: usize)
    ensures
        start == digits_start(chars@, 0),
        start <= chars.len(),
{
    let mut i: usize = 0;
    while i < chars.len() && !is_digit_char(chars[i])
        invariant
            i <= chars.len(),
            digits_start(chars@, 0) == digits_start(chars@, i as int),
        decreases chars.len() - i,
    {
        i += 1;
    }
    i
}

fn find_digits_end(chars: &Vec<char>, start: usize) -> (end: usize)
    requires
        start <= chars.len(),
    ensures
        end == digits_end(chars@, start as int),
        start <= end <= chars.len(),
        forall|j: int| start <= j < end ==> is_digit(#[trigger] chars@[j]),
{
    let mut i: usize = start;
    while i < chars.len() && is_digit_char(chars[i])
        invariant
            start <= i <= chars.len(),
            digits_end(chars@, start as int) == digits_end(chars@, i as int),
            forall|j: int| start <= j < i ==> is_digit(#[trigger] chars@[j]),
        decreases chars.len() - i,
    {
        i += 1;
    }
    i
}

/// The number that the digits of `chars` from `start` up to `end` write,
/// unless 64 bits do not hold it.
fn parse_digits(chars: &Vec<char>, start: usize, end: usize) -> (value: Option<u64>)
    requires
        start <= end <= chars.len(),
        forall|j: int| start <= j < end ==> is_digit(#[trigger] chars@[j]),
    ensures
        match value {
            Some(v) => v == decimal_value(chars@.subrange(start as int, end as int)),
            None => decimal_value(chars@.subrange(start as int, end as int)) > u64::MAX,
        },
{
    let ghost run = chars@.subrange(start as int, end as int);
    let mut value: u64 = 0;
    let mut i: usize = start;
    while i < end
        invariant
            start <= i <= end <= chars.len(),
            run == chars@.subrange(start as int, end as int),
            forall|j: int| start <= j < end ==> is_digit(#[trigger] chars@[j]),
            value == decimal_value(run.take(i - start)),
        decreases end - i,
    {
        let digit: u64 = (chars[i] as u32 - '0' as u32) as u64;
        proof {
            assert(run.take(i - start + 1).drop_last() =~= run.take(i - start));
            lemma_decimal_prefix(run, i - start + 1);
        }
        let widened = match value.checked_mul(10) {
            Some(tenfold) => tenfold.checked_add(digit),
            None => None,
        };
        match widened {
            Some(next) => {
                value = next;
            },
            None => {
                return None;
            },
        }
        i += 1;
    }
    proof {
        assert(run.take(end - start) =~= run);
    }
    Some(value)
}

/// Reads the magnitude of `time` and multiplies it by `mult_param`, the
/// seconds of one unit. Fails where `time` holds no digit, and where the
/// magnitude or the product is more than 64 bits hold. Whether `time` names
/// a unit, and which, is not asked here: `parse_threshold` asks it first.
fn parse_time_param(time: &str, mult_param: u64) -> (parsed: Result<Span, ParseError>)
    ensures
        match parsed {
            Ok(span) => scaled_magnitude(time@, mult_param as nat) == Some(
                (span@ / 1_000_000_000) as nat,
            ) && span@ % 1_000_000_000 == 0,
            Err(error) => scaled_magnitude(time@, mult_param as nat) is None,
        },
{
    let chars = chars_of(time);
    let start = find_digits_start(&chars);
    if start >= chars.len() {
        return Err(ParseError::InvalidThresholdFormat);
    }
    let end = find_digits_end(&chars, start);
    let scaled = match parse_digits(&chars, start, end) {
        Some(value) => value.checked_mul(mult_param),
        None => None,
    };
    match scaled {
        Some(seconds) => Ok(Span::from_secs(seconds)),
        None => Err(ParseError::InvalidThresholdFormat),
    }
}

/// Reads a threshold: the magnitude of `expr` in the unit that it names.
/// Fails where `expr` names no unit, and where the threshold is more seconds
/// than 64 bits hold.
pub fn parse_threshold(expr: &str) -> (parsed: Result<Span, ParseError>)
    ensures
        match parsed {
            Ok(span) => threshold_seconds(expr@) == Some((span@ / 1_000_000_000) as nat) && span@
                % 1_000_000_000 == 0,
            Err(error) => threshold_seconds(expr@) is None,
        },
{
    match time_unit(expr) {
        Some(unit) => parse_time_param(expr, unit.seconds()),
        None => Err(ParseError::InvalidThresholdFormat),
    }
}

} // verus!
