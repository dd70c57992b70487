//! Parsing and formatting of ISO 8601 timestamps.
//!
//! A [`Timestamp`] stores the raw ISO 8601 string exactly as Discord sent it
//! and re-serializes it verbatim.  The `from_secs` / `from_micros` /
//! `as_secs` / `as_micros` methods convert between Unix time and civil dates
//! with era-based calendar arithmetic, all of it verified here.

use vstd::prelude::*;
use vstd::string::StrSliceExecFns;
use vstd::string::StringExecFns;

use crate::text::{spec_dec_pad, spec_dec_pad_signed, i64_to_dec_pad, u64_to_dec_pad};

verus! {

/// Minimum length of an ISO 8601 datetime without microseconds, e.g.
/// `2021-01-01T01:01:01+00:00`.
pub const MIN_TIMESTAMP_LENGTH: usize = 25;

/// Number of microseconds in a second.
pub const MICROSECONDS_PER_SECOND: i64 = 1_000_000;

// ---------------------------------------------------------------------------
// Errors
// ---------------------------------------------------------------------------

/// Type of [`TimestampParseError`] that occurred.
#[derive(Debug, Clone, Copy, PartialEq, Eq, Structural)]
pub enum TimestampParseErrorType {
    /// Format of the input datetime is invalid.
    Format,
    /// Timestamp parsing failed.
    Parsing,
    /// Value of a field is not in an acceptable range.
    Range,
}

/// Reason that an ISO 8601 timestamp couldn't be parsed.
#[derive(Debug, Clone)]
pub struct TimestampParseError {
    kind: TimestampParseErrorType,
    source: Option<String>,
}

impl TimestampParseError {
    /// Type of error that occurred.
    pub closed spec fn spec_kind(&self) -> TimestampParseErrorType {
        self.kind
    }

    /// Message of the underlying cause, if there is any.
    pub closed spec fn spec_source(&self) -> Option<String> {
        self.source
    }

    /// Error caused by the datetime being of an improper format.
    pub fn format_error() -> (r: Self)
        ensures
            r.spec_kind() == TimestampParseErrorType::Format,
            r.spec_source() is None,
    {
        TimestampParseError { kind: TimestampParseErrorType::Format, source: None }
    }

    /// An error of kind [`TimestampParseErrorType::Parsing`] with a cause.
    pub fn parsing(source: String) -> (r: Self)
        ensures
            r.spec_kind() == TimestampParseErrorType::Parsing,
            r.spec_source() == Some(source),
    {
        TimestampParseError { kind: TimestampParseErrorType::Parsing, source: Some(source) }
    }

    /// An error of kind [`TimestampParseErrorType::Range`] with a cause.
    pub fn range(source: String) -> (r: Self)
        ensures
            r.spec_kind() == TimestampParseErrorType::Range,
            r.spec_source() == Some(source),
    {
        TimestampParseError { kind: TimestampParseErrorType::Range, source: Some(source) }
    }

    /// Immutable reference to the type of error that occurred.
    pub fn kind(&self) -> (r: &TimestampParseErrorType)
        ensures
            *r == self.spec_kind(),
    {
        &self.kind
    }

    /// The message of the source error, if there is any.
    pub fn source(&self) -> (r: Option<&String>)
        ensures
            r matches Some(s) ==> self.spec_source() == Some(*s),
            r is None <==> self.spec_source() is None,
    {
        match &self.source {
            Some(s) => Some(s),
            None => None,
        }
    }

    /// Consume the error, returning the source message if there is any.
    pub fn into_source(self) -> (r: Option<String>)
        ensures
            r == self.spec_source(),
    {
        self.source
    }

    /// Consume the error, returning the owned error type and the source.
    pub fn into_parts(self) -> (r: (TimestampParseErrorType, Option<String>))
        ensures
            r.0 == self.spec_kind(),
            r.1 == self.spec_source(),
    {
        (self.kind, self.source)
    }

    /// The human-readable description of the error kind.
    pub fn message(&self) -> (r: String)
        ensures
            self.spec_kind() == TimestampParseErrorType::Format ==> r@
                == "provided value is not in an iso 8601 format"@,
            self.spec_kind() == TimestampParseErrorType::Parsing ==> r@
                == "timestamp parsing failed"@,
            self.spec_kind() == TimestampParseErrorType::Range ==> r@
                == "value of a field is not in an acceptable range"@,
    {
        match self.kind {
            TimestampParseErrorType::Format => "provided value is not in an iso 8601 format".to_owned(),
            TimestampParseErrorType::Parsing => "timestamp parsing failed".to_owned(),
            TimestampParseErrorType::Range => "value of a field is not in an acceptable range".to_owned(),
        }
    }
}

// ---------------------------------------------------------------------------
// Digit parsing
// ---------------------------------------------------------------------------

/// The numeric value of a decimal digit character.
pub open spec fn spec_digit_val(c: char) -> Option<int> {
    if c == '0' {
        Some(0int)
    } else if c == '1' {
        Some(1int)
    } else if c == '2' {
        Some(2int)
    } else if c == '3' {
        Some(3int)
    } else if c == '4' {
        Some(4int)
    } else if c == '5' {
        Some(5int)
    } else if c == '6' {
        Some(6int)
    } else if c == '7' {
        Some(7int)
    } else if c == '8' {
        Some(8int)
    } else if c == '9' {
        Some(9int)
    } else {
        None
    }
}

pub(crate) fn digit_val(c: char) -> (r: Option<u64>)
    ensures
        r matches Some(v) ==> spec_digit_val(c) == Some(v as int),
        r is None <==> spec_digit_val(c) is None,
{
    match c {
        '0' => Some(0),
        '1' => Some(1),
        '2' => Some(2),
        '3' => Some(3),
        '4' => Some(4),
        '5' => Some(5),
        '6' => Some(6),
        '7' => Some(7),
        '8' => Some(8),
        '9' => Some(9),
        _ => None,
    }
}

/// Ten to the power `k`.
pub open spec fn pow10(k: nat) -> nat
    decreases k,
{
    if k == 0 {
        1
    } else {
        10 * pow10((k - 1) as nat)
    }
}

proof fn lemma_pow10_pos(k: nat)
    ensures
        pow10(k) >= 1,
    decreases k,
{
    if k > 0 {
        lemma_pow10_pos((k - 1) as nat);
    }
}

/// The value of the `len` digits of `s` starting at `start`, or `None` if any
/// of them is not a digit.
pub open spec fn spec_parse_fixed(s: Seq<char>, start: int, len: nat) -> Option<int>
    decreases len,
{
    if len == 0 {
        Some(0int)
    } else {
        match spec_parse_fixed(s, start, (len - 1) as nat) {
            None => None,
            Some(hi) => match spec_digit_val(s[start + len - 1]) {
                None => None,
                Some(d) => Some(hi * 10 + d),
            },
        }
    }
}

pub(crate) proof fn lemma_parse_fixed_bound(s: Seq<char>, start: int, len: nat)
    ensures
        spec_parse_fixed(s, start, len) matches Some(v) ==> 0 <= v < pow10(len),
    decreases len,
{
    if len > 0 {
        lemma_parse_fixed_bound(s, start, (len - 1) as nat);
        lemma_pow10_pos((len - 1) as nat);
    }
}

/// Parse exactly `len` digits of `s` starting at `start`.
pub(crate) fn parse_fixed(s: &str, start: usize, len: usize) -> (r: Option<u64>)
    requires
        start + len <= s@.len(),
        start + len <= usize::MAX,
        len <= 9,
    ensures
        r matches Some(v) ==> spec_parse_fixed(s@, start as int, len as nat) == Some(v as int) && v
            < pow10(len as nat),
        r is None <==> spec_parse_fixed(s@, start as int, len as nat) is None,
{
    let mut acc: u64 = 0;
    for i in 0..len
        invariant
            start + len <= s@.len(),
            start + len <= usize::MAX,
            len <= 9,
            spec_parse_fixed(s@, start as int, i as nat) == Some(acc as int),
            acc < pow10(i as nat),
            acc < 1_000_000_000,
        decreases len - i,
    {
        proof {
            lemma_pow10_mono(i as nat, 8);
            assert(pow10(8) == 100_000_000) by {
                reveal_with_fuel(pow10, 10);
            }
        }
        let c = s.get_char(start + i);
        match digit_val(c) {
            Some(d) => {
                acc = acc * 10 + d;
            },
            None => {
                proof {
                    lemma_parse_fixed_none(s@, start as int, (i + 1) as nat, len as nat);
                }
                return None;
            },
        }
    }
    Some(acc)
}

pub(crate) proof fn lemma_pow10_mono(a: nat, b: nat)
    requires
        a <= b,
    ensures
        pow10(a) <= pow10(b),
    decreases b,
{
    if a < b {
        lemma_pow10_mono(a, (b - 1) as nat);
        lemma_pow10_pos((b - 1) as nat);
    }
}

/// Once a non-digit is hit, every longer fixed-width parse fails too.
proof fn lemma_parse_fixed_none(s: Seq<char>, start: int, bad: nat, len: nat)
    requires
        bad <= len,
        spec_parse_fixed(s, start, bad) is None,
    ensures
        spec_parse_fixed(s, start, len) is None,
    decreases len,
{
    if bad < len {
        lemma_parse_fixed_none(s, start, bad, (len - 1) as nat);
    }
}

/// How many consecutive digit characters follow position `i`.
pub open spec fn spec_frac_len(s: Seq<char>, i: int) -> nat
    decreases s.len() - i when 0 <= i <= s.len()
{
    if i < 0 || i >= s.len() {
        0
    } else if spec_digit_val(s[i]) is None {
        0
    } else {
        1 + spec_frac_len(s, i + 1)
    }
}

/// The fractional-seconds digits starting at `start`, accumulated left to
/// right and rejected as soon as the value exceeds `u32::MAX`, exactly as a
/// `u32` string parse does.
pub open spec fn spec_parse_capped(s: Seq<char>, start: int, len: nat, acc: int) -> Option<int>
    decreases len,
{
    if len == 0 {
        Some(acc)
    } else {
        match spec_digit_val(s[start]) {
            None => None,
            Some(d) => {
                let acc2 = acc * 10 + d;
                if acc2 > u32::MAX {
                    None
                } else {
                    spec_parse_capped(s, start + 1, (len - 1) as nat, acc2)
                }
            },
        }
    }
}

/// Scale a fractional value of `digits` digits to exactly six digits
/// (microseconds).
pub open spec fn spec_normalize_micros(v: int, digits: nat) -> int {
    if digits <= 6 {
        v * pow10((6 - digits) as nat)
    } else {
        v / pow10((digits - 6) as nat) as int
    }
}

// ---------------------------------------------------------------------------
// Civil-calendar arithmetic (era-based)
// ---------------------------------------------------------------------------

/// Days since 1970-01-01 of the civil date `year-month-day`.
pub open spec fn spec_civil_to_days(year: int, month: int, day: int) -> int {
    let y = if month <= 2 {
        year - 1
    } else {
        year
    };
    let m = if month <= 2 {
        month + 9
    } else {
        month - 3
    };
    let era = y / 400;
    let yoe = y % 400;
    let doy = (153 * m + 2) / 5 + day - 1;
    let doe = yoe * 365 + yoe / 4 - yoe / 100 + doy;
    era * 146097 + doe - 719468
}

/// Unix seconds and microseconds parsed from an ISO 8601 string of the shape
/// `YYYY-MM-DDTHH:MM:SS[.ffffff]...`, or `None` when it does not parse.
pub open spec fn spec_parse_unix(s: Seq<char>) -> Option<(int, int)> {
    if s.len() < 25 {
        None
    } else {
        match (spec_parse_fixed(s, 0, 4), spec_parse_fixed(s, 5, 2), spec_parse_fixed(s, 8, 2)) {
            (Some(year), Some(month), Some(day)) => {
                if s[10] != 'T' {
                    None
                } else {
                    match (
                        spec_parse_fixed(s, 11, 2),
                        spec_parse_fixed(s, 14, 2),
                        spec_parse_fixed(s, 17, 2),
                    ) {
                        (Some(hour), Some(minute), Some(second)) => {
                            let micros = if s[19] == '.' {
                                let fl = spec_frac_len(s, 20);
                                if fl == 0 {
                                    None
                                } else {
                                    match spec_parse_capped(s, 20, fl, 0) {
                                        None => None,
                                        Some(v) => Some(spec_normalize_micros(v, fl)),
                                    }
                                }
                            } else {
                                Some(0int)
                            };
                            match micros {
                                None => None,
                                Some(us) => {
                                    let days = spec_civil_to_days(year, month, day);
                                    Some(
                                        (days * 86400 + hour * 3600 + minute * 60 + second, us),
                                    )
                                },
                            }
                        },
                        _ => None,
                    }
                }
            },
            _ => None,
        }
    }
}

// ---------------------------------------------------------------------------
// Euclidean division helpers
// ---------------------------------------------------------------------------

/// Floor division and remainder of `a` by the positive constant `b`, matching
/// the mathematical (Euclidean) `/` and `%`.
fn floor_div_mod(a: i64, b: u64) -> (r: (i64, u64))
    requires
        2 <= b <= 0x7fff_ffff,
    ensures
        r.0 == a as int / b as int,
        r.1 == a as int % b as int,
{
    if a >= 0 {
        let q = (a as u64) / b;
        let rem = (a as u64) % b;
        (q as i64, rem)
    } else {
        // magnitude without overflowing on i64::MIN
        let m: u64 = ((-(a + 1)) as u64) + 1;
        let mq = m / b;
        let mr = m % b;
        proof {
            vstd::arithmetic::div_mod::lemma_fundamental_div_mod(m as int, b as int);
            vstd::arithmetic::div_mod::lemma_div_is_ordered_by_denominator(m as int, 2, b as int);
        }
        if mr == 0 {
            proof {
                assert(a as int == b as int * (-(mq as int)) + 0) by (nonlinear_arith)
                    requires
                        m as int == b as int * mq as int + mr as int,
                        mr == 0,
                        a as int == -(m as int),
                ;
                vstd::arithmetic::div_mod::lemma_fundamental_div_mod_converse(
                    a as int,
                    b as int,
                    -(mq as int),
                    0,
                );
            }
            (-(mq as i64), 0)
        } else {
            proof {
                assert(a as int == b as int * (-(mq as int) - 1) + (b as int - mr as int))
                    by (nonlinear_arith)
                    requires
                        m as int == b as int * mq as int + mr as int,
                        a as int == -(m as int),
                ;
                vstd::arithmetic::div_mod::lemma_fundamental_div_mod_converse(
                    a as int,
                    b as int,
                    -(mq as int) - 1,
                    (b - mr) as int,
                );
            }
            (-(mq as i64) - 1, b - mr)
        }
    }
}

/// The civil date and time of day of a Unix timestamp:
/// `(year, month, day, hour, minute, second)`.
pub open spec fn spec_civil_from_unix(secs: int) -> (int, int, int, int, int, int) {
    let days = secs / 86400;
    let day_secs = secs % 86400;
    let h = day_secs / 3600;
    let mi = day_secs % 3600 / 60;
    let s = day_secs % 60;
    let days2 = days + 719468;
    let era = days2 / 146097;
    let doe = days2 % 146097;
    let yoe = (doe - doe / 1460 + doe / 36524 - doe / 146096) / 365;
    let y = yoe + era * 400;
    let x = 365 * yoe + yoe / 4 - yoe / 100;
    let doy = if x <= doe {
        doe - x
    } else {
        0
    };
    let mp = (5 * doy + 2) / 153;
    let sub = (153 * mp + 2) / 5;
    let d = if sub <= doy {
        doy - sub + 1
    } else {
        1
    };
    let m = if mp < 10 {
        mp + 3
    } else {
        mp - 9
    };
    (if m <= 2 {
        y + 1
    } else {
        y
    }, m, d, h, mi, s)
}

/// Whole eras added to keep the shifted day count nonnegative for every
/// `i64` input.
const ERA_SHIFT: u64 = 1_000_000_000;

/// Convert a Unix timestamp to `(year, month, day, hour, minute, second)`.
pub fn civil_from_unix(unix_secs: i64) -> (r: (i64, u64, u64, u64, u64, u64))
    ensures
        (r.0 as int, r.1 as int, r.2 as int, r.3 as int, r.4 as int, r.5 as int)
            == spec_civil_from_unix(unix_secs as int),
{
    let (days, day_secs) = floor_div_mod(unix_secs, 86400);
    let h = day_secs / 3600;
    let mi = day_secs % 3600 / 60;
    let s = day_secs % 60;

    // Shift by a whole number of 400-year eras so the day count is
    // nonnegative, run the era-based algorithm, and shift the year back.
    let shifted: u64 = ((days + 719468) + 146097 * (ERA_SHIFT as i64)) as u64;
    let ghost days2 = days as int + 719468;
    let era_sh = shifted / 146097;
    let doe = shifted % 146097;
    proof {
        vstd::arithmetic::div_mod::lemma_fundamental_div_mod(days2, 146097);
        vstd::arithmetic::div_mod::lemma_mod_bound(days2, 146097);
        vstd::arithmetic::div_mod::lemma_fundamental_div_mod_converse(
            shifted as int,
            146097,
            days2 / 146097 + ERA_SHIFT as int,
            days2 % 146097,
        );
    }
    let yoe = (doe - doe / 1460 + doe / 36524 - doe / 146096) / 365;
    let y_sh = yoe + era_sh * 400;
    let x = 365 * yoe + yoe / 4 - yoe / 100;
    let doy = if x <= doe {
        doe - x
    } else {
        0
    };
    let mp = (5 * doy + 2) / 153;
    let sub = (153 * mp + 2) / 5;
    let d = if sub <= doy {
        doy - sub + 1
    } else {
        1
    };
    let m = if mp < 10 {
        mp + 3
    } else {
        mp - 9
    };
    let y = (y_sh as i64) - 400 * (ERA_SHIFT as i64);
    let year = if m <= 2 {
        y + 1
    } else {
        y
    };
    (year, m, d, h, mi, s)
}

// ---------------------------------------------------------------------------
// Formatting
// ---------------------------------------------------------------------------

/// The ISO 8601 rendering of a Unix timestamp with microseconds:
/// `YYYY-MM-DDTHH:MM:SS.ffffff+00:00`.
pub open spec fn spec_format_unix(secs: int, micros: int) -> Seq<char> {
    let c = spec_civil_from_unix(secs);
    spec_dec_pad_signed(c.0, 4) + "-"@ + spec_dec_pad(c.1 as nat, 2) + "-"@ + spec_dec_pad(
        c.2 as nat,
        2,
    ) + "T"@ + spec_dec_pad(c.3 as nat, 2) + ":"@ + spec_dec_pad(c.4 as nat, 2) + ":"@
        + spec_dec_pad(c.5 as nat, 2) + "."@ + spec_dec_pad(micros as nat, 6) + "+00:00"@
}

/// Format a Unix timestamp (seconds and microseconds) as an ISO 8601 string
/// in UTC.
pub fn format_unix_secs(unix_secs: i64, micros: u32) -> (r: String)
    ensures
        r@ == spec_format_unix(unix_secs as int, micros as int),
{
    let (y, m, d, h, mi, s) = civil_from_unix(unix_secs);
    let mut out = i64_to_dec_pad(y, 4);
    out.append("-");
    out.append(u64_to_dec_pad(m, 2).as_str());
    out.append("-");
    out.append(u64_to_dec_pad(d, 2).as_str());
    out.append("T");
    out.append(u64_to_dec_pad(h, 2).as_str());
    out.append(":");
    out.append(u64_to_dec_pad(mi, 2).as_str());
    out.append(":");
    out.append(u64_to_dec_pad(s, 2).as_str());
    out.append(".");
    out.append(u64_to_dec_pad(micros as u64, 6).as_str());
    out.append("+00:00");
    proof {
        assert(out@ =~= spec_format_unix(unix_secs as int, micros as int));
    }
    out
}

// ---------------------------------------------------------------------------
// Parsing to Unix time
// ---------------------------------------------------------------------------

/// Parse an ISO 8601 string to Unix seconds (UTC only).
pub fn parse_to_unix_secs(input: &str) -> (r: Option<i64>)
    ensures
        r matches Some(v) ==> spec_parse_unix(input@) matches Some(p) && p.0 == v,
        r is None <==> spec_parse_unix(input@) is None,
{
    match parse_to_unix_secs_and_micros(input) {
        Some((secs, _)) => Some(secs),
        None => None,
    }
}

/// Parse an ISO 8601 string to `(Unix seconds, microseconds)`.
pub fn parse_to_unix_secs_and_micros(input: &str) -> (r: Option<(i64, u32)>)
    ensures
        r matches Some(v) ==> spec_parse_unix(input@) == Some((v.0 as int, v.1 as int)),
        r is None <==> spec_parse_unix(input@) is None,
        r matches Some(v) ==> -1_000_000_000_000 < v.0 < 1_000_000_000_000 && v.1 < 1_000_000,
{
    let n = input.unicode_len();
    if n < 25 {
        return None;
    }
    let year = match parse_fixed(input, 0, 4) {
        Some(v) => v,
        None => {
            return None;
        },
    };
    let month = match parse_fixed(input, 5, 2) {
        Some(v) => v,
        None => {
            return None;
        },
    };
    let day = match parse_fixed(input, 8, 2) {
        Some(v) => v,
        None => {
            return None;
        },
    };
    if input.get_char(10) != 'T' {
        return None;
    }
    let hour = match parse_fixed(input, 11, 2) {
        Some(v) => v,
        None => {
            return None;
        },
    };
    let minute = match parse_fixed(input, 14, 2) {
        Some(v) => v,
        None => {
            return None;
        },
    };
    let second = match parse_fixed(input, 17, 2) {
        Some(v) => v,
        None => {
            return None;
        },
    };
    let micros: u32 = if input.get_char(19) == '.' {
        match parse_fraction(input) {
            Some(us) => us,
            None => {
                return None;
            },
        }
    } else {
        0
    };

    // Civil date to days since the epoch; all quantities are small since the
    // fields have at most four digits.
    proof {
        assert(pow10(4) == 10000 && pow10(2) == 100) by {
            reveal_with_fuel(pow10, 5);
        }
    }
    let (y, m): (i64, u64) = if month <= 2 {
        (year as i64 - 1, month + 9)
    } else {
        (year as i64, month - 3)
    };
    let (era, yoe) = floor_div_mod(y, 400);
    proof {
        vstd::arithmetic::div_mod::lemma_div_is_ordered(-1, y as int, 400);
        vstd::arithmetic::div_mod::lemma_div_is_ordered(y as int, 9999, 400);
        vstd::arithmetic::div_mod::lemma_fundamental_div_mod_converse(-1, 400, -1, 399);
        vstd::arithmetic::div_mod::lemma_fundamental_div_mod_converse(9999, 400, 24, 399);
        vstd::arithmetic::div_mod::lemma_mod_bound(y as int, 400);
    }
    let doy = ((153 * m + 2) / 5) as i64 + day as i64 - 1;
    let doe = (yoe as i64) * 365 + ((yoe / 4) as i64) - ((yoe / 100) as i64) + doy;
    let days = era * 146097 + doe - 719468;
    let secs = days * 86400 + hour as i64 * 3600 + minute as i64 * 60 + second as i64;
    Some((secs, micros))
}

/// Parse the fractional-second digits that follow the `.` at position 19,
/// normalized to microseconds.  An empty digit run fails, as an empty string
/// does not parse as a number.
fn parse_fraction(input: &str) -> (r: Option<u32>)
    requires
        input@.len() >= 25,
    ensures
        spec_frac_len(input@, 20) == 0 ==> r is None,
        spec_frac_len(input@, 20) > 0 ==> {
            &&& r matches Some(us) ==> (spec_parse_capped(
                input@,
                20,
                spec_frac_len(input@, 20),
                0,
            ) matches Some(v) && us == spec_normalize_micros(v, spec_frac_len(input@, 20)) && us
                < 1_000_000)
            &&& (r is None <==> spec_parse_capped(
                input@,
                20,
                spec_frac_len(input@, 20),
                0,
            ) is None)
        },
{
    let n = input.unicode_len();
    // Find the end of the digit run.
    let mut end: usize = 20;
    loop
        invariant_except_break
            20 <= end <= n,
            n == input@.len(),
            forall|k: int| 20 <= k < end ==> spec_digit_val(input@[k]) is Some,
            spec_frac_len(input@, 20) == end - 20 + spec_frac_len(input@, end as int),
        ensures
            20 <= end <= n,
            n == input@.len(),
            forall|k: int| 20 <= k < end ==> spec_digit_val(input@[k]) is Some,
            spec_frac_len(input@, 20) == end - 20,
        decreases n - end,
    {
        if end >= n {
            break;
        }
        let c = input.get_char(end);
        match digit_val(c) {
            Some(_) => {
                end = end + 1;
            },
            None => {
                break;
            },
        }
    }
    let digits = end - 20;
    if digits == 0 {
        // A dot followed by no digits: the empty string does not parse.
        return None;
    }
    let ghost fl = spec_frac_len(input@, 20);
    // Accumulate left to right, failing on u32 overflow as a u32 parse does.
    let mut acc: u64 = 0;
    let mut i: usize = 20;
    while i < end
        invariant
            20 <= i <= end <= n,
            n == input@.len(),
            acc <= u32::MAX,
            spec_frac_len(input@, 20) == end - 20,
            forall|k: int| 20 <= k < end ==> spec_digit_val(input@[k]) is Some,
            spec_parse_capped(input@, 20, (end - 20) as nat, 0) == spec_parse_capped(
                input@,
                i as int,
                (end - i) as nat,
                acc as int,
            ),
        decreases end - i,
    {
        let c = input.get_char(i);
        let d = match digit_val(c) {
            Some(d) => d,
            None => {
                proof {
                    assert(spec_digit_val(input@[i as int]) is Some);
                    assert(false);
                }
                return None;
            },
        };
        let acc2 = acc * 10 + d;
        if acc2 > u32::MAX as u64 {
            proof {
                assert(spec_parse_capped(input@, i as int, (end - i) as nat, acc as int) is None);
                assert(spec_frac_len(input@, 20) == end - 20);
                assert(spec_parse_capped(input@, 20, spec_frac_len(input@, 20), 0) is None);
            }
            return None;
        }
        acc = acc2;
        i = i + 1;
    }
    let ghost v = spec_parse_capped(input@, 20, (end - 20) as nat, 0)->Some_0;
    proof {
        lemma_capped_bound(input@, 20, (end - 20) as nat, 0);
        lemma_capped_digit_bound(input@, 20, (end - 20) as nat, 0);
        assert(acc as int == v);
    }
    // Normalize to six digits.
    let mut val = acc as u32;
    if digits <= 6 {
        let mut k = digits;
        proof {
            assert(v * pow10(0) == v * 1);
            assert((0 + 1) * pow10(digits as nat) == pow10(digits as nat));
        }
        while k < 6
            invariant
                1 <= digits <= k <= 6,
                val as int == v * pow10((k - digits) as nat) as int,
                val < pow10(k as nat),
                v >= 0,
            decreases 6 - k,
        {
            proof {
                lemma_pow10_mono(k as nat, 5);
                assert(pow10(5) == 100_000) by {
                    reveal_with_fuel(pow10, 7);
                }
                let p = pow10((k - digits) as nat) as int;
                assert((v * p) * 10 == v * (10 * p)) by (nonlinear_arith);
            }
            val = val * 10;
            k = k + 1;
        }
        proof {
            assert(pow10(6) == 1_000_000) by {
                reveal_with_fuel(pow10, 7);
            }
        }
        Some(val)
    } else {
        let mut k = digits;
        proof {
            vstd::arithmetic::div_mod::lemma_div_basics(v);
        }
        while k > 6
            invariant
                6 <= k <= digits,
                val as int == v / pow10((digits - k) as nat) as int,
                v >= 0,
                digits == end - 20,
            decreases k,
        {
            proof {
                lemma_pow10_pos((digits - k) as nat);
                lemma_div_chain(v, pow10((digits - k) as nat));
            }
            val = val / 10;
            k = k - 1;
        }
        proof {
            assert(pow10(6) == 1_000_000) by {
                reveal_with_fuel(pow10, 7);
            }
            lemma_pow10_add((digits - 6) as nat, 6);
            lemma_pow10_pos((digits - 6) as nat);
            vstd::arithmetic::div_mod::lemma_multiply_divide_lt(
                v,
                pow10((digits - 6) as nat) as int,
                1_000_000,
            );
        }
        Some(val)
    }
}

/// The product of two powers of ten is the power of ten of the sum.
proof fn lemma_pow10_add(a: nat, b: nat)
    ensures
        pow10(a) * pow10(b) == pow10((a + b) as nat),
    decreases a,
{
    if a == 0 {
        assert(1 * pow10(b) == pow10(b));
    } else {
        lemma_pow10_add((a - 1) as nat, b);
        let x = pow10((a - 1) as nat) as int;
        let y = pow10(b) as int;
        assert((10 * x) * y == 10 * (x * y)) by (nonlinear_arith);
    }
}

/// The value of a capped digit parse of `len` digits starting from `acc` is
/// below `(acc + 1) * 10^len`.
proof fn lemma_capped_digit_bound(s: Seq<char>, start: int, len: nat, acc: int)
    requires
        acc >= 0,
    ensures
        spec_parse_capped(s, start, len, acc) matches Some(v) ==> v < (acc + 1) * pow10(len),
    decreases len,
{
    if len == 0 {
        assert((acc + 1) * 1 == acc + 1);
    } else {
        match spec_digit_val(s[start]) {
            Some(d) => {
                let acc2 = acc * 10 + d;
                if acc2 <= u32::MAX {
                    lemma_capped_digit_bound(s, start + 1, (len - 1) as nat, acc2);
                    let p = pow10((len - 1) as nat) as int;
                    lemma_pow10_pos((len - 1) as nat);
                    vstd::arithmetic::mul::lemma_mul_inequality(acc2 + 1, (acc + 1) * 10, p);
                    assert(((acc + 1) * 10) * p == (acc + 1) * (10 * p)) by (nonlinear_arith);
                }
            },
            None => {},
        }
    }
}

/// A capped digit parse never exceeds `u32::MAX` and never goes negative.
proof fn lemma_capped_bound(s: Seq<char>, start: int, len: nat, acc: int)
    requires
        0 <= acc <= u32::MAX,
    ensures
        spec_parse_capped(s, start, len, acc) matches Some(v) ==> 0 <= v <= u32::MAX && acc <= v,
    decreases len,
{
    if len > 0 {
        match spec_digit_val(s[start]) {
            Some(d) => {
                let acc2 = acc * 10 + d;
                if acc2 <= u32::MAX {
                    lemma_capped_bound(s, start + 1, (len - 1) as nat, acc2);
                }
            },
            None => {},
        }
    }
}

/// Dividing by ten steps one level down a power-of-ten chain.
proof fn lemma_div_chain(v: int, p: nat)
    requires
        v >= 0,
        p >= 1,
    ensures
        v / p as int / 10 == v / (10 * p) as int,
{
    vstd::arithmetic::div_mod::lemma_div_denominator(v, p as int, 10);
}

// ---------------------------------------------------------------------------
// Timestamp
// ---------------------------------------------------------------------------

/// A string is accepted as a timestamp when it is long enough and carries the
/// `T` date/time separator.
pub open spec fn valid_timestamp(s: Seq<char>) -> bool {
    s.len() >= 25 && exists|i: int| 0 <= i < s.len() && s[i] == 'T'
}

/// Representation of a Discord timestamp as an ISO 8601 string.
///
/// Stores the raw ISO 8601 string exactly as Discord sent it and
/// re-serializes it verbatim.
#[derive(Debug, Clone, PartialEq, Eq, Hash, PartialOrd, Ord)]
pub struct Timestamp {
    raw: String,
}

impl View for Timestamp {
    type V = Seq<char>;

    closed spec fn view(&self) -> Seq<char> {
        self.raw@
    }
}

impl Timestamp {
    /// Parse a timestamp from an ISO 8601 datetime string emitted by Discord,
    /// with or without microseconds.  The validation is deliberately loose:
    /// the string must be long enough and contain the `T` separator.
    pub fn parse(datetime: &str) -> (r: Result<Timestamp, TimestampParseError>)
        ensures
            r is Ok <==> valid_timestamp(datetime@),
            r matches Ok(t) ==> t@ == datetime@,
            r matches Err(e) ==> e.spec_kind() == TimestampParseErrorType::Format
                && e.spec_source() is None,
    {
        let n = datetime.unicode_len();
        if n < MIN_TIMESTAMP_LENGTH {
            return Err(TimestampParseError::format_error());
        }
        let mut has_t = false;
        for i in 0..n
            invariant
                n == datetime@.len(),
                has_t <==> exists|k: int| 0 <= k < i && datetime@[k] == 'T',
        {
            if datetime.get_char(i) == 'T' {
                has_t = true;
            }
        }
        if has_t {
            Ok(Timestamp { raw: datetime.to_owned() })
        } else {
            Err(TimestampParseError::format_error())
        }
    }

    /// Create a `Timestamp` from a raw string without validation.  Prefer
    /// [`parse`](Self::parse) for untrusted input.
    pub fn from_raw(s: &str) -> (r: Self)
        ensures
            r@ == s@,
    {
        Timestamp { raw: s.to_owned() }
    }

    /// Create a timestamp from a Unix timestamp with seconds precision,
    /// formatted as an ISO 8601 string in UTC.
    pub fn from_secs(unix_seconds: i64) -> (r: Result<Timestamp, TimestampParseError>)
        ensures
            r matches Ok(t) && t@ == spec_format_unix(unix_seconds as int, 0),
    {
        Ok(Timestamp { raw: format_unix_secs(unix_seconds, 0) })
    }

    /// Create a timestamp from a Unix timestamp with microseconds precision.
    /// The seconds part is the quotient rounded toward zero; the fractional
    /// part is the magnitude of the remainder.
    pub fn from_micros(unix_microseconds: i64) -> (r: Result<Timestamp, TimestampParseError>)
        ensures
            r matches Ok(t) && t@ == (if unix_microseconds >= 0 {
                spec_format_unix(
                    unix_microseconds as int / 1_000_000,
                    unix_microseconds as int % 1_000_000,
                )
            } else {
                spec_format_unix(
                    -((-unix_microseconds) / 1_000_000),
                    (-unix_microseconds) % 1_000_000,
                )
            }),
    {
        if unix_microseconds >= 0 {
            let u = unix_microseconds as u64;
            let secs = (u / 1_000_000) as i64;
            let micros = (u % 1_000_000) as u32;
            Ok(Timestamp { raw: format_unix_secs(secs, micros) })
        } else {
            let m: u64 = ((-(unix_microseconds + 1)) as u64) + 1;
            let secs = -((m / 1_000_000) as i64);
            let micros = (m % 1_000_000) as u32;
            Ok(Timestamp { raw: format_unix_secs(secs, micros) })
        }
    }

    /// Total number of seconds within the timestamp.  Returns `0` if the
    /// stored string does not parse.
    pub fn as_secs(&self) -> (r: i64)
        ensures
            spec_parse_unix(self@) matches Some(p) ==> r == p.0,
            spec_parse_unix(self@) is None ==> r == 0,
    {
        match parse_to_unix_secs(self.raw.as_str()) {
            Some(v) => v,
            None => 0,
        }
    }

    /// Total number of microseconds within the timestamp.  Returns `0` if the
    /// stored string does not parse.
    pub fn as_micros(&self) -> (r: i64)
        ensures
            spec_parse_unix(self@) matches Some(p) ==> r == p.0 * 1_000_000 + p.1,
            spec_parse_unix(self@) is None ==> r == 0,
    {
        match parse_to_unix_secs_and_micros(self.raw.as_str()) {
            Some((secs, micros)) => secs * 1_000_000 + micros as i64,
            None => 0,
        }
    }

    /// View the timestamp as a string slice.
    pub fn as_str(&self) -> (r: &str)
        ensures
            r@ == self@,
    {
        self.raw.as_str()
    }

    /// Consume the timestamp and return the inner string.
    pub fn into_string(self) -> (r: String)
        ensures
            r@ == self@,
    {
        self.raw
    }

    /// Create an ISO 8601 display wrapper.
    pub fn iso_8601(&self) -> (r: TimestampIso8601Display<'_>)
        ensures
            r.inner@ == self@,
    {
        TimestampIso8601Display { inner: self }
    }
}

/// Display wrapper returned by [`Timestamp::iso_8601`]; it renders the stored
/// string as-is.
#[derive(Debug)]
pub struct TimestampIso8601Display<'a> {
    pub inner: &'a Timestamp,
}

impl<'a> TimestampIso8601Display<'a> {
    /// Create a new display wrapper.
    pub fn new(timestamp: &'a Timestamp) -> (r: Self)
        ensures
            r.inner@ == timestamp@,
    {
        TimestampIso8601Display { inner: timestamp }
    }

    /// Get the inner timestamp reference.
    pub fn get(&self) -> (r: &'a Timestamp)
        ensures
            r@ == self.inner@,
    {
        self.inner
    }

    /// Whether to include microseconds in the output.  The stored string is
    /// always rendered as-is, so this is kept only for API compatibility.
    pub fn with_microseconds(self, with_microseconds: bool) -> (r: Self)
        ensures
            r.inner@ == self.inner@,
    {
        let _ = with_microseconds;
        self
    }
}

} // verus!
