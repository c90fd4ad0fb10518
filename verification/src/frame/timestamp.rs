//! GB26875 time label: six bytes, second, minute, hour, day, month, year
//! (two-digit year counted from 2000).
use crate::error::{ParseError, ParseResult};
use crate::text::{decimal_text, push_char, push_decimal, push_zero_padded, zero_padded};
use vstd::prelude::*;
use vstd::string::StringExecFns;

verus! {

/// Six-byte time label.
#[derive(Debug, Clone, Copy, PartialEq, Eq, Hash, Structural)]
pub struct Timestamp {
    /// second (0-59)
    pub second: u8,
    /// minute (0-59)
    pub minute: u8,
    /// hour (0-23)
    pub hour: u8,
    /// day (1-31)
    pub day: u8,
    /// month (1-12)
    pub month: u8,
    /// year (0-99, meaning 2000-2099)
    pub year: u8,
}

/// The first field out of range, with its name and value, checking in the
/// order second, minute, hour, day, month, year.
pub open spec fn first_invalid_field(second: u8, minute: u8, hour: u8, day: u8, month: u8, year: u8) -> Option<(Seq<char>, u8)> {
    if second > 59 {
        Some(("second"@, second))
    } else if minute > 59 {
        Some(("minute"@, minute))
    } else if hour > 23 {
        Some(("hour"@, hour))
    } else if day == 0 || day > 31 {
        Some(("day"@, day))
    } else if month == 0 || month > 12 {
        Some(("month"@, month))
    } else if year > 99 {
        Some(("year"@, year))
    } else {
        None
    }
}

/// Timestamp made of the first six bytes of `b`.
pub open spec fn timestamp_of_bytes(b: Seq<u8>) -> Timestamp {
    Timestamp { second: b[0], minute: b[1], hour: b[2], day: b[3], month: b[4], year: b[5] }
}

/// Whether the first six bytes of `b` form a valid time label.
pub open spec fn bytes_are_valid_timestamp(b: Seq<u8>) -> bool {
    b.len() >= 6 && timestamp_of_bytes(b).spec_is_valid()
}

/// The outcome of reading a time label from `b`, as a field-level
/// statement: `Ok(t)` exactly when the bytes hold a valid label `t`.
pub open spec fn timestamp_parse_ok(b: Seq<u8>, r: ParseResult<Timestamp>) -> bool {
    &&& r is Ok <==> bytes_are_valid_timestamp(b)
    &&& r matches Ok(t) ==> t == timestamp_of_bytes(b)
    &&& b.len() < 6 ==> (r matches Err(ParseError::TooShort { actual, expected }) && actual == b.len()
        && expected == 6)
    &&& b.len() >= 6 && !bytes_are_valid_timestamp(b) ==> (r matches Err(e)
        && timestamp_error_of(b, e))
}

/// The error for an invalid time label in the first six bytes of `b`: the
/// first field out of range and its value.
pub open spec fn timestamp_error_of(b: Seq<u8>, e: ParseError) -> bool {
    e matches ParseError::InvalidTimestamp { field, value } && Some((field@, value))
        == first_invalid_field(b[0], b[1], b[2], b[3], b[4], b[5])
}

pub open spec fn is_leap(y: int) -> bool {
    y % 4 == 0 && (y % 100 != 0 || y % 400 == 0)
}

pub open spec fn days_in_year(y: int) -> nat {
    if is_leap(y) {
        366
    } else {
        365
    }
}

/// Days from 1970-01-01 to the first day of year `y`.
pub open spec fn days_before_year(y: int) -> nat
    decreases y - 1970,
{
    if y <= 1970 {
        0
    } else {
        days_before_year(y - 1) + days_in_year(y - 1)
    }
}

/// Month lengths of a year.
pub open spec fn month_lengths(leap: bool) -> Seq<nat> {
    seq![31, if leap { 29 } else { 28 }, 31, 30, 31, 30, 31, 31, 30, 31, 30, 31]
}

/// Days in the first `k` months of a year.
pub open spec fn days_before_month(leap: bool, k: nat) -> nat
    decreases k,
{
    if k == 0 || k > 12 {
        0
    } else {
        days_before_month(leap, (k - 1) as nat) + month_lengths(leap)[k - 1]
    }
}

/// Seconds since 1970-01-01 00:00:00 of a valid time label.
pub open spec fn unix_seconds(t: Timestamp) -> nat {
    let y = 2000 + t.year;
    let days = days_before_year(y) + days_before_month(is_leap(y), (t.month - 1) as nat) + (t.day
        - 1);
    (days * 86400 + t.hour * 3600 + t.minute * 60 + t.second) as nat
}

/// Splits a day count into whole years from `y` on and the remaining days.
pub open spec fn year_split(y: nat, rem: nat) -> (nat, nat)
    decreases rem,
{
    if rem >= days_in_year(y as int) {
        year_split(y + 1, (rem - days_in_year(y as int)) as nat)
    } else {
        (y, rem)
    }
}

/// Splits the days into a year into whole months from month index `k` on and
/// the remaining days.
pub open spec fn month_split(leap: bool, k: nat, rem: nat) -> (nat, nat)
    decreases 12 - k,
{
    if k < 12 && rem >= month_lengths(leap)[k as int] {
        month_split(leap, k + 1, (rem - month_lengths(leap)[k as int]) as nat)
    } else {
        (k, rem)
    }
}

/// The time label of a count of seconds since 1970-01-01 00:00:00.
pub open spec fn timestamp_of_unix(ts: nat) -> Timestamp {
    let days = ts / 86400;
    let secs = ts % 86400;
    let (y, rem) = year_split(1970, days);
    let (k, drem) = month_split(is_leap(y as int), 0, rem);
    Timestamp {
        second: (secs % 60) as u8,
        minute: ((secs % 3600) / 60) as u8,
        hour: (secs / 3600) as u8,
        day: (drem + 1) as u8,
        month: (k + 1) as u8,
        year: (y % 100) as u8,
    }
}

/// Text form `YYYY-MM-DD hh:mm:ss`.
pub open spec fn timestamp_text(t: Timestamp) -> Seq<char> {
    zero_padded(t.spec_full_year() as nat, 4) + seq!['-'] + zero_padded(t.month as nat, 2) + seq![
        '-',
    ] + zero_padded(t.day as nat, 2) + seq![' '] + zero_padded(t.hour as nat, 2) + seq![':']
        + zero_padded(t.minute as nat, 2) + seq![':'] + zero_padded(t.second as nat, 2)
}

/// Seconds since the Unix epoch according to the system clock.
///
/// Calls `std::time::SystemTime::elapsed` on `UNIX_EPOCH`, which reads the
/// system clock, and gives the whole seconds (zero if the clock stands
/// before the epoch). The value depends on the clock, so nothing is stated
/// of it.
#[verifier::external_body]
pub(crate) fn system_unix_seconds() -> u64 {
    match std::time::UNIX_EPOCH.elapsed() {
        Ok(d) => d.as_secs(),
        Err(_) => 0,
    }
}

/// Debug rendering of a time label: its field names and decimal values.
pub open spec fn timestamp_debug_text(t: Timestamp) -> Seq<char> {
    "Timestamp { second: "@ + decimal_text(t.second as nat) + ", minute: "@ + decimal_text(
        t.minute as nat,
    ) + ", hour: "@ + decimal_text(t.hour as nat) + ", day: "@ + decimal_text(t.day as nat)
        + ", month: "@ + decimal_text(t.month as nat) + ", year: "@ + decimal_text(t.year as nat)
        + " }"@
}

impl Timestamp {
    pub open spec fn spec_is_valid(self) -> bool {
        first_invalid_field(self.second, self.minute, self.hour, self.day, self.month, self.year)
            is None
    }

    pub open spec fn spec_bytes(self) -> Seq<u8> {
        seq![self.second, self.minute, self.hour, self.day, self.month, self.year]
    }

    pub open spec fn spec_full_year(self) -> u16 {
        (2000 + self.year) as u16
    }

    /// Creates a time label, checking each field's range.
    pub fn new(second: u8, minute: u8, hour: u8, day: u8, month: u8, year: u8) -> (r: ParseResult<Self>)
        ensures
            r is Ok <==> first_invalid_field(second, minute, hour, day, month, year) is None,
            r matches Ok(t) ==> t == (Timestamp { second, minute, hour, day, month, year }),
            r matches Err(e) ==> e matches ParseError::InvalidTimestamp { field, value } && Some(
                (field@, value),
            ) == first_invalid_field(second, minute, hour, day, month, year),
    {
        if second > 59 {
            return Err(ParseError::InvalidTimestamp { field: "second".to_owned(), value: second });
        }
        if minute > 59 {
            return Err(ParseError::InvalidTimestamp { field: "minute".to_owned(), value: minute });
        }
        if hour > 23 {
            return Err(ParseError::InvalidTimestamp { field: "hour".to_owned(), value: hour });
        }
        if day == 0 || day > 31 {
            return Err(ParseError::InvalidTimestamp { field: "day".to_owned(), value: day });
        }
        if month == 0 || month > 12 {
            return Err(ParseError::InvalidTimestamp { field: "month".to_owned(), value: month });
        }
        if year > 99 {
            return Err(ParseError::InvalidTimestamp { field: "year".to_owned(), value: year });
        }
        Ok(Self { second, minute, hour, day, month, year })
    }

    /// Reads a time label from the first six bytes.
    pub fn from_bytes(bytes: &[u8]) -> (r: ParseResult<Self>)
        ensures
            timestamp_parse_ok(bytes@, r),
    {
        if bytes.len() < 6 {
            return Err(ParseError::TooShort { actual: bytes.len(), expected: 6 });
        }
        Self::new(bytes[0], bytes[1], bytes[2], bytes[3], bytes[4], bytes[5])
    }

    /// The six wire bytes.
    pub fn to_bytes(&self) -> (r: [u8; 6])
        ensures
            r@ == self.spec_bytes(),
    {
        [self.second, self.minute, self.hour, self.day, self.month, self.year]
    }

    /// The six wire bytes as a vector.
    pub fn encode(&self) -> (r: Vec<u8>)
        ensures
            r@ == self.spec_bytes(),
    {
        let b = self.to_bytes();
        let mut v: Vec<u8> = Vec::with_capacity(6);
        v.push(b[0]);
        v.push(b[1]);
        v.push(b[2]);
        v.push(b[3]);
        v.push(b[4]);
        v.push(b[5]);
        proof {
            assert(v@ =~= self.spec_bytes());
        }
        v
    }

    /// Reads a time label from bytes (same as `from_bytes`).
    pub fn parse(data: &[u8]) -> (r: ParseResult<Self>)
        ensures
            timestamp_parse_ok(data@, r),
    {
        Self::from_bytes(data)
    }

    /// The full year, 2000 + two-digit year.
    pub fn full_year(&self) -> (r: u16)
        ensures
            r == self.spec_full_year(),
            r == 2000 + self.year,
    {
        2000 + self.year as u16
    }

    /// Whether every field is in range.
    pub fn is_valid(&self) -> (r: bool)
        ensures
            r == self.spec_is_valid(),
    {
        self.second <= 59 && self.minute <= 59 && self.hour <= 23 && self.day >= 1 && self.day
            <= 31 && self.month >= 1 && self.month <= 12 && self.year <= 99
    }

    /// Seconds since 1970-01-01 00:00:00 (the label read as UTC); `None` for
    /// an invalid label.
    pub fn to_unix_timestamp(&self) -> (r: Option<u64>)
        ensures
            r is Some <==> self.spec_is_valid(),
            r matches Some(v) ==> v == unix_seconds(*self),
    {
        if !self.is_valid() {
            return None;
        }
        let year: u64 = self.full_year() as u64;
        let mut timestamp: u64 = 0;
        let mut y: u64 = 1970;
        while y < year
            invariant
                1970 <= y <= year,
                year <= 2099,
                timestamp == days_before_year(y as int),
                timestamp <= 366 * (y - 1970),
            decreases year - y,
        {
            let is_leap = y % 4 == 0 && (y % 100 != 0 || y % 400 == 0);
            timestamp = timestamp + if is_leap {
                366
            } else {
                365
            };
            y = y + 1;
        }
        let is_leap = year % 4 == 0 && (year % 100 != 0 || year % 400 == 0);
        let days_in_month: [u64; 12] = [
            31,
            if is_leap {
                29
            } else {
                28
            },
            31,
            30,
            31,
            30,
            31,
            31,
            30,
            31,
            30,
            31,
        ];
        proof {
            assert(days_in_month@ =~= month_lengths(is_leap).map_values(|n: nat| n as u64));
        }
        let ghost base = timestamp;
        let mut month: u8 = 1;
        while month < self.month
            invariant
                1 <= month <= self.month <= 12,
                days_in_month@ =~= month_lengths(is_leap).map_values(|n: nat| n as u64),
                timestamp == base + days_before_month(is_leap, (month - 1) as nat),
                base <= 366 * 129,
                days_before_month(is_leap, (month - 1) as nat) <= 31 * (month - 1),
            decreases self.month - month,
        {
            timestamp = timestamp + days_in_month[(month - 1) as usize];
            month = month + 1;
        }
        timestamp = timestamp + (self.day - 1) as u64;
        timestamp = timestamp * 24 * 60 * 60;
        timestamp = timestamp + self.hour as u64 * 3600;
        timestamp = timestamp + self.minute as u64 * 60;
        timestamp = timestamp + self.second as u64;
        Some(timestamp)
    }

    /// The time label of a Unix time (seconds since 1970-01-01 00:00:00).
    pub fn from_unix_timestamp(timestamp: u64) -> (r: Self)
        ensures
            r == timestamp_of_unix(timestamp as nat),
            r.spec_is_valid(),
    {
        let days: u64 = timestamp / 86400;
        let seconds_in_day: u64 = timestamp % 86400;
        let hour = (seconds_in_day / 3600) as u8;
        let minute = ((seconds_in_day % 3600) / 60) as u8;
        let second = (seconds_in_day % 60) as u8;
        let mut year: u64 = 1970;
        let mut remaining_days: u64 = days;
        while remaining_days >= 365
            invariant
                year_split(year as nat, remaining_days as nat) == year_split(1970, days as nat),
                1970 <= year <= 1970 + days,
                year - 1970 + remaining_days <= days,
                days <= 0xFFFF_FFFF_FFFF_FFFFu64 / 86400,
            ensures
                year_split(year as nat, remaining_days as nat) == year_split(1970, days as nat),
                remaining_days < days_in_year(year as int),
            decreases remaining_days,
        {
            let is_leap = year % 4 == 0 && (year % 100 != 0 || year % 400 == 0);
            let days_in_year: u64 = if is_leap {
                366
            } else {
                365
            };
            if remaining_days >= days_in_year {
                remaining_days = remaining_days - days_in_year;
                year = year + 1;
            } else {
                break;
            }
        }
        let ghost y = year;
        let ghost rem0 = remaining_days;
        proof {
            assert(year_split(year as nat, remaining_days as nat) == (year as nat, remaining_days as nat));
            assert(remaining_days < days_in_year(year as int));
        }
        let leap = year % 4 == 0 && (year % 100 != 0 || year % 400 == 0);
        let days_in_month: [u64; 12] = [
            31,
            if leap {
                29
            } else {
                28
            },
            31,
            30,
            31,
            30,
            31,
            31,
            30,
            31,
            30,
            31,
        ];
        proof {
            assert(days_in_month@ =~= month_lengths(leap).map_values(|n: nat| n as u64));
            lemma_year_of_months(leap);
        }
        let mut month: u8 = 1;
        let mut k: usize = 0;
        while k < 12
            invariant
                0 <= k <= 12,
                month == k + 1,
                days_in_month@ =~= month_lengths(leap).map_values(|n: nat| n as u64),
                month_split(leap, k as nat, remaining_days as nat) == month_split(
                    leap,
                    0,
                    rem0 as nat,
                ),
                rem0 == days_before_month(leap, k as nat) + remaining_days,
                rem0 < days_in_year(y as int),
                days_before_month(leap, 12) == days_in_year(y as int),
                leap == is_leap(y as int),
            ensures
                0 <= k <= 12,
                month == k + 1,
                month_split(leap, k as nat, remaining_days as nat) == month_split(
                    leap,
                    0,
                    rem0 as nat,
                ),
                rem0 == days_before_month(leap, k as nat) + remaining_days,
                k == 12 || remaining_days < month_lengths(leap)[k as int],
            decreases 12 - k,
        {
            let d = days_in_month[k];
            if remaining_days >= d {
                remaining_days = remaining_days - d;
                month = month + 1;
                k = k + 1;
            } else {
                break;
            }
        }
        proof {
            if k == 12 {
                assert(false);
            }
            assert(month_split(leap, k as nat, remaining_days as nat) == (
                k as nat,
                remaining_days as nat,
            ));
            assert(remaining_days < 31);
        }
        let day = (remaining_days + 1) as u8;
        let year_2digit = (year % 100) as u8;
        Self { second, minute, hour, day, month, year: year_2digit }
    }

    /// The time label of the system clock (its UTC reading).
    pub fn now() -> (r: Self)
        ensures
            r.spec_is_valid(),
    {
        Self::from_unix_timestamp(system_unix_seconds())
    }

    /// Debug rendering: field names and decimal values.
    pub fn debug_text(&self) -> (r: String)
        ensures
            r@ == timestamp_debug_text(*self),
    {
        let mut s = String::new();
        s.append("Timestamp { second: ");
        push_decimal(&mut s, self.second as u64);
        s.append(", minute: ");
        push_decimal(&mut s, self.minute as u64);
        s.append(", hour: ");
        push_decimal(&mut s, self.hour as u64);
        s.append(", day: ");
        push_decimal(&mut s, self.day as u64);
        s.append(", month: ");
        push_decimal(&mut s, self.month as u64);
        s.append(", year: ");
        push_decimal(&mut s, self.year as u64);
        s.append(" }");
        proof {
            assert(s@ =~= timestamp_debug_text(*self));
        }
        s
    }

    /// Text form `YYYY-MM-DD hh:mm:ss`.
    pub fn to_string(&self) -> (r: String)
        ensures
            r@ == timestamp_text(*self),
    {
        let mut s = String::new();
        push_zero_padded(&mut s, self.full_year() as u64, 4);
        push_char(&mut s, '-');
        push_zero_padded(&mut s, self.month as u64, 2);
        push_char(&mut s, '-');
        push_zero_padded(&mut s, self.day as u64, 2);
        push_char(&mut s, ' ');
        push_zero_padded(&mut s, self.hour as u64, 2);
        push_char(&mut s, ':');
        push_zero_padded(&mut s, self.minute as u64, 2);
        push_char(&mut s, ':');
        push_zero_padded(&mut s, self.second as u64, 2);
        proof {
            assert(s@ =~= timestamp_text(*self));
        }
        s
    }
}

/// The months of a year add up to the year.
pub proof fn lemma_year_of_months(leap: bool)
    ensures
        days_before_month(leap, 12) == if leap {
            366nat
        } else {
            365nat
        },
{
    reveal_with_fuel(days_before_month, 13);
}

/// Reading back the six bytes of a valid label gives the label.
pub proof fn law_timestamp_bytes_roundtrip(t: Timestamp)
    requires
        t.spec_is_valid(),
    ensures
        bytes_are_valid_timestamp(t.spec_bytes()),
        timestamp_of_bytes(t.spec_bytes()) == t,
{
}

/// Days before a year grow with the year.
proof fn lemma_days_before_year_step(y: int, z: int)
    requires
        1970 <= y < z,
    ensures
        days_before_year(z) >= days_before_year(y + 1),
        days_before_year(y + 1) == days_before_year(y) + days_in_year(y),
    decreases z - y,
{
    if z > y + 1 {
        lemma_days_before_year_step(y, z - 1);
    }
}

/// Splitting the days from year `y` on up to day `r` of year `z` gives
/// year `z` and day `r`.
proof fn lemma_year_split_of(y: int, z: int, r: nat)
    requires
        1970 <= y <= z,
        r < days_in_year(z),
    ensures
        year_split(y as nat, (days_before_year(z) - days_before_year(y) + r) as nat) == (z as nat, r),
    decreases z - y,
{
    if y < z {
        lemma_days_before_year_step(y, z);
        lemma_year_split_of(y + 1, z, r);
    }
}

/// Days before a month grow with the month.
proof fn lemma_days_before_month_step(leap: bool, k: nat, m: nat)
    requires
        k < m <= 12,
    ensures
        days_before_month(leap, m) >= days_before_month(leap, k + 1),
        days_before_month(leap, k + 1) == days_before_month(leap, k) + month_lengths(leap)[k as int],
    decreases m - k,
{
    if m > k + 1 {
        lemma_days_before_month_step(leap, k, (m - 1) as nat);
    }
}

/// Splitting the days from month index `k` on up to day `r` of month index
/// `m` gives month index `m` and day `r`.
proof fn lemma_month_split_of(leap: bool, k: nat, m: nat, r: nat)
    requires
        k <= m < 12,
        r < month_lengths(leap)[m as int],
    ensures
        month_split(leap, k, (days_before_month(leap, m) - days_before_month(leap, k) + r) as nat)
            == (m, r),
    decreases m - k,
{
    if k < m {
        lemma_days_before_month_step(leap, k, m);
        lemma_month_split_of(leap, k + 1, m, r);
    }
}

/// Whole days and the time of day come apart again.
proof fn lemma_day_time_split(days: nat, h: nat, mi: nat, s: nat)
    requires
        h < 24,
        mi < 60,
        s < 60,
    ensures
        ({
            let ts = days * 86400 + h * 3600 + mi * 60 + s;
            let secs = ts % 86400;
            &&& ts / 86400 == days
            &&& secs == h * 3600 + mi * 60 + s
            &&& secs % 60 == s
            &&& (secs % 3600) / 60 == mi
            &&& secs / 3600 == h
        }),
{
    let t = h * 3600 + mi * 60 + s;
    assert(t < 86400) by (nonlinear_arith)
        requires
            h < 24,
            mi < 60,
            s < 60,
            t == h * 3600 + mi * 60 + s,
    ;
    vstd::arithmetic::div_mod::lemma_fundamental_div_mod_converse(
        (days * 86400 + t) as int,
        86400,
        days as int,
        t as int,
    );
    let u = mi * 60 + s;
    assert(u < 3600) by (nonlinear_arith)
        requires
            mi < 60,
            s < 60,
            u == mi * 60 + s,
    ;
    vstd::arithmetic::div_mod::lemma_fundamental_div_mod_converse(t as int, 3600, h as int, u as int);
    vstd::arithmetic::div_mod::lemma_fundamental_div_mod_converse(u as int, 60, mi as int, s as int);
    vstd::arithmetic::div_mod::lemma_fundamental_div_mod_converse(
        t as int,
        60,
        (h * 60 + mi) as int,
        s as int,
    );
}

/// A valid time label whose day exists in its month comes back from its
/// count of seconds since the Unix epoch.
pub proof fn law_unix_seconds_roundtrip(t: Timestamp)
    requires
        t.spec_is_valid(),
        t.day <= month_lengths(is_leap(2000 + t.year))[t.month - 1],
    ensures
        timestamp_of_unix(unix_seconds(t)) == t,
{
    let y: int = 2000 + t.year;
    let leap = is_leap(y);
    let m: nat = (t.month - 1) as nat;
    let d: nat = (t.day - 1) as nat;
    let days = days_before_year(y) + days_before_month(leap, m) + d;
    lemma_day_time_split(days, t.hour as nat, t.minute as nat, t.second as nat);
    lemma_days_before_month_bound(leap, m);
    lemma_year_split_of(1970, y, (days_before_month(leap, m) + d) as nat);
    lemma_month_split_of(leap, 0, m, d);
}

/// The days before a month of a year fall within the year.
proof fn lemma_days_before_month_bound(leap: bool, m: nat)
    requires
        m < 12,
    ensures
        days_before_month(leap, m) + month_lengths(leap)[m as int] <= days_in_year(
            if leap {
                2000
            } else {
                2001
            },
        ),
    decreases m,
{
    reveal_with_fuel(days_before_month, 13);
}

/// What splitting a day count into years gives: a year from `y` on and the
/// days into it, which add up to the count.
proof fn lemma_year_split_inv(y: nat, rem: nat)
    requires
        y >= 1970,
    ensures
        ({
            let (z, r) = year_split(y, rem);
            &&& z >= y
            &&& days_before_year(z as int) + r == days_before_year(y as int) + rem
            &&& r < days_in_year(z as int)
        }),
    decreases rem,
{
    if rem >= days_in_year(y as int) {
        lemma_year_split_inv(y + 1, (rem - days_in_year(y as int)) as nat);
        lemma_days_before_year_step(y as int, y + 1 as int);
    }
}

/// What splitting the days of a year into months gives: a month index from
/// `k` on and the days into it, which add up to the days.
proof fn lemma_month_split_inv(leap: bool, k: nat, rem: nat)
    requires
        k <= 12,
    ensures
        ({
            let (j, r) = month_split(leap, k, rem);
            &&& k <= j <= 12
            &&& days_before_month(leap, j) + r == days_before_month(leap, k) + rem
            &&& j < 12 ==> r < month_lengths(leap)[j as int]
        }),
    decreases 12 - k,
{
    if k < 12 && rem >= month_lengths(leap)[k as int] {
        lemma_month_split_inv(leap, k + 1, (rem - month_lengths(leap)[k as int]) as nat);
        lemma_days_before_month_step(leap, k, k + 1);
    }
}

/// The days of all twelve months make the year.
proof fn lemma_days_of_all_months(y: int)
    ensures
        days_before_month(is_leap(y), 12) == days_in_year(y),
{
    reveal_with_fuel(days_before_month, 13);
}

/// The days before the years 2000 and 2100 bound a year between them.
proof fn lemma_year_within(z: int)
    requires
        z >= 1970,
        days_before_year(2000) < days_before_year(z + 1),
        days_before_year(z) < days_before_year(2100),
    ensures
        2000 <= z <= 2099,
{
    if z < 2000 {
        if z + 1 < 2000 {
            lemma_days_before_year_step(z + 1, 2000);
        }
    }
    if z >= 2100 {
        if z > 2100 {
            lemma_days_before_year_step(2100, z);
        }
        lemma_days_before_year_step(2100, 2101);
    }
}

/// Every count of seconds within the years 2000-2099 comes back from its
/// time label.
pub proof fn law_time_label_unix_roundtrip(ts: nat)
    requires
        days_before_year(2000) * 86400 <= ts < days_before_year(2100) * 86400,
    ensures
        unix_seconds(timestamp_of_unix(ts)) == ts,
{
    let days = ts / 86400;
    let secs = ts % 86400;
    vstd::arithmetic::div_mod::lemma_fundamental_div_mod(ts as int, 86400);
    let (z, rem) = year_split(1970, days);
    lemma_year_split_inv(1970, days);
    let leap = is_leap(z as int);
    let (k, drem) = month_split(leap, 0, rem);
    lemma_month_split_inv(leap, 0, rem);
    lemma_days_of_all_months(z as int);
    assert(days_before_year(2000) <= days) by (nonlinear_arith)
        requires
            days_before_year(2000) * 86400 <= ts,
            ts == days * 86400 + secs,
            secs < 86400,
    ;
    assert(days < days_before_year(2100)) by (nonlinear_arith)
        requires
            ts < days_before_year(2100) * 86400,
            ts == days * 86400 + secs,
            secs >= 0,
    ;
    lemma_days_before_year_step(z as int, z + 1 as int);
    lemma_year_within(z as int);
    let t = timestamp_of_unix(ts);
    assert(2000 + t.year == z);
    let h = secs / 3600;
    let mi = (secs % 3600) / 60;
    let sec = secs % 60;
    vstd::arithmetic::div_mod::lemma_fundamental_div_mod(secs as int, 3600);
    vstd::arithmetic::div_mod::lemma_fundamental_div_mod((secs % 3600) as int, 60);
    vstd::arithmetic::div_mod::lemma_mod_mod(secs as int, 3600, 60);
    assert(secs == h * 3600 + mi * 60 + sec);
    assert(h < 24) by (nonlinear_arith)
        requires
            secs < 86400,
            h == secs / 3600,
    ;
}

impl Default for Timestamp {
    /// The current time, as `now` reads it.
    fn default() -> (r: Timestamp)
        ensures
            r.spec_is_valid(),
    {
        Timestamp::now()
    }
}

/// Days of month `m` (1-12) of year `y` in the Gregorian calendar: February
/// has 29 days when the year is divisible by 4 but not by 100, or by 400, and
/// 28 otherwise; of the other months, the odd ones up to July and the even
/// ones from August on have 31 days, the rest 30.
pub open spec fn gregorian_month_days(y: int, m: int) -> nat {
    if m == 2 {
        if y % 4 == 0 && (y % 100 != 0 || y % 400 == 0) {
            29
        } else {
            28
        }
    } else if (m <= 7) == (m % 2 == 1) {
        31
    } else {
        30
    }
}

/// The first second of month `m` of year `year` (0-99, meaning 2000-2099).
pub open spec fn first_of_month(year: u8, m: u8) -> Timestamp {
    Timestamp { second: 0, minute: 0, hour: 0, day: 1, month: m, year }
}

/// The month table agrees with the Gregorian calendar.
proof fn lemma_month_lengths_gregorian(y: int, m: int)
    requires
        1 <= m <= 12,
    ensures
        month_lengths(is_leap(y))[m - 1] == gregorian_month_days(y, m),
{
}

/// Days in the first `k` months add the month lengths one by one.
proof fn lemma_days_before_month_next(leap: bool, k: nat)
    requires
        k < 12,
    ensures
        days_before_month(leap, k + 1) == days_before_month(leap, k) + month_lengths(leap)[k as int],
{
}

/// The days from 1970 to 2000.
proof fn lemma_days_before_2000()
    ensures
        days_before_year(2000) == 10957,
{
    reveal_with_fuel(days_before_year, 31);
}

/// Unix time of the time labels: the first of January 2000 is second
/// 946684800; from the first of a month to the first of the next, in the same
/// year or across the turn of a year, pass as many days of 86400 seconds as
/// the Gregorian calendar gives the month; and within a month each day, hour,
/// minute and second adds its length.
pub proof fn law_unix_seconds_calendar(t: Timestamp, year: u8, m: u8)
    requires
        t.spec_is_valid(),
        year <= 99,
        1 <= m <= 12,
    ensures
        unix_seconds(first_of_month(0, 1)) == 946684800,
        m < 12 ==> unix_seconds(first_of_month(year, (m + 1) as u8)) == unix_seconds(
            first_of_month(year, m),
        ) + 86400 * gregorian_month_days(2000 + year, m as int),
        m == 12 && year < 99 ==> unix_seconds(first_of_month((year + 1) as u8, 1)) == unix_seconds(
            first_of_month(year, 12),
        ) + 86400 * gregorian_month_days(2000 + year, 12),
        unix_seconds(t) == unix_seconds(first_of_month(t.year, t.month)) + (t.day - 1) * 86400
            + t.hour * 3600 + t.minute * 60 + t.second,
{
    lemma_days_before_2000();
    let y: int = 2000 + year;
    let leap = is_leap(y);
    lemma_month_lengths_gregorian(y, m as int);
    if m < 12 {
        lemma_days_before_month_next(leap, (m - 1) as nat);
    }
    if m == 12 && year < 99 {
        lemma_days_before_year_step(y, y + 1);
        lemma_days_of_all_months(y);
        reveal_with_fuel(days_before_month, 13);
    }
    let ty: int = 2000 + t.year;
    let days0 = days_before_year(ty) + days_before_month(is_leap(ty), (t.month - 1) as nat);
    assert((days0 + (t.day - 1)) * 86400 == days0 * 86400 + (t.day - 1) * 86400) by (nonlinear_arith);
}

/// Every count of seconds within the years 2000-2099 reads as a real date:
/// a valid time label whose day exists in its month of the Gregorian
/// calendar.
pub proof fn law_unix_time_is_calendar_date(ts: nat)
    requires
        days_before_year(2000) * 86400 <= ts < days_before_year(2100) * 86400,
    ensures
        timestamp_of_unix(ts).spec_is_valid(),
        timestamp_of_unix(ts).day <= gregorian_month_days(
            2000 + timestamp_of_unix(ts).year,
            timestamp_of_unix(ts).month as int,
        ),
{
    law_time_label_unix_roundtrip(ts);
    let days = ts / 86400;
    let (z, rem) = year_split(1970, days);
    lemma_year_split_inv(1970, days);
    let leap = is_leap(z as int);
    let (k, drem) = month_split(leap, 0, rem);
    lemma_month_split_inv(leap, 0, rem);
    lemma_days_of_all_months(z as int);
    let secs = ts % 86400;
    vstd::arithmetic::div_mod::lemma_fundamental_div_mod(ts as int, 86400);
    assert(days_before_year(2000) <= days) by (nonlinear_arith)
        requires
            days_before_year(2000) * 86400 <= ts,
            ts == days * 86400 + secs,
            secs < 86400,
    ;
    assert(days < days_before_year(2100)) by (nonlinear_arith)
        requires
            ts < days_before_year(2100) * 86400,
            ts == days * 86400 + secs,
            secs >= 0,
    ;
    lemma_days_before_year_step(z as int, z + 1 as int);
    lemma_year_within(z as int);
    let t = timestamp_of_unix(ts);
    assert(k < 12);
    assert(2000 + t.year == z);
    lemma_month_lengths_gregorian(z as int, k + 1 as int);
}

} // verus!
