//! Instants and time spans as plain values, and the calls into `chrono` that
//! read the clock, parse date-time texts and format instants.

use vstd::prelude::*;

use crate::text::{dec_nat, dec_pad2};

verus! {

/// An instant in UTC: whole seconds since 1970-01-01T00:00:00Z and the
/// nanoseconds within that second (what `DateTime<Utc>::timestamp` and
/// `timestamp_subsec_nanos` give).
#[derive(Clone, Copy, Debug, PartialEq, Eq, Structural)]
pub struct Timestamp {
    pub secs: i64,
    pub nanos: u32,
}

/// A signed span of time: whole seconds and extra nanoseconds (as in `chrono::TimeDelta`).
#[derive(Clone, Copy, Debug, PartialEq, Eq, Structural)]
pub struct Span {
    pub secs: i64,
    pub nanos: u32,
}

/// The first second of `DateTime::<Utc>::MIN_UTC`.
pub open spec fn chrono_min_secs() -> int {
    -8_334_601_228_800
}

/// The last second of `DateTime::<Utc>::MAX_UTC`.
pub open spec fn chrono_max_secs() -> int {
    8_210_266_876_799
}

/// The largest number of seconds that `TimeDelta::seconds` accepts (`i64::MAX / 1000`).
pub open spec fn max_delta_secs() -> int {
    9_223_372_036_854_775
}

pub open spec fn nanos_per_sec() -> int {
    1_000_000_000
}

impl Timestamp {
    /// The instant in nanoseconds since the epoch.
    pub open spec fn total_nanos(self) -> int {
        self.secs * nanos_per_sec() + self.nanos
    }

    /// Within the range of `DateTime<Utc>`: from -262143-01-01T00:00:00Z to
    /// +262142-12-31T23:59:59.999999999Z.
    pub open spec fn in_range(self) -> bool {
        chrono_min_secs() <= self.secs <= chrono_max_secs()
    }

    /// The order of `DateTime<Utc>`: by second, then by nanosecond.
    pub open spec fn not_after(self, other: Timestamp) -> bool {
        self.secs < other.secs || (self.secs == other.secs && self.nanos <= other.nanos)
    }
}

impl Timestamp {
    /// Whether the instant lies within `DateTime<Utc>`'s range.
    pub fn is_in_range(&self) -> (b: bool)
        ensures
            b == self.in_range(),
    {
        -8_334_601_228_800 <= self.secs && self.secs <= 8_210_266_876_799
    }
}

impl Span {
    /// The span in nanoseconds.
    pub open spec fn total_nanos(self) -> int {
        self.secs * nanos_per_sec() + self.nanos
    }
}

/// Whole seconds in `n` nanoseconds, rounded toward zero (`TimeDelta::num_seconds`).
pub open spec fn whole_seconds(n: int) -> int {
    if n >= 0 {
        n / nanos_per_sec()
    } else {
        -((-n) / nanos_per_sec())
    }
}

/// Seconds from `earlier` to `later`, rounded toward zero
/// (`later.signed_duration_since(earlier).num_seconds()`).
pub open spec fn seconds_between(later: Timestamp, earlier: Timestamp) -> int {
    whole_seconds(later.total_nanos() - earlier.total_nanos())
}

/// Nanoseconds from `earlier` to `later`, computed exactly.
pub fn nanos_between(later: Timestamp, earlier: Timestamp) -> (d: i128)
    ensures
        d == later.total_nanos() - earlier.total_nanos(),
{
    let a: i128 = (later.secs as i128) * 1_000_000_000 + (later.nanos as i128);
    let b: i128 = (earlier.secs as i128) * 1_000_000_000 + (earlier.nanos as i128);
    a - b
}

/// Whole seconds from `earlier` to `later`, rounded toward zero.
pub fn seconds_since(later: Timestamp, earlier: Timestamp) -> (s: i64)
    requires
        later.in_range(),
        earlier.in_range(),
    ensures
        s == seconds_between(later, earlier),
{
    let d = nanos_between(later, earlier);
    let r: i128 = if d >= 0 {
        d / 1_000_000_000
    } else {
        -((-d) / 1_000_000_000)
    };
    r as i64
}

/// Whether `a` comes strictly after `b` in time.
pub fn is_after(a: &Timestamp, b: &Timestamp) -> (r: bool)
    ensures
        r == !a.not_after(*b),
{
    a.secs > b.secs || (a.secs == b.secs && a.nanos > b.nanos)
}

/// `start + TimeDelta::seconds(secs)`, for the inputs on which chrono does not panic.
pub fn add_seconds(start: Timestamp, secs: i64) -> (t: Timestamp)
    requires
        start.secs + secs <= i64::MAX,
        start.secs + secs >= i64::MIN,
    ensures
        t.secs == start.secs + secs,
        t.nanos == start.nanos,
        t.total_nanos() == start.total_nanos() + secs * nanos_per_sec(),
{
    Timestamp { secs: start.secs + secs, nanos: start.nanos }
}

// ---------------------------------------------------------------------------
// Calls into chrono
// ---------------------------------------------------------------------------

/// What `s.parse::<DateTime<Utc>>()` yields, as `(timestamp, subsecond nanos)`.
pub uninterp spec fn utc_datetime_parse(s: Seq<char>) -> Option<(i64, u32)>;

/// What `NaiveDateTime::parse_from_str(s, fmt)` yields, read as if it were
/// UTC: `(timestamp, subsecond nanos)` of `and_utc()`.
pub uninterp spec fn naive_datetime_value(s: Seq<char>, fmt: Seq<char>) -> Option<(i64, u32)>;

/// Whether `NaiveDate::parse_from_str(s, fmt)` succeeds.
pub uninterp spec fn naive_date_parses(s: Seq<char>, fmt: Seq<char>) -> bool;

/// The proleptic Gregorian `(year, month, day)` of a day counted from
/// 1970-01-01 (the civil-from-days calculation).
pub open spec fn civil_from_days(days: int) -> (int, int, int) {
    let z = days + 719_468;
    let era = z / 146_097;
    let doe = z - era * 146_097;
    let yoe = (doe - doe / 1460 + doe / 36_524 - doe / 146_096) / 365;
    let doy = doe - (365 * yoe + yoe / 4 - yoe / 100);
    let mp = (5 * doy + 2) / 153;
    let d = doy - (153 * mp + 2) / 5 + 1;
    let m = if mp < 10 {
        mp + 3
    } else {
        mp - 9
    };
    let y = yoe + era * 400 + if m <= 2 {
        1int
    } else {
        0int
    };
    (y, m, d)
}

/// `{:04}` of a natural number.
pub open spec fn dec_pad4(n: nat) -> Seq<char> {
    if n < 10 {
        "000"@ + dec_nat(n)
    } else if n < 100 {
        "00"@ + dec_nat(n)
    } else if n < 1000 {
        "0"@ + dec_nat(n)
    } else {
        dec_nat(n)
    }
}

/// chrono's `%Y`: four digits for the years 0 to 9999, else a sign and at
/// least four digits.
pub open spec fn year_text(y: int) -> Seq<char> {
    if 0 <= y <= 9999 {
        dec_pad4(y as nat)
    } else if y < 0 {
        seq!['-'] + dec_pad4((-y) as nat)
    } else {
        seq!['+'] + dec_pad4(y as nat)
    }
}

/// What `DateTime::<Utc>::from_timestamp(secs, nanos)` formatted with
/// `%Y-%m-%d %H:%M:%S UTC` yields: `None` where chrono has no such instant
/// (out of range, or a fraction of a second that `NaiveTime` does not hold);
/// a leap second shows as second 60.
pub open spec fn utc_format(secs: i64, nanos: u32) -> Option<Seq<char>> {
    let t = Timestamp { secs, nanos };
    if t.in_range() && valid_time_fraction(t) {
        let days = secs / 86_400;
        let sod = secs % 86_400;
        let ymd = civil_from_days(days);
        let leap: int = if nanos >= 1_000_000_000 {
            1
        } else {
            0
        };
        Some(
            year_text(ymd.0) + seq!['-'] + dec_pad2(ymd.1 as nat) + seq!['-'] + dec_pad2(
                ymd.2 as nat,
            ) + seq![' '] + dec_pad2((sod / 3600) as nat) + seq![':'] + dec_pad2(
                ((sod % 3600) / 60) as nat,
            ) + seq![':'] + dec_pad2((sod % 60 + leap) as nat) + " UTC"@,
        )
    } else {
        None
    }
}

/// The current instant, from `chrono::Utc::now`, which measures the system
/// clock from the Unix epoch (and panics on a clock set before it). Claimed
/// of it: an instant after the epoch, with fewer than a second of
/// nanoseconds, within chrono's range; the rest depends on the clock.
#[verifier::external_body]
pub fn now() -> (t: Timestamp)
    ensures
        t.in_range(),
        t.secs >= 0,
        t.nanos < 1_000_000_000,
{
    let dt = chrono::Utc::now();
    Timestamp { secs: dt.timestamp(), nanos: dt.timestamp_subsec_nanos() }
}

/// `s.parse::<DateTime<Utc>>()` (an RFC 3339 date-time with an offset),
/// converted to an instant. The result is claimed to be chrono's, named by
/// `utc_datetime_parse`, and within chrono's range.
#[verifier::external_body]
pub(crate) fn parse_utc_datetime(s: &str) -> (r: Option<Timestamp>)
    ensures
        r matches Some(t) ==> t.in_range(),
        match r {
            Some(t) => utc_datetime_parse(s@) == Some((t.secs, t.nanos)),
            None => utc_datetime_parse(s@) is None,
        },
{
    match s.parse::<chrono::DateTime<chrono::Utc>>() {
        Ok(dt) => Some(Timestamp { secs: dt.timestamp(), nanos: dt.timestamp_subsec_nanos() }),
        Err(_) => None,
    }
}

/// Whether chrono's `NaiveTime` holds this second and fraction: a fraction
/// under two seconds, above one second only in the last second of a minute
/// (a leap second).
pub open spec fn valid_time_fraction(t: Timestamp) -> bool {
    &&& t.nanos < 2_000_000_000
    &&& t.nanos >= 1_000_000_000 ==> t.secs % 60 == 59
}

/// `NaiveDateTime::parse_from_str(s, fmt)`, the local date and time read as
/// if it were UTC (`and_utc().timestamp()` and `timestamp_subsec_nanos()`).
/// The result is claimed to be chrono's, named by `naive_datetime_value`;
/// and, as every `NaiveDateTime` is, within chrono's range with a valid
/// fraction of a second (`NaiveTime`'s invariant).
#[verifier::external_body]
pub(crate) fn parse_naive_datetime(s: &str, fmt: &str) -> (r: Option<Timestamp>)
    ensures
        match r {
            Some(t) => naive_datetime_value(s@, fmt@) == Some((t.secs, t.nanos)),
            None => naive_datetime_value(s@, fmt@) is None,
        },
        r matches Some(t) ==> t.in_range() && valid_time_fraction(t),
{
    match chrono::NaiveDateTime::parse_from_str(s, fmt) {
        Ok(n) => Some(Timestamp { secs: n.and_utc().timestamp(), nanos: n.and_utc().timestamp_subsec_nanos() }),
        Err(_) => None,
    }
}

/// `NaiveDate::parse_from_str(s, fmt).is_ok()`. The answer is claimed to be
/// chrono's, named by `naive_date_parses`.
#[verifier::external_body]
pub(crate) fn naive_date_parse_ok(s: &str, fmt: &str) -> (b: bool)
    ensures
        b == naive_date_parses(s@, fmt@),
{
    chrono::NaiveDate::parse_from_str(s, fmt).is_ok()
}

/// The instant that the local date and time `naive` (given as if it were
/// UTC) denotes in the machine's time zone:
/// `from_timestamp(secs, nanos).naive_utc().and_local_timezone(Local).single()`,
/// `None` where it is ambiguous or does not exist. chrono's local offset is a
/// `FixedOffset`, under a day in either direction, and subtracting it keeps
/// the fraction of the second; that much is claimed. The offset itself is
/// the machine's and is left unsaid.
#[verifier::external_body]
pub(crate) fn local_to_utc(naive: Timestamp) -> (r: Option<Timestamp>)
    requires
        naive.in_range(),
        valid_time_fraction(naive),
    ensures
        r matches Some(t) ==> t.in_range() && -86_400 < t.secs - naive.secs < 86_400 && t.nanos
            == naive.nanos,
{
    match chrono::DateTime::<chrono::Utc>::from_timestamp(naive.secs, naive.nanos) {
        Some(dt) => match dt.naive_utc().and_local_timezone(chrono::Local).single() {
            Some(l) => Some(Timestamp { secs: l.timestamp(), nanos: l.timestamp_subsec_nanos() }),
            None => None,
        },
        None => None,
    }
}

/// `{:0width$}` of a natural number.
pub open spec fn zero_padded(n: nat, width: nat) -> Seq<char> {
    let d = dec_nat(n);
    if d.len() < width {
        Seq::new((width - d.len()) as nat, |i: int| '0') + d
    } else {
        d
    }
}

/// chrono's automatic fraction of a second in RFC 3339: none, or 3, 6 or 9
/// digits, the fewest that show the nanoseconds exactly.
pub open spec fn rfc3339_fraction(nano: nat) -> Seq<char> {
    if nano == 0 {
        Seq::empty()
    } else if nano % 1_000_000 == 0 {
        seq!['.'] + zero_padded(nano / 1_000_000, 3)
    } else if nano % 1000 == 0 {
        seq!['.'] + zero_padded(nano / 1000, 6)
    } else {
        seq!['.'] + zero_padded(nano, 9)
    }
}

/// What `DateTime::<Utc>::from_timestamp(secs, nanos)` gives as
/// `to_rfc3339()`: `YYYY-MM-DDTHH:MM:SS[.fraction]+00:00`, `None` where
/// chrono has no such instant; a leap second shows as second 60.
pub open spec fn rfc3339_utc(secs: i64, nanos: u32) -> Option<Seq<char>> {
    let t = Timestamp { secs, nanos };
    if t.in_range() && valid_time_fraction(t) {
        let days = secs / 86_400;
        let sod = secs % 86_400;
        let ymd = civil_from_days(days);
        let leap: int = if nanos >= 1_000_000_000 {
            1
        } else {
            0
        };
        Some(
            year_text(ymd.0) + seq!['-'] + dec_pad2(ymd.1 as nat) + seq!['-'] + dec_pad2(
                ymd.2 as nat,
            ) + seq!['T'] + dec_pad2((sod / 3600) as nat) + seq![':'] + dec_pad2(
                ((sod % 3600) / 60) as nat,
            ) + seq![':'] + dec_pad2((sod % 60 + leap) as nat) + rfc3339_fraction(
                (nanos - leap * 1_000_000_000) as nat,
            ) + "+00:00"@,
        )
    } else {
        None
    }
}

/// `DateTime::<Utc>::from_timestamp(secs, nanos)` as `to_rfc3339()`. The
/// result is claimed to be what `rfc3339_utc` states of chrono's calendar and
/// its RFC 3339 writer (automatic fraction, `+00:00` for UTC).
#[verifier::external_body]
pub(crate) fn format_rfc3339(t: &Timestamp) -> (r: Option<String>)
    ensures
        match r {
            Some(s) => rfc3339_utc(t.secs, t.nanos) == Some(s@),
            None => rfc3339_utc(t.secs, t.nanos) is None,
        },
{
    match chrono::DateTime::<chrono::Utc>::from_timestamp(t.secs, t.nanos) {
        Some(dt) => Some(dt.to_rfc3339()),
        None => None,
    }
}

/// `DateTime::<Utc>::from_timestamp(secs, nanos)` formatted with `fmt`
/// (`format(fmt).to_string()`). The result is claimed to be what
/// `utc_format` states of chrono's calendar and of its `%Y`, `%m`, `%d`,
/// `%H`, `%M` and `%S`. Displaying a format with an unknown specifier panics,
/// so the format is the one the cache status uses.
#[verifier::external_body]
pub(crate) fn format_utc(t: &Timestamp, fmt: &str) -> (r: Option<String>)
    requires
        fmt@ == "%Y-%m-%d %H:%M:%S UTC"@,
    ensures
        match r {
            Some(s) => utc_format(t.secs, t.nanos) == Some(s@),
            None => utc_format(t.secs, t.nanos) is None,
        },
{
    match chrono::DateTime::<chrono::Utc>::from_timestamp(t.secs, t.nanos) {
        Some(dt) => Some(dt.format(fmt).to_string()),
        None => None,
    }
}

/// Whether an entry cached at `cached_at` has outlived `ttl` at `now`:
/// `now - cached_at >= ttl`, exactly at the boundary included.
pub fn is_expired(cached_at: Timestamp, ttl: Span, now: Timestamp) -> (r: bool)
    ensures
        r == (now.total_nanos() - cached_at.total_nanos() >= ttl.total_nanos()),
{
    let elapsed = nanos_between(now, cached_at);
    let limit: i128 = (ttl.secs as i128) * 1_000_000_000 + (ttl.nanos as i128);
    elapsed >= limit
}

/// An entry that has expired stays expired at every later instant.
pub proof fn law_expiry_is_monotone(cached_at: Timestamp, ttl: Span, now: Timestamp, later: Timestamp)
    requires
        now.total_nanos() - cached_at.total_nanos() >= ttl.total_nanos(),
        now.total_nanos() <= later.total_nanos(),
    ensures
        later.total_nanos() - cached_at.total_nanos() >= ttl.total_nanos(),
{
}

} // verus!
