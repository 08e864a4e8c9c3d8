//! Timestamp normalization. Calendar text is parsed and turned into epoch
//! days here, fully verified; only the UTC offset of an IANA zone at a local
//! wall-clock time comes from the timezone database, behind one trusted
//! lookup.

use vstd::prelude::*;

use crate::element::{spec_required_str, Element, ElemModel};
use crate::error::{DecodeError, ErrorModel};
use crate::scalars::{all_digits, digits_val};

verus! {

/// One entry of the caller-supplied abbreviation table: a broker timezone
/// abbreviation and the IANA zone it stands for.
#[derive(Debug, PartialEq, Eq, Clone)]
pub struct TzMapping {
    pub abbreviation: String,
    pub tz_name: String,
}

impl DeepView for TzMapping {
    type V = (Seq<char>, Seq<char>);

    open spec fn deep_view(&self) -> (Seq<char>, Seq<char>) {
        (self.abbreviation@, self.tz_name@)
    }
}

/// The proleptic Gregorian leap-year rule.
pub open spec fn is_leap_year(y: int) -> bool {
    y % 4 == 0 && (y % 100 != 0 || y % 400 == 0)
}

pub open spec fn year_len(y: int) -> int {
    if is_leap_year(y) {
        366
    } else {
        365
    }
}

pub open spec fn days_in_month(y: int, m: int) -> int {
    if m == 1 || m == 3 || m == 5 || m == 7 || m == 8 || m == 10 || m == 12 {
        31
    } else if m == 4 || m == 6 || m == 9 || m == 11 {
        30
    } else if is_leap_year(y) {
        29
    } else {
        28
    }
}

/// Days in all years before `y`, counted from year 0.
pub open spec fn days_before_year(y: int) -> int
    decreases y,
{
    if y <= 0 {
        0
    } else {
        days_before_year(y - 1) + year_len(y - 1)
    }
}

/// Days in all months of `y` before `m`.
pub open spec fn days_before_month(y: int, m: int) -> int
    decreases m,
{
    if m <= 1 {
        0
    } else {
        days_before_month(y, m - 1) + days_in_month(y, m - 1)
    }
}

/// The day number of a civil date, counted from year 0.
pub open spec fn civil_days(y: int, m: int, d: int) -> int {
    days_before_year(y) + days_before_month(y, m) + d - 1
}

/// Days since 1970-01-01.
pub open spec fn epoch_days(y: int, m: int, d: int) -> int {
    civil_days(y, m, d) - civil_days(1970, 1, 1)
}

pub proof fn lemma_days_before_year_bound(y: int)
    requires
        y >= 0,
    ensures
        0 <= days_before_year(y) <= 366 * y,
    decreases y,
{
    if y > 0 {
        lemma_days_before_year_bound(y - 1);
    }
}

pub proof fn lemma_days_before_month_bound(y: int, m: int)
    requires
        m >= 1,
    ensures
        0 <= days_before_month(y, m) <= 31 * (m - 1),
    decreases m,
{
    if m > 1 {
        lemma_days_before_month_bound(y, m - 1);
    }
}

/// Ten to the `n`.
pub open spec fn pow10(n: nat) -> int
    decreases n,
{
    if n == 0 {
        1
    } else {
        10 * pow10((n - 1) as nat)
    }
}

pub proof fn lemma_pow10_mono(a: nat, b: nat)
    requires
        a <= b,
    ensures
        1 <= pow10(a) <= pow10(b),
    decreases b,
{
    if a < b {
        lemma_pow10_mono(a, (b - 1) as nat);
    } else if b > 0 {
        lemma_pow10_mono((a - 1) as nat, (b - 1) as nat);
    }
}

pub proof fn lemma_digits_val_upper(s: Seq<char>)
    requires
        all_digits(s),
    ensures
        0 <= digits_val(s) < pow10(s.len()),
    decreases s.len(),
{
    if s.len() > 0 {
        let front = s.subrange(0, s.len() - 1);
        assert(all_digits(front));
        lemma_digits_val_upper(front);
    }
}

/// Reads the fixed-width digit run `s[i..j]` as a number.
fn read_digits(s: &str, i: usize, j: usize) -> (r: Option<u32>)
    requires
        i <= j <= s@.len(),
        j - i <= 4,
    ensures
        match r {
            Some(v) => all_digits(s@.subrange(i as int, j as int)) && v == digits_val(
                s@.subrange(i as int, j as int),
            ) && v < 10000,
            None => !all_digits(s@.subrange(i as int, j as int)),
        },
{
    let ghost whole = s@.subrange(i as int, j as int);
    let mut acc: u32 = 0;
    let mut k: usize = i;
    while k < j
        invariant
            i <= k <= j <= s@.len(),
            j - i <= 4,
            whole == s@.subrange(i as int, j as int),
            all_digits(s@.subrange(i as int, k as int)),
            acc == digits_val(s@.subrange(i as int, k as int)),
            acc < 10000,
        decreases j - k,
    {
        let c = s.get_char(k);
        let cu = c as u32;
        let ghost pre = s@.subrange(i as int, k as int);
        let ghost cur = s@.subrange(i as int, (k as int) + 1);
        assert(cur.subrange(0, cur.len() - 1) =~= pre);
        if cu < 48 || cu > 57 {
            assert(whole[(k - i) as int] == s@[k as int]);
            assert(!all_digits(whole));
            return None;
        }
        proof {
            assert(all_digits(cur)) by {
                assert(forall|t: int| 0 <= t < cur.len() - 1 ==> cur[t] == pre[t]);
            }
        }
        acc = acc * 10 + (cu - 48);
        assert(acc == digits_val(cur));
        proof {
            lemma_digits_val_upper(cur);
            lemma_pow10_mono(cur.len(), 4);
            assert(pow10(4) == 10000) by {
                reveal_with_fuel(pow10, 5);
            }
        }
        k = k + 1;
    }
    assert(whole =~= s@.subrange(i as int, j as int));
    Some(acc)
}

/// What calendar-date text denotes: `YYYY-MM-DD`, a real date of the
/// proleptic Gregorian calendar.
pub open spec fn spec_parse_date(s: Seq<char>) -> Option<(int, int, int)> {
    if s.len() == 10 && all_digits(s.subrange(0, 4)) && s[4] == '-' && all_digits(s.subrange(5, 7))
        && s[7] == '-' && all_digits(s.subrange(8, 10)) {
        let y = digits_val(s.subrange(0, 4));
        let m = digits_val(s.subrange(5, 7));
        let d = digits_val(s.subrange(8, 10));
        if 1 <= m <= 12 && 1 <= d <= days_in_month(y, m) {
            Some((y, m, d))
        } else {
            None
        }
    } else {
        None
    }
}

fn days_in_month_exec(y: u32, m: u32) -> (r: u32)
    requires
        1 <= m <= 12,
    ensures
        r == days_in_month(y as int, m as int),
{
    if m == 1 || m == 3 || m == 5 || m == 7 || m == 8 || m == 10 || m == 12 {
        31
    } else if m == 4 || m == 6 || m == 9 || m == 11 {
        30
    } else if y % 4 == 0 && (y % 100 != 0 || y % 400 == 0) {
        29
    } else {
        28
    }
}

/// Parses `YYYY-MM-DD` calendar text.
pub fn parse_date(s: &str) -> (r: Option<(u32, u32, u32)>)
    ensures
        match r {
            Some(p) => spec_parse_date(s@) == Some((p.0 as int, p.1 as int, p.2 as int)) && p.0
                <= 9999,
            None => spec_parse_date(s@) is None,
        },
{
    let n = s.unicode_len();
    if n != 10 {
        return None;
    }
    if !(s.get_char(4) == '-') || !(s.get_char(7) == '-') {
        return None;
    }
    let y = match read_digits(s, 0, 4) {
        Some(v) => v,
        None => {
            return None;
        },
    };
    let m = match read_digits(s, 5, 7) {
        Some(v) => v,
        None => {
            return None;
        },
    };
    let d = match read_digits(s, 8, 10) {
        Some(v) => v,
        None => {
            return None;
        },
    };
    if !(1 <= m && m <= 12) {
        return None;
    }
    if !(1 <= d && d <= days_in_month_exec(y, m)) {
        return None;
    }
    proof {
        lemma_digits_val_upper(s@.subrange(0, 4));
        assert(pow10(4) == 10000) by {
            reveal_with_fuel(pow10, 5);
        }
    }
    Some((y, m, d))
}

/// The day number of a date, by summing whole years and months.
fn civil_days_exec(y: u32, m: u32, d: u32) -> (r: i64)
    requires
        y <= 9999,
        1 <= m <= 12,
        1 <= d <= 31,
    ensures
        r == civil_days(y as int, m as int, d as int),
        0 <= r <= 3_700_000,
{
    let mut acc: i64 = 0;
    let mut i: u32 = 0;
    while i < y
        invariant
            0 <= i <= y <= 9999,
            acc == days_before_year(i as int),
            0 <= acc <= 366 * (i as i64),
        decreases y - i,
    {
        let leap = i % 4 == 0 && (i % 100 != 0 || i % 400 == 0);
        acc = acc + if leap {
            366
        } else {
            365
        };
        i = i + 1;
    }
    let mut j: u32 = 1;
    while j < m
        invariant
            1 <= j <= m <= 12,
            acc == days_before_year(y as int) + days_before_month(y as int, j as int),
            0 <= acc <= 366 * 9999 + 31 * (j as i64),
            y <= 9999,
        decreases m - j,
    {
        acc = acc + days_in_month_exec(y, j) as i64;
        j = j + 1;
    }
    proof {
        lemma_days_before_year_bound(y as int);
        lemma_days_before_month_bound(y as int, m as int);
    }
    acc + (d as i64) - 1
}

/// First index at or after `i` holding character `c`, or the length where
/// there is none.
pub open spec fn find_char(s: Seq<char>, c: char, i: int) -> int
    decreases s.len() - i,
{
    if i < 0 || i >= s.len() {
        i
    } else if s[i] == c {
        i
    } else {
        find_char(s, c, i + 1)
    }
}

/// Finds the first occurrence of `c` at or after `i`, or the length.
pub fn find_char_exec(s: &str, n: usize, c: char, i: usize) -> (r: usize)
    requires
        n == s@.len(),
        i <= n,
    ensures
        r == find_char(s@, c, i as int),
        i <= r <= n,
{
    let mut j: usize = i;
    while j < n
        invariant
            i <= j <= n,
            n == s@.len(),
            find_char(s@, c, i as int) == find_char(s@, c, j as int),
        decreases n - j,
    {
        if s.get_char(j) == c {
            return j;
        }
        j = j + 1;
    }
    j
}

/// What compound date-time text denotes: `YYYY-MM-DD;HH:MM:SS`, a real date
/// and a wall-clock time.
pub open spec fn spec_parse_datetime(s: Seq<char>) -> Option<(int, int, int, int, int, int)> {
    if s.len() == 19 && s[10] == ';' && s[13] == ':' && s[16] == ':' && all_digits(
        s.subrange(11, 13),
    ) && all_digits(s.subrange(14, 16)) && all_digits(s.subrange(17, 19)) {
        match spec_parse_date(s.subrange(0, 10)) {
            Some((y, m, d)) => {
                let h = digits_val(s.subrange(11, 13));
                let mi = digits_val(s.subrange(14, 16));
                let sec = digits_val(s.subrange(17, 19));
                if h < 24 && mi < 60 && sec < 60 {
                    Some((y, m, d, h, mi, sec))
                } else {
                    None
                }
            },
            None => None,
        }
    } else {
        None
    }
}

/// Parses `YYYY-MM-DD;HH:MM:SS` date-time text.
pub fn parse_datetime(s: &str) -> (r: Option<(u32, u32, u32, u32, u32, u32)>)
    ensures
        match r {
            Some(p) => spec_parse_datetime(s@) == Some(
                (p.0 as int, p.1 as int, p.2 as int, p.3 as int, p.4 as int, p.5 as int),
            ) && p.0 <= 9999 && 1 <= p.1 <= 12 && 1 <= p.2 <= 31 && p.3 < 24 && p.4 < 60 && p.5
                < 60,
            None => spec_parse_datetime(s@) is None,
        },
{
    let n = s.unicode_len();
    if n != 19 {
        return None;
    }
    if !(s.get_char(10) == ';') || !(s.get_char(13) == ':') || !(s.get_char(16) == ':') {
        return None;
    }
    let date_part = s.substring_char(0, 10);
    let (y, m, d) = match parse_date(date_part) {
        Some(p) => p,
        None => {
            return None;
        },
    };
    let h = match read_digits(s, 11, 13) {
        Some(v) => v,
        None => {
            return None;
        },
    };
    let mi = match read_digits(s, 14, 16) {
        Some(v) => v,
        None => {
            return None;
        },
    };
    let sec = match read_digits(s, 17, 19) {
        Some(v) => v,
        None => {
            return None;
        },
    };
    if !(h < 24 && mi < 60 && sec < 60) {
        return None;
    }
    Some((y, m, d, h, mi, sec))
}

/// The result of the timezone database: the UTC offset, in seconds, in force
/// in the named IANA zone at the given local wall-clock time; `None` where
/// the zone name is unknown, the date or time is invalid, or that wall-clock
/// time is skipped or repeated at a transition.
pub uninterp spec fn tz_local_offset(
    tz_name: Seq<char>,
    y: int,
    m: int,
    d: int,
    h: int,
    mi: int,
    s: int,
) -> Option<int>;

/// Relies on `chrono_tz::Tz::from_str` (resolving an IANA zone name),
/// `chrono::NaiveDate::from_ymd_opt` and `NaiveDate::and_hms_opt` (building
/// the local wall-clock time), and `chrono::TimeZone::from_local_datetime`
/// with `LocalResult::single` and `Offset::fix` (the zone's UTC offset at
/// that local time, from the compiled timezone database). The offset is a
/// function of the arguments alone, so it is named rather than spelled out.
#[verifier::external_body]
fn lookup_utc_offset(tz_name: &str, y: u32, mo: u32, d: u32, h: u32, mi: u32, sec: u32) -> (r:
    Option<i32>)
    ensures
        match r {
            Some(off) => tz_local_offset(
                tz_name@,
                y as int,
                mo as int,
                d as int,
                h as int,
                mi as int,
                sec as int,
            ) == Some(off as int),
            None => tz_local_offset(
                tz_name@,
                y as int,
                mo as int,
                d as int,
                h as int,
                mi as int,
                sec as int,
            ) is None,
        },
{
    let tz: chrono_tz::Tz = match tz_name.parse() {
        Ok(t) => t,
        Err(_) => return None,
    };
    let dt = chrono::NaiveDate::from_ymd_opt(y as i32, mo, d)?.and_hms_opt(h, mi, sec)?;
    chrono::TimeZone::from_local_datetime(&tz, &dt).single().map(
        |t| chrono::Offset::fix(t.offset()).local_minus_utc(),
    )
}

/// The epoch-millisecond instant of a local wall-clock time in a zone, or
/// `None` where the zone cannot resolve that wall-clock time. Any instant of
/// a four-digit year stays well within these bounds.
pub fn local_wall_clock_ms(timezone: &str, y: u32, m: u32, d: u32, h: u32, mi: u32, sec: u32) -> (r:
    Option<i64>)
    requires
        y <= 9999,
        1 <= m <= 12,
        1 <= d <= 31,
        h < 24,
        mi < 60,
        sec < 60,
    ensures
        match r {
            Some(ms) => {
                &&& tz_local_offset(
                    timezone@,
                    y as int,
                    m as int,
                    d as int,
                    h as int,
                    mi as int,
                    sec as int,
                ) matches Some(off)
                &&& ms == (epoch_days(y as int, m as int, d as int) * 86400 + (h as int) * 3600 + (
                mi as int) * 60 + (sec as int) - off) * 1000
                &&& -400_000_000_000_000 <= ms <= 400_000_000_000_000
            },
            None => tz_local_offset(
                timezone@,
                y as int,
                m as int,
                d as int,
                h as int,
                mi as int,
                sec as int,
            ) is None,
        },
{
    let off = match lookup_utc_offset(timezone, y, m, d, h, mi, sec) {
        Some(o) => o,
        None => {
            return None;
        },
    };
    let days: i64 = civil_days_exec(y, m, d) - civil_days_exec(1970, 1, 1);
    let secs: i64 = days * 86400 + (h as i64) * 3600 + (mi as i64) * 60 + (sec as i64) - (
    off as i64);
    Some(secs * 1000)
}

/// What the wall-clock instant `hour`:00:00 of `date` in `timezone` is, in
/// epoch milliseconds.
pub open spec fn spec_timestamp_ms_at_hour(date: Seq<char>, timezone: Seq<char>, hour: int) -> Result<
    int,
    ErrorModel,
> {
    match spec_parse_date(date) {
        Some((y, m, d)) => match tz_local_offset(timezone, y, m, d, hour, 0, 0) {
            Some(off) => Ok((epoch_days(y, m, d) * 86400 + hour * 3600 - off) * 1000),
            None => Err(ErrorModel::InvalidDate { raw: date }),
        },
        None => Err(ErrorModel::InvalidDate { raw: date }),
    }
}

/// The instant `hour`:00:00 of a calendar date in a timezone, in epoch
/// milliseconds: the date's epoch days and the hour, less the zone's UTC
/// offset at that wall-clock time.
pub fn timestamp_ms_at_hour(date: &str, timezone: &str, hour: u32) -> (r: Result<i64, DecodeError>)
    requires
        hour < 24,
    ensures
        match r {
            Ok(ms) => spec_timestamp_ms_at_hour(date@, timezone@, hour as int) == Ok::<int, ErrorModel>(ms as int)
                && -400_000_000_000_000 <= ms <= 400_000_000_000_000,
            Err(e) => spec_timestamp_ms_at_hour(date@, timezone@, hour as int) == Err::<
                int,
                ErrorModel,
            >(e.deep_view()),
        },
{
    let (y, m, d) = match parse_date(date) {
        Some(p) => p,
        None => {
            return Err(DecodeError::InvalidDate { raw: date.to_owned() });
        },
    };
    match local_wall_clock_ms(timezone, y, m, d, hour, 0, 0) {
        Some(ms) => Ok(ms),
        None => Err(DecodeError::InvalidDate { raw: date.to_owned() }),
    }
}

/// A required date attribute of a `section` record, read as the trading
/// day's 20:00 US Eastern close instant in epoch milliseconds.
pub open spec fn spec_eod_attr(e: ElemModel, section: Seq<char>, attribute: Seq<char>) -> Result<
    int,
    ErrorModel,
> {
    match spec_required_str(e, section, attribute) {
        Ok(v) => spec_timestamp_ms_at_hour(v, "America/New_York"@, 20),
        Err(er) => Err(er),
    }
}

/// Reads a required date attribute of a `section` record as the trading
/// day's close instant.
pub fn eod_attr(node: &Element, section: &str, attribute: &str) -> (r: Result<i64, DecodeError>)
    ensures
        match r {
            Ok(ms) => spec_eod_attr(node.deep_view(), section@, attribute@) == Ok::<
                int,
                ErrorModel,
            >(ms as int) && -400_000_000_000_000 <= ms <= 400_000_000_000_000,
            Err(e) => spec_eod_attr(node.deep_view(), section@, attribute@) == Err::<
                int,
                ErrorModel,
            >(e.deep_view()),
        },
{
    let raw = match node.get_attribute(section, attribute) {
        Ok(v) => v,
        Err(e) => {
            return Err(e);
        },
    };
    trading_eod_after_hours_timestamp_ms(raw.as_str())
}

/// The trading day's end-of-day instant: 20:00 US Eastern wall-clock time of
/// the given date, in epoch milliseconds.
pub fn trading_eod_after_hours_timestamp_ms(date: &str) -> (r: Result<i64, DecodeError>)
    ensures
        match r {
            Ok(ms) => spec_timestamp_ms_at_hour(date@, "America/New_York"@, 20) == Ok::<int, ErrorModel>(ms as int)
                && -400_000_000_000_000 <= ms <= 400_000_000_000_000,
            Err(e) => spec_timestamp_ms_at_hour(date@, "America/New_York"@, 20) == Err::<
                int,
                ErrorModel,
            >(e.deep_view()),
        },
{
    timestamp_ms_at_hour(date, "America/New_York", 20)
}

} // verus!
