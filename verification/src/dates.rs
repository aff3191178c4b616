//! The date/time decoder: reads `D.M.YY, HH:MM` wall-clock text, interprets
//! it in the Europe/Berlin time zone and normalizes it to a UTC instant.
//!
//! The two-digit year is taken as `2000 + YY`; years outside 2000..=2099 are
//! unrepresentable. At a DST overlap the earliest valid offset is taken; a
//! wall-clock time inside a DST gap is rejected.

use vstd::prelude::*;

use crate::scan::{parse_uint, sp_tag, sp_uint, str_chars, tag_from};
use chrono::TimeZone;

verus! {

/// A leap year of the proleptic Gregorian calendar.
pub open spec fn is_leap_year(y: int) -> bool {
    (y % 4 == 0 && y % 100 != 0) || y % 400 == 0
}

/// Number of days of month `m` in year `y`.
pub open spec fn days_in_month(y: int, m: int) -> int {
    if m == 2 {
        if is_leap_year(y) {
            29
        } else {
            28
        }
    } else if m == 4 || m == 6 || m == 9 || m == 11 {
        30
    } else {
        31
    }
}

/// A representable wall-clock time: a real calendar date between 2000 and
/// 2099 with an in-range hour and minute.
pub open spec fn valid_civil(y: int, m: int, d: int, h: int, min: int) -> bool {
    &&& 2000 <= y <= 2099
    &&& 1 <= m <= 12
    &&& 1 <= d <= days_in_month(y, m)
    &&& 0 <= h <= 23
    &&& 0 <= min <= 59
}

/// Seconds since the Unix epoch, in UTC, of the given wall-clock time read
/// in the Europe/Berlin time zone; `None` when the zone has no such local
/// time. The value depends on the arguments alone.
pub uninterp spec fn utc_of_berlin(y: int, m: int, d: int, h: int, min: int) -> Option<int>;

/// Relies on chrono's `TimeZone::with_ymd_and_hms` applied to chrono-tz's
/// `Europe::Berlin`: it resolves a wall-clock time in that zone (the
/// earliest offset is taken when DST repeats the time) and converts it to a
/// UTC timestamp; it yields `None` when the calendar date is invalid or the
/// local time falls in a DST gap.
#[verifier::external_body]
fn berlin_to_utc(y: i32, m: u32, d: u32, h: u32, min: u32) -> (r: Option<i64>)
    ensures
        match r {
            Some(t) => utc_of_berlin(y as int, m as int, d as int, h as int, min as int) == Some(
                t as int,
            ),
            None => utc_of_berlin(y as int, m as int, d as int, h as int, min as int) is None,
        },
{
    chrono_tz::Europe::Berlin.with_ymd_and_hms(y, m, d, h, min, 0).earliest().map(
        |dt| dt.timestamp(),
    )
}

/// Reading a date/time at `pos`: the five numeric components with their
/// literal separators, the range checks, and the zone conversion. Yields the
/// UTC instant and the position after the minute's digit run.
pub open spec fn sp_date(s: Seq<char>, pos: int) -> Option<(int, int)> {
    match sp_uint(s, pos, u32::MAX as int) {
        None => None,
        Some((day, p1)) => match sp_tag(s, p1, "."@) {
            None => None,
            Some(p2) => match sp_uint(s, p2, u32::MAX as int) {
                None => None,
                Some((month, p3)) => match sp_tag(s, p3, "."@) {
                    None => None,
                    Some(p4) => match sp_uint(s, p4, u32::MAX as int) {
                        None => None,
                        Some((year, p5)) => match sp_tag(s, p5, ", "@) {
                            None => None,
                            Some(p6) => match sp_uint(s, p6, u32::MAX as int) {
                                None => None,
                                Some((hour, p7)) => match sp_tag(s, p7, ":"@) {
                                    None => None,
                                    Some(p8) => match sp_uint(s, p8, u32::MAX as int) {
                                        None => None,
                                        Some((minute, p9)) => {
                                            if valid_civil(
                                                2000 + year,
                                                month,
                                                day,
                                                hour,
                                                minute,
                                            ) {
                                                match utc_of_berlin(
                                                    2000 + year,
                                                    month,
                                                    day,
                                                    hour,
                                                    minute,
                                                ) {
                                                    Some(t) => Some((t, p9)),
                                                    None => None,
                                                }
                                            } else {
                                                None
                                            }
                                        },
                                    },
                                },
                            },
                        },
                    },
                },
            },
        },
    }
}

/// A successfully read date/time ends strictly after `pos` and inside `s`.
pub proof fn lemma_date_bounds(s: Seq<char>, pos: int)
    requires
        0 <= pos <= s.len(),
    ensures
        match sp_date(s, pos) {
            Some(tp) => pos < tp.1 <= s.len(),
            None => true,
        },
{
    let cap = u32::MAX as int;
    if let Some((_d, p1)) = sp_uint(s, pos, cap) {
        crate::scan::lemma_digit_run_bounds(s, pos);
        if let Some(p2) = sp_tag(s, p1, "."@) {
            if let Some((_m, p3)) = sp_uint(s, p2, cap) {
                crate::scan::lemma_digit_run_bounds(s, p2);
                if let Some(p4) = sp_tag(s, p3, "."@) {
                    if let Some((_y, p5)) = sp_uint(s, p4, cap) {
                        crate::scan::lemma_digit_run_bounds(s, p4);
                        if let Some(p6) = sp_tag(s, p5, ", "@) {
                            if let Some((_h, p7)) = sp_uint(s, p6, cap) {
                                crate::scan::lemma_digit_run_bounds(s, p6);
                                if let Some(p8) = sp_tag(s, p7, ":"@) {
                                    if let Some((_min, p9)) = sp_uint(s, p8, cap) {
                                        crate::scan::lemma_digit_run_bounds(s, p8);
                                    }
                                }
                            }
                        }
                    }
                }
            }
        }
    }
}

/// Executable form of [`days_in_month`].
pub fn days_in_month_of(y: u32, m: u32) -> (r: u32)
    ensures
        r == days_in_month(y as int, m as int),
{
    if m == 2 {
        if (y % 4 == 0 && y % 100 != 0) || y % 400 == 0 {
            29
        } else {
            28
        }
    } else if m == 4 || m == 6 || m == 9 || m == 11 {
        30
    } else {
        31
    }
}

/// Reads a `D.M.YY, HH:MM` date/time at `pos` and converts it to a UTC
/// instant: the executable form of [`sp_date`].
pub fn parse_date(s: &[char], pos: usize) -> (r: Option<(i64, usize)>)
    requires
        pos <= s@.len(),
    ensures
        match r {
            Some(tp) => sp_date(s@, pos as int) == Some((tp.0 as int, tp.1 as int)) && pos < tp.1
                <= s@.len(),
            None => sp_date(s@, pos as int) is None,
        },
{
    let dot = str_chars(".");
    let comma = str_chars(", ");
    let colon = str_chars(":");
    let cap: u64 = u32::MAX as u64;
    let (day, p1) = match parse_uint(s, pos, cap) {
        Some(x) => x,
        None => {
            return None;
        },
    };
    let p2 = match tag_from(s, p1, dot.as_slice()) {
        Some(x) => x,
        None => {
            return None;
        },
    };
    let (month, p3) = match parse_uint(s, p2, cap) {
        Some(x) => x,
        None => {
            return None;
        },
    };
    let p4 = match tag_from(s, p3, dot.as_slice()) {
        Some(x) => x,
        None => {
            return None;
        },
    };
    let (year, p5) = match parse_uint(s, p4, cap) {
        Some(x) => x,
        None => {
            return None;
        },
    };
    let p6 = match tag_from(s, p5, comma.as_slice()) {
        Some(x) => x,
        None => {
            return None;
        },
    };
    let (hour, p7) = match parse_uint(s, p6, cap) {
        Some(x) => x,
        None => {
            return None;
        },
    };
    let p8 = match tag_from(s, p7, colon.as_slice()) {
        Some(x) => x,
        None => {
            return None;
        },
    };
    let (minute, p9) = match parse_uint(s, p8, cap) {
        Some(x) => x,
        None => {
            return None;
        },
    };
    let day = day as u32;
    let month = month as u32;
    let year = year as u32;
    let hour = hour as u32;
    let minute = minute as u32;
    if year > 99 || month < 1 || month > 12 || day < 1 || day > days_in_month_of(
        2000 + year,
        month,
    ) || hour > 23 || minute > 59 {
        return None;
    }
    match berlin_to_utc(2000 + year as i32, month, day, hour, minute) {
        Some(t) => Some((t, p9)),
        None => None,
    }
}

} // verus!
