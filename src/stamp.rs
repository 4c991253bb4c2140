use vstd::prelude::*;

use chrono::{Datelike, Timelike};

use crate::hours::{digits, logged_seconds, padded, push_digits, push_padded, rounded_seconds, Hours};

verus! {

/// A local calendar date and wall-clock time, to the second.
#[derive(Clone, Copy, Debug, PartialEq, Eq, Structural)]
pub struct LocalDateTime {
    pub year: i32,
    pub month: u32,
    pub day: u32,
    pub hour: u32,
    pub minute: u32,
    pub second: u32,
}

impl LocalDateTime {
    pub open spec fn wf(&self) -> bool {
        &&& 1 <= self.month <= 12
        &&& 1 <= self.day <= 31
        &&& self.hour < 24
        &&& self.minute < 60
        &&& self.second < 60
    }
}

/// The year as `%Y` writes it: four digits for years 0 to 9999, else a sign
/// and at least four digits.
pub open spec fn year_text(y: int) -> Seq<u8> {
    if 0 <= y <= 9999 {
        padded(y as nat, 4)
    } else {
        let sign: u8 = if y < 0 { 45u8 } else { 43u8 };
        let m: nat = if y < 0 { (-y) as nat } else { y as nat };
        seq![sign] + if m <= 9999 { padded(m, 4) } else { digits(m) }
    }
}

/// Days from 1970-01-01 to the date `y`-`m`-`d` of the proleptic Gregorian
/// calendar, counting in 400-year eras of 146 097 days, with years taken to
/// begin in March.
pub open spec fn days_from_civil(y: int, m: int, d: int) -> int {
    let yp = if m <= 2 { y - 1 } else { y };
    let era = yp / 400;
    let yoe = yp - era * 400;
    let mp = (m + 9) % 12;
    let doy = (153 * mp + 2) / 5 + d - 1;
    let doe = yoe * 365 + yoe / 4 - yoe / 100 + doy;
    era * 146_097 + doe - 719_468
}

/// The seconds from 1970-01-01 00:00:00 to the wall-clock time `t`, as if it
/// were in UTC.
pub open spec fn civil_seconds(t: LocalDateTime) -> int {
    days_from_civil(t.year as int, t.month as int, t.day as int) * 86_400 + t.hour as int * 3600
        + t.minute as int * 60 + t.second as int
}

/// Whether `t` is the wall-clock time, in some time zone, of the Unix time
/// `ts`: a zone's offset lies strictly within one day.
pub open spec fn near(t: LocalDateTime, ts: int) -> bool {
    -86_400 < civil_seconds(t) - ts < 86_400
}

/// `YYYY-MM-DD HH:MM:SS`.
pub open spec fn stamp_text(t: LocalDateTime) -> Seq<u8> {
    year_text(t.year as int) + seq![45u8] + padded(t.month as nat, 2) + seq![45u8] + padded(
        t.day as nat,
        2,
    ) + seq![32u8] + padded(t.hour as nat, 2) + seq![58u8] + padded(t.minute as nat, 2) + seq![
        58u8,
    ] + padded(t.second as nat, 2)
}

/// The timer marker: the time it was written, a space, and the adjusted start.
pub open spec fn marker_text(now: LocalDateTime, start: LocalDateTime) -> Seq<u8> {
    stamp_text(now) + seq![32u8] + stamp_text(start)
}

/// The start of a timer that has already run for the hours `h` at `now`:
/// `now` less `h` hours, to the second.
pub open spec fn adjusted_start_of(now: int, h: Hours) -> int {
    now - rounded_seconds(h.micros as int)
}

/// Seconds from the Unix epoch, either way, within which every instant has a
/// calendar date (some 253,000 years, inside chrono's years -262143 to 262142).
pub const CALENDAR_LIMIT: i64 = 8_000_000_000_000;

pub open spec fn in_calendar(ts: i64) -> bool {
    -CALENDAR_LIMIT <= ts <= CALENDAR_LIMIT
}

fn push_year(y: i32, out: &mut Vec<u8>)
    ensures
        final(out)@ == old(out)@ + year_text(y as int),
{
    if 0 <= y && y <= 9999 {
        push_padded(y as u128, 4, out);
    } else {
        let m: u128 = if y < 0 {
            out.push(45u8);
            (-(y as i64)) as u128
        } else {
            out.push(43u8);
            y as u128
        };
        if m <= 9999 {
            push_padded(m, 4, out);
        } else {
            push_digits(m, out);
        }
    }
    proof {
        assert(final(out)@ =~= old(out)@ + year_text(y as int));
    }
}

fn push_stamp(t: &LocalDateTime, out: &mut Vec<u8>)
    ensures
        final(out)@ == old(out)@ + stamp_text(*t),
{
    push_year(t.year, out);
    out.push(45u8);
    push_padded(t.month as u128, 2, out);
    out.push(45u8);
    push_padded(t.day as u128, 2, out);
    out.push(32u8);
    push_padded(t.hour as u128, 2, out);
    out.push(58u8);
    push_padded(t.minute as u128, 2, out);
    out.push(58u8);
    push_padded(t.second as u128, 2, out);
    proof {
        assert(final(out)@ =~= old(out)@ + stamp_text(*t));
    }
}

/// `YYYY-MM-DD HH:MM:SS` for `t`.
pub fn format_stamp(t: &LocalDateTime) -> (r: Vec<u8>)
    ensures
        r@ == stamp_text(*t),
{
    let mut out: Vec<u8> = Vec::new();
    push_stamp(t, &mut out);
    proof {
        assert(out@ =~= stamp_text(*t));
    }
    out
}

/// The text of the timer marker for the local times `now` and `start`.
pub fn format_marker(now: &LocalDateTime, start: &LocalDateTime) -> (r: Vec<u8>)
    ensures
        r@ == marker_text(*now, *start),
{
    let mut out: Vec<u8> = Vec::new();
    push_stamp(now, &mut out);
    out.push(32u8);
    push_stamp(start, &mut out);
    proof {
        assert(out@ =~= marker_text(*now, *start));
    }
    out
}

/// Relies on chrono's `DateTime::from_timestamp` and `DateTime::with_timezone`
/// with `Local`: the calendar date and wall-clock time, in the machine's time
/// zone, of a count of seconds since the Unix epoch, with the offset of that
/// zone (`FixedOffset::local_minus_utc`, strictly within one day); the local
/// time is the UTC time plus that offset. `None` only where the date falls
/// outside chrono's years.
#[verifier::external_body]
fn local_date_time(ts: i64) -> (r: Option<(LocalDateTime, i32)>)
    ensures
        r matches Some(p) ==> p.0.wf() && -86_400 < p.1 < 86_400
            && civil_seconds(p.0) == ts + p.1,
        in_calendar(ts) ==> r is Some,
{
    let l = chrono::DateTime::from_timestamp(ts, 0)?.with_timezone(&chrono::Local);
    let t = LocalDateTime {
        year: l.year(),
        month: l.month(),
        day: l.day(),
        hour: l.hour(),
        minute: l.minute(),
        second: l.second(),
    };
    Some((t, l.offset().local_minus_utc()))
}

/// The start of a timer that has run for the hours `logged` at the Unix time
/// `now`: `now` less `logged` hours, rounded to the second; `None` where that
/// does not fit in an `i64`.
pub fn adjusted_start(now: i64, logged: Hours) -> (r: Option<i64>)
    ensures
        i64::MIN <= adjusted_start_of(now as int, logged) <= i64::MAX ==> r == Some(
            adjusted_start_of(now as int, logged) as i64,
        ),
        !(i64::MIN <= adjusted_start_of(now as int, logged) <= i64::MAX) ==> r is None,
{
    let seconds: i64 = logged_seconds(logged);
    let start: i128 = now as i128 - seconds as i128;
    if start < i64::MIN as i128 || start > i64::MAX as i128 {
        None
    } else {
        Some(start as i64)
    }
}

/// The timer marker for the Unix times `now` and `start`, each in the
/// machine's local time; `None` only where a time is out of the calendar's
/// range. Where the two are one instant, the marker holds one stamp twice.
pub fn render_marker(now: i64, start: i64) -> (r: Option<Vec<u8>>)
    ensures
        in_calendar(now) && in_calendar(start) ==> r is Some,
        r matches Some(text) ==> exists|a: LocalDateTime, b: LocalDateTime|
            a.wf() && b.wf() && near(a, now as int) && near(b, start as int) && text@
                == marker_text(a, b),
        now == start ==> (r matches Some(text) ==> exists|a: LocalDateTime|
            a.wf() && near(a, now as int) && text@ == marker_text(a, a)),
{
    let a = match local_date_time(now) {
        Some(p) => p.0,
        None => {
            return None;
        },
    };
    let b = if now == start {
        a
    } else {
        match local_date_time(start) {
            Some(p) => p.0,
            None => {
                return None;
            },
        }
    };
    let text = format_marker(&a, &b);
    Some(text)
}

} // verus!
