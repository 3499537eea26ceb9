//! The clock block: weekday, day and month abbreviation, a clock-face icon
//! keyed by the local hour, the local time, and the hour in universal time.
//!
//! Reading the wall clock is the runner's business: the clock library's
//! local-time path can abort the process on a hostile clock or timezone
//! state, which no verified function of this crate may do, so the raw
//! reading arrives here as plain fields.  The block validates them and
//! treats an unreadable or out-of-range reading as a failed poll, like any
//! other unavailable source.

use vstd::prelude::*;
use vstd::string::*;

use crate::blocks::{Block, BlockModel, spec_poll};
use crate::text::{spec_two_dec, two_digits};

verus! {

pub const TIME_INTERVAL_MS: u64 = 1000;

/// A local wall-clock instant broken into the plain fields the clock text
/// needs.  `weekday` counts from Monday as zero.
pub struct TimeParts {
    pub weekday: u8,
    pub day: u8,
    pub month: u8,
    pub hour: u8,
    pub minute: u8,
    pub second: u8,
}

impl TimeParts {
    /// Field bounds as the calendar and the clock keep them.
    pub open spec fn wf(&self) -> bool {
        self.weekday < 7 && 1 <= self.day <= 31 && 1 <= self.month <= 12 && self.hour < 24
            && self.minute < 60 && self.second < 60
    }

    /// Whether the fields lie within the calendar's and the clock's bounds.
    pub fn check(&self) -> (r: bool)
        ensures
            r == self.wf(),
    {
        self.weekday < 7 && 1 <= self.day && self.day <= 31 && 1 <= self.month && self.month <= 12
            && self.hour < 24 && self.minute < 60 && self.second < 60
    }
}

/// What the clock source delivers: the local instant's fields and the hour
/// in universal time.
pub struct TimeReading {
    pub local: TimeParts,
    pub utc_hour: u8,
}

/// The clock block.
pub struct Time {
    last_run_ms: u64,
    text: String,
}

/// The three-letter English weekday name, Monday first.
pub open spec fn spec_weekday_abbrev(w: int) -> Seq<char>
    recommends
        0 <= w < 7,
{
    if w == 0 {
        "Mon"@
    } else if w == 1 {
        "Tue"@
    } else if w == 2 {
        "Wed"@
    } else if w == 3 {
        "Thu"@
    } else if w == 4 {
        "Fri"@
    } else if w == 5 {
        "Sat"@
    } else {
        "Sun"@
    }
}

/// The three-letter English month name, January as one.
pub open spec fn spec_month_abbrev(m: int) -> Seq<char>
    recommends
        1 <= m <= 12,
{
    if m == 1 {
        "Jan"@
    } else if m == 2 {
        "Feb"@
    } else if m == 3 {
        "Mar"@
    } else if m == 4 {
        "Apr"@
    } else if m == 5 {
        "May"@
    } else if m == 6 {
        "Jun"@
    } else if m == 7 {
        "Jul"@
    } else if m == 8 {
        "Aug"@
    } else if m == 9 {
        "Sep"@
    } else if m == 10 {
        "Oct"@
    } else if m == 11 {
        "Nov"@
    } else {
        "Dec"@
    }
}

/// The clock face for an hour: the face for one through eleven o'clock, and
/// the twelve o'clock face when the hour is divisible by twelve.
pub open spec fn spec_clock_icon(hour: int) -> Seq<char>
    recommends
        0 <= hour < 24,
{
    let k = hour % 12;
    if k == 1 {
        "🕐"@
    } else if k == 2 {
        "🕑"@
    } else if k == 3 {
        "🕒"@
    } else if k == 4 {
        "🕓"@
    } else if k == 5 {
        "🕔"@
    } else if k == 6 {
        "🕕"@
    } else if k == 7 {
        "🕖"@
    } else if k == 8 {
        "🕗"@
    } else if k == 9 {
        "🕘"@
    } else if k == 10 {
        "🕙"@
    } else if k == 11 {
        "🕚"@
    } else {
        "🕛"@
    }
}

/// The whole clock text: weekday, zero-padded day, month, the clock face,
/// the local time, and the hour in universal time.
pub open spec fn spec_clock_text(p: TimeParts, utc_hour: u8) -> Seq<char>
    recommends
        p.wf(),
        utc_hour < 24,
{
    spec_weekday_abbrev(p.weekday as int) + " "@ + spec_two_dec(p.day as int) + " "@
        + spec_month_abbrev(p.month as int) + " "@ + spec_clock_icon(p.hour as int) + spec_two_dec(
        p.hour as int,
    ) + ":"@ + spec_two_dec(p.minute as int) + ":"@ + spec_two_dec(p.second as int) + " - "@
        + spec_two_dec(utc_hour as int)
}

fn weekday_abbrev(w: u8) -> (r: &'static str)
    requires
        w < 7,
    ensures
        r@ == spec_weekday_abbrev(w as int),
{
    match w {
        0 => "Mon",
        1 => "Tue",
        2 => "Wed",
        3 => "Thu",
        4 => "Fri",
        5 => "Sat",
        _ => "Sun",
    }
}

fn month_abbrev(m: u8) -> (r: &'static str)
    requires
        1 <= m <= 12,
    ensures
        r@ == spec_month_abbrev(m as int),
{
    match m {
        1 => "Jan",
        2 => "Feb",
        3 => "Mar",
        4 => "Apr",
        5 => "May",
        6 => "Jun",
        7 => "Jul",
        8 => "Aug",
        9 => "Sep",
        10 => "Oct",
        11 => "Nov",
        _ => "Dec",
    }
}

fn clock_icon(hour: u8) -> (r: &'static str)
    requires
        hour < 24,
    ensures
        r@ == spec_clock_icon(hour as int),
{
    let k = hour % 12;
    match k {
        1 => "🕐",
        2 => "🕑",
        3 => "🕒",
        4 => "🕓",
        5 => "🕔",
        6 => "🕕",
        7 => "🕖",
        8 => "🕗",
        9 => "🕘",
        10 => "🕙",
        11 => "🕚",
        _ => "🕛",
    }
}

/// Renders the clock text from an instant's plain fields.
pub fn clock_render(p: &TimeParts, utc_hour: u8) -> (r: String)
    requires
        p.wf(),
        utc_hour < 24,
    ensures
        r@ == spec_clock_text(*p, utc_hour),
{
    let mut s = String::from_str(weekday_abbrev(p.weekday));
    s.append(" ");
    let day = two_digits(p.day as u64);
    s.append(day.as_str());
    s.append(" ");
    s.append(month_abbrev(p.month));
    s.append(" ");
    s.append(clock_icon(p.hour));
    let hh = two_digits(p.hour as u64);
    s.append(hh.as_str());
    s.append(":");
    let mm = two_digits(p.minute as u64);
    s.append(mm.as_str());
    s.append(":");
    let ss = two_digits(p.second as u64);
    s.append(ss.as_str());
    s.append(" - ");
    let uu = two_digits(utc_hour as u64);
    s.append(uu.as_str());
    proof {
        assert(s@ =~= spec_clock_text(*p, utc_hour));
    }
    s
}

/// What a poll attempt makes of what the source delivered: nothing when the
/// clock could not be read, or when the reading's fields lie outside the
/// calendar's and the clock's bounds.
pub open spec fn spec_clock_outcome(reading: Option<TimeReading>) -> Option<Seq<char>> {
    match reading {
        None => None,
        Some(r) => if r.local.wf() && r.utc_hour < 24 {
            Some(spec_clock_text(r.local, r.utc_hour))
        } else {
            None
        },
    }
}

impl Block for Time {
    closed spec fn model(&self) -> BlockModel {
        BlockModel {
            interval_ms: TIME_INTERVAL_MS,
            last_run_ms: self.last_run_ms,
            text: self.text@,
        }
    }

    fn new() -> (b: Self) {
        Time { last_run_ms: 0, text: String::new() }
    }

    fn frequency(&self) -> (r: u64) {
        TIME_INTERVAL_MS
    }

    fn due(&self, now_ms: u64) -> (r: bool) {
        now_ms >= self.last_run_ms && now_ms - self.last_run_ms >= TIME_INTERVAL_MS
    }

    fn get_text(&self) -> (t: String) {
        self.text.clone()
    }
}

/// The clock block's refresh cadence, fixed at construction.
pub proof fn lemma_time_interval(b: &Time)
    ensures
        b.model().interval_ms == TIME_INTERVAL_MS,
{
}

impl Time {
    /// One poll attempt at time `now_ms`: `reading` is what the clock source
    /// delivered, or nothing when it could not be read.
    pub fn update(&mut self, now_ms: u64, reading: Option<TimeReading>) -> (ok: bool)
        ensures
            final(self).model() == spec_poll(
                old(self).model(),
                now_ms,
                spec_clock_outcome(reading),
            ),
            ok == (spec_clock_outcome(reading) is Some),
    {
        self.last_run_ms = now_ms;
        match reading {
            None => false,
            Some(r) => {
                if r.local.check() && r.utc_hour < 24 {
                    let t = clock_render(&r.local, r.utc_hour);
                    self.text = t;
                    true
                } else {
                    false
                }
            },
        }
    }
}

} // verus!
