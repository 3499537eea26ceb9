//! The battery block: an icon for the charging status, an urgency marker
//! when a discharging battery runs low, then the capacity in percent.

use vstd::prelude::*;
use vstd::string::*;

use crate::blocks::{Block, BlockModel, spec_poll};
use crate::text::{parse_num, spec_dec, spec_parse_num, str_eq, u64_to_string};

verus! {

pub const BATTERY_INTERVAL_MS: u64 = 30000;

/// What the battery source delivers: the raw contents of the `status` and
/// `capacity` pseudo-files.
pub struct BatteryReading {
    pub status: String,
    pub capacity: String,
}

/// The battery block.
pub struct Battery {
    last_run_ms: u64,
    text: String,
}

/// The icon for a charging-status line, matched whole, line end included.
pub open spec fn spec_battery_icon(status: Seq<char>) -> Seq<char> {
    if status == "Discharging\n"@ {
        "🔋"@
    } else if status == "Full\n"@ {
        "⚡"@
    } else if status == "Charging\n"@ {
        "🔌"@
    } else if status == "Not charging\n"@ {
        "🛑"@
    } else {
        "♻️"@
    }
}

/// The urgency marker: only a discharging battery that is not full carries
/// one, critical below fifteen percent, a warning below thirty.
pub open spec fn spec_battery_warn(status: Seq<char>, pct: int) -> Seq<char> {
    if status == "Discharging\n"@ && pct != 100 {
        if pct < 15 {
            "‼️"@
        } else if pct < 30 {
            "❗"@
        } else {
            Seq::<char>::empty()
        }
    } else {
        Seq::<char>::empty()
    }
}

/// The rendered battery text, or nothing when the capacity is malformed.
pub open spec fn spec_battery_text(status: Seq<char>, capacity: Seq<char>) -> Option<Seq<char>> {
    match spec_parse_num(capacity) {
        None => None,
        Some(v) => Some(
            spec_battery_icon(status) + spec_battery_warn(status, v as int) + spec_dec(v as int)
                + "%"@,
        ),
    }
}

/// What a poll attempt makes of what the source delivered: nothing when the
/// source was unreachable or its capacity malformed.
pub open spec fn spec_battery_outcome(reading: Option<BatteryReading>) -> Option<Seq<char>> {
    match reading {
        None => None,
        Some(r) => spec_battery_text(r.status@, r.capacity@),
    }
}

/// Renders the battery text from the raw `status` and `capacity` file
/// contents; `None` when the capacity is not a number.
pub fn battery_text(status: &str, capacity: &str) -> (r: Option<String>)
    ensures
        r is Some <==> spec_battery_text(status@, capacity@) is Some,
        r matches Some(t) ==> t@ == spec_battery_text(status@, capacity@).unwrap(),
{
    let pct = match parse_num(capacity) {
        None => {
            return None;
        },
        Some(v) => v,
    };
    let discharging = str_eq(status, "Discharging\n");
    let icon = if discharging {
        "🔋"
    } else if str_eq(status, "Full\n") {
        "⚡"
    } else if str_eq(status, "Charging\n") {
        "🔌"
    } else if str_eq(status, "Not charging\n") {
        "🛑"
    } else {
        "♻️"
    };
    let warn = if discharging && pct != 100 {
        if pct < 15 {
            "‼️"
        } else if pct < 30 {
            "❗"
        } else {
            ""
        }
    } else {
        ""
    };
    let mut s = String::from_str(icon);
    s.append(warn);
    let digits = u64_to_string(pct);
    s.append(digits.as_str());
    s.append("%");
    proof {
        reveal_strlit("");
        assert(s@ =~= spec_battery_text(status@, capacity@).unwrap());
    }
    Some(s)
}

impl Block for Battery {
    closed spec fn model(&self) -> BlockModel {
        BlockModel {
            interval_ms: BATTERY_INTERVAL_MS,
            last_run_ms: self.last_run_ms,
            text: self.text@,
        }
    }

    fn new() -> (b: Self) {
        Battery { last_run_ms: 0, text: String::new() }
    }

    fn frequency(&self) -> (r: u64) {
        BATTERY_INTERVAL_MS
    }

    fn due(&self, now_ms: u64) -> (r: bool) {
        now_ms >= self.last_run_ms && now_ms - self.last_run_ms >= BATTERY_INTERVAL_MS
    }

    fn get_text(&self) -> (t: String) {
        self.text.clone()
    }
}

/// The battery block's refresh cadence, fixed at construction.
pub proof fn lemma_battery_interval(b: &Battery)
    ensures
        b.model().interval_ms == BATTERY_INTERVAL_MS,
{
}

impl Battery {
    /// One poll attempt at time `now_ms`: `reading` is what the source
    /// delivered, or nothing when it was unreachable.
    pub fn update(&mut self, now_ms: u64, reading: Option<BatteryReading>) -> (ok: bool)
        ensures
            final(self).model() == spec_poll(
                old(self).model(),
                now_ms,
                spec_battery_outcome(reading),
            ),
            ok == (spec_battery_outcome(reading) is Some),
    {
        self.last_run_ms = now_ms;
        match reading {
            None => false,
            Some(r) => match battery_text(r.status.as_str(), r.capacity.as_str()) {
                None => false,
                Some(t) => {
                    self.text = t;
                    true
                },
            },
        }
    }
}

} // verus!
