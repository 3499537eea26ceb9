//! The volume block: a mute icon, or an icon tiered by the output level
//! followed by the level in percent.

use vstd::prelude::*;
use vstd::string::*;

use crate::blocks::{Block, BlockModel, spec_poll};
use crate::text::{parse_pct, spec_dec, spec_parse_pct, u64_to_string};

verus! {

pub const VOLUME_INTERVAL_MS: u64 = 100;

/// What the audio source delivers for the running output device: its mute
/// flag and the printed level of its first channel, such as `"45%"`.
pub struct VolumeReading {
    pub muted: bool,
    pub level: String,
}

/// The volume block.
pub struct Volume {
    last_run_ms: u64,
    text: String,
}

/// The icon tier: quiet below thirty percent, middling below sixty, loud
/// otherwise.
pub open spec fn spec_volume_icon(pct: int) -> Seq<char> {
    if pct < 30 {
        "🔈"@
    } else if pct < 60 {
        "🔉"@
    } else {
        "🔊"@
    }
}

/// The rendered volume text: the mute icon alone when muted, else the tier
/// icon and the level; nothing when the level is malformed.
pub open spec fn spec_volume_text(muted: bool, level: Seq<char>) -> Option<Seq<char>> {
    if muted {
        Some("🔇"@)
    } else {
        match spec_parse_pct(level) {
            None => None,
            Some(v) => Some(spec_volume_icon(v as int) + spec_dec(v as int) + "%"@),
        }
    }
}

/// What a poll attempt makes of what the source delivered.
pub open spec fn spec_volume_outcome(reading: Option<VolumeReading>) -> Option<Seq<char>> {
    match reading {
        None => None,
        Some(r) => spec_volume_text(r.muted, r.level@),
    }
}

/// Renders the volume text from the device's mute flag and printed level;
/// `None` when the level is not a percentage.
pub fn volume_text(muted: bool, level: &str) -> (r: Option<String>)
    ensures
        r is Some <==> spec_volume_text(muted, level@) is Some,
        r matches Some(t) ==> t@ == spec_volume_text(muted, level@).unwrap(),
{
    if muted {
        return Some(String::from_str("🔇"));
    }
    let v = match parse_pct(level) {
        None => {
            return None;
        },
        Some(v) => v,
    };
    let icon = if v < 30 {
        "🔈"
    } else if v < 60 {
        "🔉"
    } else {
        "🔊"
    };
    let mut s = String::from_str(icon);
    let digits = u64_to_string(v);
    s.append(digits.as_str());
    s.append("%");
    Some(s)
}

impl Block for Volume {
    closed spec fn model(&self) -> BlockModel {
        BlockModel {
            interval_ms: VOLUME_INTERVAL_MS,
            last_run_ms: self.last_run_ms,
            text: self.text@,
        }
    }

    fn new() -> (b: Self) {
        Volume { last_run_ms: 0, text: String::new() }
    }

    fn frequency(&self) -> (r: u64) {
        VOLUME_INTERVAL_MS
    }

    fn due(&self, now_ms: u64) -> (r: bool) {
        now_ms >= self.last_run_ms && now_ms - self.last_run_ms >= VOLUME_INTERVAL_MS
    }

    fn get_text(&self) -> (t: String) {
        self.text.clone()
    }
}

/// The volume block's refresh cadence, fixed at construction.
pub proof fn lemma_volume_interval(b: &Volume)
    ensures
        b.model().interval_ms == VOLUME_INTERVAL_MS,
{
}

impl Volume {
    /// One poll attempt at time `now_ms`: `reading` is what the source
    /// delivered, or nothing when no running device could be queried.
    pub fn update(&mut self, now_ms: u64, reading: Option<VolumeReading>) -> (ok: bool)
        ensures
            final(self).model() == spec_poll(
                old(self).model(),
                now_ms,
                spec_volume_outcome(reading),
            ),
            ok == (spec_volume_outcome(reading) is Some),
    {
        self.last_run_ms = now_ms;
        match reading {
            None => false,
            Some(r) => match volume_text(r.muted, r.level.as_str()) {
                None => false,
                Some(t) => {
                    self.text = t;
                    true
                },
            },
        }
    }
}

} // verus!
