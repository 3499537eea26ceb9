//! The bar: the fixed, ordered set of blocks, the sweep protocol that polls
//! the ones that are due, and the composition of the published line.
//!
//! A sweep runs as the runner's loop does: for each block in construction
//! order, the caller asks whether it is due, fetches the raw source values
//! for the due ones, and hands them to the matching sweep method; the bar
//! records whether any block's text changed.  `finish_sweep` then yields the
//! freshly composed line exactly when something changed, so identical sweeps
//! publish nothing.

use vstd::prelude::*;
use vstd::string::*;

use crate::blocks::battery::{
    lemma_battery_interval, spec_battery_outcome, Battery, BatteryReading, BATTERY_INTERVAL_MS,
};
use crate::blocks::internet::{
    lemma_internet_interval, spec_network_outcome, Internet, INTERNET_INTERVAL_MS,
};
use crate::blocks::time::{lemma_time_interval, spec_clock_outcome, Time, TimeReading, TIME_INTERVAL_MS};
use crate::blocks::volume::{
    lemma_volume_interval, spec_volume_outcome, Volume, VolumeReading, VOLUME_INTERVAL_MS,
};
use crate::blocks::{Block, BlockModel, spec_due, spec_poll, spec_poll_changed};

verus! {

/// The join of the given texts with the fixed separator between them, in
/// the given order.
pub open spec fn spec_join(ts: Seq<Seq<char>>) -> Seq<char>
    decreases ts.len(),
{
    if ts.len() == 0 {
        Seq::<char>::empty()
    } else if ts.len() == 1 {
        ts.first()
    } else {
        ts.first() + "|"@ + spec_join(ts.drop_first())
    }
}

/// The least element of a nonempty sequence.
pub open spec fn min_of(s: Seq<u64>) -> u64
    recommends
        s.len() >= 1,
    decreases s.len(),
{
    if s.len() <= 1 {
        s.first()
    } else {
        let m = min_of(s.drop_last());
        if s.last() < m {
            s.last()
        } else {
            m
        }
    }
}

pub proof fn lemma_min_of_le(s: Seq<u64>, i: int)
    requires
        1 <= s.len(),
        0 <= i < s.len(),
    ensures
        min_of(s) <= s[i],
    decreases s.len(),
{
    if s.len() > 1 && i < s.len() - 1 {
        lemma_min_of_le(s.drop_last(), i);
    }
}

pub proof fn lemma_min_of_attained(s: Seq<u64>)
    requires
        1 <= s.len(),
    ensures
        exists|i: int| 0 <= i < s.len() && min_of(s) == s[i],
    decreases s.len(),
{
    if s.len() == 1 {
        assert(min_of(s) == s[0]);
    } else {
        lemma_min_of_attained(s.drop_last());
        let j = choose|j: int|
            0 <= j < s.drop_last().len() && min_of(s.drop_last()) == s.drop_last()[j];
        if s.last() < min_of(s.drop_last()) {
            assert(min_of(s) == s[s.len() - 1]);
        } else {
            assert(min_of(s) == s[j]);
        }
    }
}

/// A lower bound that is attained pins the least element down.
pub proof fn lemma_min_of_pinned(s: Seq<u64>, v: u64)
    requires
        1 <= s.len(),
        forall|i: int| 0 <= i < s.len() ==> v <= s[i],
        exists|i: int| 0 <= i < s.len() && s[i] == v,
    ensures
        min_of(s) == v,
{
    lemma_min_of_attained(s);
    let k = choose|k: int| 0 <= k < s.len() && min_of(s) == s[k];
    let j = choose|j: int| 0 <= j < s.len() && s[j] == v;
    lemma_min_of_le(s, j);
}

/// Changing one interval that is not the minimum, to a value no smaller
/// than the minimum, leaves the minimum — and with it the sleep interval —
/// unchanged.
pub proof fn lemma_min_of_update(s: Seq<u64>, j: int, v: u64)
    requires
        1 <= s.len(),
        0 <= j < s.len(),
        s[j] != min_of(s),
        min_of(s) <= v,
    ensures
        min_of(s.update(j, v)) == min_of(s),
{
    let m = min_of(s);
    lemma_min_of_attained(s);
    let k = choose|k: int| 0 <= k < s.len() && m == s[k];
    let u = s.update(j, v);
    assert(u[k] == m);
    assert forall|i: int| 0 <= i < u.len() implies m <= u[i] by {
        if i != j {
            lemma_min_of_le(s, i);
        }
    }
    lemma_min_of_pinned(u, m);
}

/// The composed line lists the four texts in construction order with the
/// separator between them — whatever subset of blocks last changed.
pub proof fn lemma_compose_order(ts: Seq<Seq<char>>)
    requires
        ts.len() == 4,
    ensures
        spec_join(ts) == ts[0] + "|"@ + (ts[1] + "|"@ + (ts[2] + "|"@ + ts[3])),
{
    assert(ts.drop_first() =~= seq![ts[1], ts[2], ts[3]]);
    assert(seq![ts[1], ts[2], ts[3]].drop_first() =~= seq![ts[2], ts[3]]);
    assert(seq![ts[2], ts[3]].drop_first() =~= seq![ts[3]]);
    assert(spec_join(seq![ts[3]]) == ts[3]);
    assert(spec_join(seq![ts[2], ts[3]]) == ts[2] + "|"@ + ts[3]);
    assert(spec_join(seq![ts[1], ts[2], ts[3]]) == ts[1] + "|"@ + (ts[2] + "|"@ + ts[3]));
}

/// A sweep in which every poll outcome either fails or reproduces the
/// block's current text records no change at any block; by `finish_sweep`'s
/// contract such a sweep publishes nothing, so a line is published at most
/// once and not again until some block's text actually changes.
pub proof fn lemma_unchanged_sweep_is_silent(ms: Seq<BlockModel>, outs: Seq<Option<Seq<char>>>)
    requires
        ms.len() == outs.len(),
        forall|i: int|
            0 <= i < ms.len() ==> ((#[trigger] outs[i]) matches Some(t) ==> t == ms[i].text),
    ensures
        forall|i: int| 0 <= i < ms.len() ==> !spec_poll_changed(ms[i], outs[i]),
{
    assert forall|i: int| 0 <= i < ms.len() implies !spec_poll_changed(ms[i], outs[i]) by {
        match outs[i] {
            Some(t) => {
                assert(outs[i] matches Some(t2) ==> t2 == ms[i].text);
            },
            None => {},
        }
    }
}

/// The bar: the four blocks in construction order and the record of whether
/// any of them changed since the line was last composed.
pub struct Bar {
    volume: Volume,
    battery: Battery,
    time: Time,
    internet: Internet,
    pending: bool,
}

impl Bar {
    /// The blocks' states in construction order: volume, battery, clock,
    /// network.
    pub closed spec fn models(&self) -> Seq<BlockModel> {
        seq![
            self.volume.model(),
            self.battery.model(),
            self.time.model(),
            self.internet.model(),
        ]
    }

    /// The blocks' rendered texts in construction order.
    pub open spec fn texts(&self) -> Seq<Seq<char>> {
        self.models().map_values(|m: BlockModel| m.text)
    }

    /// The blocks' refresh intervals in construction order.
    pub open spec fn intervals(&self) -> Seq<u64> {
        self.models().map_values(|m: BlockModel| m.interval_ms)
    }

    /// Whether some block changed since the line was last composed.
    pub closed spec fn pending_spec(&self) -> bool {
        self.pending
    }

    /// A fresh bar: every block new at its fixed cadence, nothing pending.
    pub fn new() -> (b: Bar)
        ensures
            b.models().len() == 4,
            forall|i: int|
                0 <= i < 4 ==> b.models()[i].interval_ms >= 1 && b.models()[i].last_run_ms == 0
                    && b.models()[i].text == Seq::<char>::empty(),
            b.intervals() == seq![
                VOLUME_INTERVAL_MS,
                BATTERY_INTERVAL_MS,
                TIME_INTERVAL_MS,
                INTERNET_INTERVAL_MS,
            ],
            min_of(b.intervals()) == VOLUME_INTERVAL_MS,
            !b.pending_spec(),
    {
        let bar = Bar {
            volume: <Volume as Block>::new(),
            battery: <Battery as Block>::new(),
            time: <Time as Block>::new(),
            internet: <Internet as Block>::new(),
            pending: false,
        };
        proof {
            lemma_volume_interval(&bar.volume);
            lemma_battery_interval(&bar.battery);
            lemma_time_interval(&bar.time);
            lemma_internet_interval(&bar.internet);
            let s = bar.intervals();
            assert(s =~= seq![
                VOLUME_INTERVAL_MS,
                BATTERY_INTERVAL_MS,
                TIME_INTERVAL_MS,
                INTERNET_INTERVAL_MS,
            ]);
            assert(s.drop_last() =~= seq![
                VOLUME_INTERVAL_MS,
                BATTERY_INTERVAL_MS,
                TIME_INTERVAL_MS,
            ]);
            assert(seq![VOLUME_INTERVAL_MS, BATTERY_INTERVAL_MS, TIME_INTERVAL_MS].drop_last()
                =~= seq![VOLUME_INTERVAL_MS, BATTERY_INTERVAL_MS]);
            assert(seq![VOLUME_INTERVAL_MS, BATTERY_INTERVAL_MS].drop_last() =~= seq![
                VOLUME_INTERVAL_MS,
            ]);
            assert(min_of(seq![VOLUME_INTERVAL_MS]) == VOLUME_INTERVAL_MS);
            assert(min_of(seq![VOLUME_INTERVAL_MS, BATTERY_INTERVAL_MS]) == VOLUME_INTERVAL_MS);
            assert(min_of(seq![VOLUME_INTERVAL_MS, BATTERY_INTERVAL_MS, TIME_INTERVAL_MS])
                == VOLUME_INTERVAL_MS);
            assert(min_of(s) == VOLUME_INTERVAL_MS);
        }
        bar
    }

    /// The interval the runner sleeps for between sweeps: the least refresh
    /// interval over all blocks.
    pub fn sleep_ms(&self) -> (r: u64)
        ensures
            r == min_of(self.intervals()),
    {
        let a = self.volume.frequency();
        let b = self.battery.frequency();
        let c = self.time.frequency();
        let d = self.internet.frequency();
        let mut m = a;
        if b < m {
            m = b;
        }
        if c < m {
            m = c;
        }
        if d < m {
            m = d;
        }
        proof {
            let s = self.intervals();
            assert(s =~= seq![a, b, c, d]);
            assert(seq![a, b, c, d].drop_last() =~= seq![a, b, c]);
            assert(seq![a, b, c].drop_last() =~= seq![a, b]);
            assert(seq![a, b].drop_last() =~= seq![a]);
            assert(min_of(seq![a]) == a);
            assert(min_of(seq![a, b]) == if b < a {
                b
            } else {
                a
            });
            assert(min_of(seq![a, b, c]) == if c < min_of(seq![a, b]) {
                c
            } else {
                min_of(seq![a, b])
            });
            assert(min_of(seq![a, b, c, d]) == if d < min_of(seq![a, b, c]) {
                d
            } else {
                min_of(seq![a, b, c])
            });
        }
        m
    }

    pub fn volume_due(&self, now_ms: u64) -> (r: bool)
        ensures
            r == spec_due(self.models()[0], now_ms),
    {
        self.volume.due(now_ms)
    }

    pub fn battery_due(&self, now_ms: u64) -> (r: bool)
        ensures
            r == spec_due(self.models()[1], now_ms),
    {
        self.battery.due(now_ms)
    }

    pub fn time_due(&self, now_ms: u64) -> (r: bool)
        ensures
            r == spec_due(self.models()[2], now_ms),
    {
        self.time.due(now_ms)
    }

    pub fn internet_due(&self, now_ms: u64) -> (r: bool)
        ensures
            r == spec_due(self.models()[3], now_ms),
    {
        self.internet.due(now_ms)
    }

    /// Polls the volume block inside a sweep.  Only a due block is polled;
    /// a block that is not due is skipped entirely.
    pub fn sweep_volume(&mut self, now_ms: u64, reading: Option<VolumeReading>) -> (ok: bool)
        requires
            spec_due(old(self).models()[0], now_ms),
        ensures
            final(self).models() == old(self).models().update(
                0,
                spec_poll(old(self).models()[0], now_ms, spec_volume_outcome(reading)),
            ),
            final(self).pending_spec() == (old(self).pending_spec() || spec_poll_changed(
                old(self).models()[0],
                spec_volume_outcome(reading),
            )),
            ok == (spec_volume_outcome(reading) is Some),
    {
        let before = self.volume.get_text();
        let ok = self.volume.update(now_ms, reading);
        let after = self.volume.get_text();
        if !(before == after) {
            self.pending = true;
        }
        proof {
            assert(self.models() =~= old(self).models().update(
                0,
                spec_poll(old(self).models()[0], now_ms, spec_volume_outcome(reading)),
            ));
        }
        ok
    }

    /// Polls the battery block inside a sweep.
    pub fn sweep_battery(&mut self, now_ms: u64, reading: Option<BatteryReading>) -> (ok: bool)
        requires
            spec_due(old(self).models()[1], now_ms),
        ensures
            final(self).models() == old(self).models().update(
                1,
                spec_poll(old(self).models()[1], now_ms, spec_battery_outcome(reading)),
            ),
            final(self).pending_spec() == (old(self).pending_spec() || spec_poll_changed(
                old(self).models()[1],
                spec_battery_outcome(reading),
            )),
            ok == (spec_battery_outcome(reading) is Some),
    {
        let before = self.battery.get_text();
        let ok = self.battery.update(now_ms, reading);
        let after = self.battery.get_text();
        if !(before == after) {
            self.pending = true;
        }
        proof {
            assert(self.models() =~= old(self).models().update(
                1,
                spec_poll(old(self).models()[1], now_ms, spec_battery_outcome(reading)),
            ));
        }
        ok
    }

    /// Polls the clock block inside a sweep.
    pub fn sweep_time(&mut self, now_ms: u64, reading: Option<TimeReading>) -> (ok: bool)
        requires
            spec_due(old(self).models()[2], now_ms),
        ensures
            final(self).models() == old(self).models().update(
                2,
                spec_poll(old(self).models()[2], now_ms, spec_clock_outcome(reading)),
            ),
            final(self).pending_spec() == (old(self).pending_spec() || spec_poll_changed(
                old(self).models()[2],
                spec_clock_outcome(reading),
            )),
            ok == (spec_clock_outcome(reading) is Some),
    {
        let before = self.time.get_text();
        let ok = self.time.update(now_ms, reading);
        let after = self.time.get_text();
        if !(before == after) {
            self.pending = true;
        }
        proof {
            assert(self.models() =~= old(self).models().update(
                2,
                spec_poll(old(self).models()[2], now_ms, spec_clock_outcome(reading)),
            ));
        }
        ok
    }

    /// Polls the network block inside a sweep.
    pub fn sweep_internet(&mut self, now_ms: u64, kinds: Option<Vec<String>>) -> (ok: bool)
        requires
            spec_due(old(self).models()[3], now_ms),
        ensures
            final(self).models() == old(self).models().update(
                3,
                spec_poll(old(self).models()[3], now_ms, spec_network_outcome(kinds)),
            ),
            final(self).pending_spec() == (old(self).pending_spec() || spec_poll_changed(
                old(self).models()[3],
                spec_network_outcome(kinds),
            )),
            ok == (spec_network_outcome(kinds) is Some),
    {
        let before = self.internet.get_text();
        let ok = self.internet.update(now_ms, kinds);
        let after = self.internet.get_text();
        if !(before == after) {
            self.pending = true;
        }
        proof {
            assert(self.models() =~= old(self).models().update(
                3,
                spec_poll(old(self).models()[3], now_ms, spec_network_outcome(kinds)),
            ));
        }
        ok
    }

    /// The composed line: every block's text in construction order, joined
    /// with the fixed separator.  The line is deliberately the bare join —
    /// nothing precedes the first text and nothing is padded on after the
    /// last.
    pub fn compose(&self) -> (r: String)
        ensures
            r@ == spec_join(self.texts()),
    {
        let mut s = self.volume.get_text();
        s.append("|");
        let t1 = self.battery.get_text();
        s.append(t1.as_str());
        s.append("|");
        let t2 = self.time.get_text();
        s.append(t2.as_str());
        s.append("|");
        let t3 = self.internet.get_text();
        s.append(t3.as_str());
        proof {
            let ts = self.texts();
            lemma_compose_order(ts);
            assert(s@ =~= spec_join(ts));
        }
        s
    }

    /// Ends a sweep.  When some block changed since the line was last
    /// composed, the freshly composed line is returned to be published and
    /// the record is cleared; otherwise nothing is returned — so consecutive
    /// sweeps without a change publish nothing.
    pub fn finish_sweep(&mut self) -> (r: Option<String>)
        ensures
            final(self).models() == old(self).models(),
            !final(self).pending_spec(),
            r is Some <==> old(self).pending_spec(),
            r matches Some(line) ==> line@ == spec_join(old(self).texts()),
    {
        if self.pending {
            self.pending = false;
            Some(self.compose())
        } else {
            None
        }
    }
}

} // verus!
