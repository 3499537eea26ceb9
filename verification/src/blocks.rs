//! The block contract: a block is an independently scheduled data source
//! that renders to a short text fragment.  Every block keeps a fixed refresh
//! interval, the time of its last poll attempt, and its current rendered
//! text.  A poll either succeeds and overwrites the text, or fails and leaves
//! the old text standing; either way the last-poll time advances, so a
//! persistently failing source is retried at its nominal cadence and never in
//! a tight loop.

pub mod battery;
pub mod internet;
pub mod time;
pub mod volume;

use vstd::prelude::*;

verus! {

/// The mathematical state of one block: its fixed refresh interval, the time
/// of its last poll attempt, and its rendered text, all in milliseconds and
/// characters.
#[verifier::ext_equal]
pub ghost struct BlockModel {
    pub interval_ms: u64,
    pub last_run_ms: u64,
    pub text: Seq<char>,
}

/// A block is due once its refresh interval has elapsed since its last poll
/// attempt.
pub open spec fn spec_due(m: BlockModel, now_ms: u64) -> bool {
    now_ms >= m.last_run_ms + m.interval_ms
}

/// One poll attempt at time `now_ms`: a successful attempt carries the newly
/// rendered text, a failed one carries nothing and leaves the old text;
/// the last-poll time advances either way.
pub open spec fn spec_poll(m: BlockModel, now_ms: u64, outcome: Option<Seq<char>>) -> BlockModel {
    BlockModel {
        interval_ms: m.interval_ms,
        last_run_ms: now_ms,
        text: match outcome {
            Some(t) => t,
            None => m.text,
        },
    }
}

/// Whether a poll attempt counts as a change: it succeeded and the rendered
/// text differs from the text held before.
pub open spec fn spec_poll_changed(m: BlockModel, outcome: Option<Seq<char>>) -> bool {
    match outcome {
        Some(t) => t != m.text,
        None => false,
    }
}

/// The common face of the four blocks.  Each block also has an `update`
/// method of its own, whose arguments are the raw values its source
/// delivered; the signatures differ, so `update` is not part of the trait.
pub trait Block: Sized {
    /// The block's mathematical state.
    spec fn model(&self) -> BlockModel;

    /// A fresh block: positive interval, empty text, and a last-poll time of
    /// zero, so that the block is due as soon as the clock reaches its
    /// interval.
    fn new() -> (b: Self)
        ensures
            b.model().interval_ms >= 1,
            b.model().last_run_ms == 0,
            b.model().text == Seq::<char>::empty(),
    ;

    /// The fixed refresh interval, in milliseconds.
    fn frequency(&self) -> (r: u64)
        ensures
            r == self.model().interval_ms,
    ;

    /// Whether the block is due for a poll at time `now_ms`.
    fn due(&self, now_ms: u64) -> (r: bool)
        ensures
            r == spec_due(self.model(), now_ms),
    ;

    /// The current rendered text; never fails and never polls.
    fn get_text(&self) -> (t: String)
        ensures
            t@ == self.model().text,
    ;
}

/// Directly after a poll attempt at time `now_ms` — successful or not — the
/// block is no longer due, and it stays that way exactly until the clock
/// reaches `now_ms` plus the block's interval.
pub proof fn lemma_due_settles_after_poll(
    m: BlockModel,
    now_ms: u64,
    outcome: Option<Seq<char>>,
    later_ms: u64,
)
    requires
        m.interval_ms >= 1,
    ensures
        !spec_due(spec_poll(m, now_ms, outcome), now_ms),
        spec_due(spec_poll(m, now_ms, outcome), later_ms) <==> later_ms >= now_ms
            + m.interval_ms,
{
}

/// A source that fails three polls in a row leaves the rendered text exactly
/// as it was, never counts as a change, and still has its last-poll time
/// advance to each attempt — so the broken source is retried at its nominal
/// cadence, not in a tight loop.
pub proof fn lemma_failing_source_is_throttled(m: BlockModel, t1: u64, t2: u64, t3: u64)
    ensures
        ({
            let m1 = spec_poll(m, t1, None);
            let m2 = spec_poll(m1, t2, None);
            let m3 = spec_poll(m2, t3, None);
            m1.text == m.text && m2.text == m.text && m3.text == m.text && m1.last_run_ms == t1
                && m2.last_run_ms == t2 && m3.last_run_ms == t3 && !spec_poll_changed(m, None)
                && !spec_poll_changed(m1, None) && !spec_poll_changed(m2, None)
        }),
{
}

} // verus!
