//! The network block: one icon when a wireless connection is active, one
//! more when a tunnel is, and an empty text when neither is.

use vstd::prelude::*;
use vstd::string::*;

use crate::blocks::{Block, BlockModel, spec_poll};
use crate::text::str_eq;

verus! {

pub const INTERNET_INTERVAL_MS: u64 = 2000;

/// The network block.
pub struct Internet {
    last_run_ms: u64,
    text: String,
}

/// Whether some active connection has kind `k`.
pub open spec fn spec_has_kind(kinds: Seq<String>, k: Seq<char>) -> bool {
    exists|i: int| 0 <= i < kinds.len() && kinds[i]@ == k
}

/// The rendered network text over the kinds of the active connections: a
/// wireless connection contributes its icon, a tunnel its lock, and any
/// other kind nothing.
pub open spec fn spec_network_text(kinds: Seq<String>) -> Seq<char> {
    (if spec_has_kind(kinds, "802-11-wireless"@) {
        "📶"@
    } else {
        Seq::<char>::empty()
    }) + (if spec_has_kind(kinds, "wireguard"@) {
        "🔒"@
    } else {
        Seq::<char>::empty()
    })
}

/// What a poll attempt makes of what the source delivered: enumerating the
/// active connections either fails whole or yields every kind.
pub open spec fn spec_network_outcome(kinds: Option<Vec<String>>) -> Option<Seq<char>> {
    match kinds {
        None => None,
        Some(v) => Some(spec_network_text(v@)),
    }
}

proof fn lemma_has_kind_extend(kinds: Seq<String>, i: int, k: Seq<char>)
    requires
        0 <= i < kinds.len(),
    ensures
        spec_has_kind(kinds.subrange(0, i + 1), k) == (spec_has_kind(kinds.subrange(0, i), k)
            || kinds[i]@ == k),
{
    let pre = kinds.subrange(0, i);
    let ext = kinds.subrange(0, i + 1);
    if spec_has_kind(pre, k) {
        let j = choose|j: int| 0 <= j < pre.len() && pre[j]@ == k;
        assert(ext[j]@ == k);
    }
    if kinds[i]@ == k {
        assert(ext[i]@ == k);
    }
    if spec_has_kind(ext, k) {
        let j = choose|j: int| 0 <= j < ext.len() && ext[j]@ == k;
        if j < i {
            assert(pre[j]@ == k);
        } else {
            assert(ext[j] == kinds[i]);
        }
    }
}

/// Renders the network text from the kinds of the active connections.
pub fn network_text(kinds: &Vec<String>) -> (r: String)
    ensures
        r@ == spec_network_text(kinds@),
{
    let mut has_wireless = false;
    let mut has_tunnel = false;
    let n = kinds.len();
    let mut i: usize = 0;
    while i < n
        invariant
            i <= n,
            n == kinds@.len(),
            has_wireless == spec_has_kind(kinds@.subrange(0, i as int), "802-11-wireless"@),
            has_tunnel == spec_has_kind(kinds@.subrange(0, i as int), "wireguard"@),
        decreases n - i,
    {
        if str_eq(kinds[i].as_str(), "802-11-wireless") {
            has_wireless = true;
        }
        if str_eq(kinds[i].as_str(), "wireguard") {
            has_tunnel = true;
        }
        proof {
            lemma_has_kind_extend(kinds@, i as int, "802-11-wireless"@);
            lemma_has_kind_extend(kinds@, i as int, "wireguard"@);
        }
        i += 1;
    }
    proof {
        assert(kinds@.subrange(0, n as int) =~= kinds@);
    }
    let mut s = String::new();
    if has_wireless {
        s.append("📶");
    }
    if has_tunnel {
        s.append("🔒");
    }
    proof {
        assert(s@ =~= spec_network_text(kinds@));
    }
    s
}

impl Block for Internet {
    closed spec fn model(&self) -> BlockModel {
        BlockModel {
            interval_ms: INTERNET_INTERVAL_MS,
            last_run_ms: self.last_run_ms,
            text: self.text@,
        }
    }

    fn new() -> (b: Self) {
        Internet { last_run_ms: 0, text: String::new() }
    }

    fn frequency(&self) -> (r: u64) {
        INTERNET_INTERVAL_MS
    }

    fn due(&self, now_ms: u64) -> (r: bool) {
        now_ms >= self.last_run_ms && now_ms - self.last_run_ms >= INTERNET_INTERVAL_MS
    }

    fn get_text(&self) -> (t: String) {
        self.text.clone()
    }
}

/// The network block's refresh cadence, fixed at construction.
pub proof fn lemma_internet_interval(b: &Internet)
    ensures
        b.model().interval_ms == INTERNET_INTERVAL_MS,
{
}

impl Internet {
    /// One poll attempt at time `now_ms`: `kinds` holds the kinds of the
    /// active connections, or nothing when they could not be enumerated.
    pub fn update(&mut self, now_ms: u64, kinds: Option<Vec<String>>) -> (ok: bool)
        ensures
            final(self).model() == spec_poll(
                old(self).model(),
                now_ms,
                spec_network_outcome(kinds),
            ),
            ok == (spec_network_outcome(kinds) is Some),
    {
        self.last_run_ms = now_ms;
        match kinds {
            None => false,
            Some(v) => {
                let t = network_text(&v);
                self.text = t;
                true
            },
        }
    }
}

} // verus!
