//! Time-windowed aggregates over first-in-first-out histories.
//!
//! Instants are milliseconds on a monotonic clock with an arbitrary origin.
//! An entry is evicted, from the front of its history, once it is strictly
//! older than the window; eviction runs on every mutation and every read.
use vstd::prelude::*;
use std::collections::VecDeque;

verus! {

/// An exact fraction `num / den`; `den` is never zero.
#[derive(Debug, Clone, Copy, PartialEq, Eq, Structural)]
pub struct Ratio {
    pub num: u128,
    pub den: u64,
}

/// Whether an entry recorded at `t` is too old to count at `now`.
pub open spec fn expired(t: u64, now: u64, window_ms: u64) -> bool {
    if now >= t {
        now - t > window_ms
    } else {
        false
    }
}

/// What is left of a history after eviction at `now`: leading entries are
/// dropped while they are expired.
pub open spec fn pruned<V>(h: Seq<(u64, V)>, now: u64, window_ms: u64) -> Seq<(u64, V)>
    decreases h.len(),
{
    if h.len() > 0 && expired(h[0].0, now, window_ms) {
        pruned(h.drop_first(), now, window_ms)
    } else {
        h
    }
}

/// The sum of the values of a history.
pub open spec fn sum_of(h: Seq<(u64, u64)>) -> nat
    decreases h.len(),
{
    if h.len() == 0 {
        0
    } else {
        sum_of(h.drop_last()) + (h.last().1 as nat)
    }
}

/// `x`, capped at the largest `u64`.
pub open spec fn cap_u64(x: nat) -> u64 {
    if x <= u64::MAX {
        x as u64
    } else {
        u64::MAX
    }
}

/// `x + y`, capped at the largest `u64`.
pub open spec fn sat_add(x: u64, y: nat) -> u64 {
    if x + y <= u64::MAX {
        (x + y) as u64
    } else {
        u64::MAX
    }
}

proof fn lemma_sum_bound(h: Seq<(u64, u64)>)
    ensures
        sum_of(h) <= h.len() * (u64::MAX as nat),
    decreases h.len(),
{
    if h.len() > 0 {
        lemma_sum_bound(h.drop_last());
        assert(sum_of(h.drop_last()) + h.last().1 <= (h.len() - 1) * (u64::MAX as nat) + (
        u64::MAX as nat)) by (nonlinear_arith)
            requires
                sum_of(h.drop_last()) <= (h.len() - 1) * (u64::MAX as nat),
                h.last().1 <= u64::MAX,
        ;
        assert((h.len() - 1) * (u64::MAX as nat) + (u64::MAX as nat) == h.len() * (
        u64::MAX as nat)) by (nonlinear_arith);
    }
}

proof fn lemma_sum_drop_first(h: Seq<(u64, u64)>)
    requires
        h.len() > 0,
    ensures
        sum_of(h) == h[0].1 + sum_of(h.drop_first()),
    decreases h.len(),
{
    if h.len() > 1 {
        lemma_sum_drop_first(h.drop_last());
        assert(h.drop_last().drop_first() =~= h.drop_first().drop_last());
        assert(h.drop_first().last() == h.last());
        assert(h.drop_last()[0] == h[0]);
        assert(sum_of(h.drop_first()) == sum_of(h.drop_first().drop_last()) + (
        h.drop_first().last().1 as nat));
    } else {
        assert(h.drop_first().len() == 0);
        assert(h.drop_last().len() == 0);
        assert(h.last() == h[0]);
        assert(sum_of(h.drop_last()) == 0);
    }
}

proof fn lemma_sum_push(h: Seq<(u64, u64)>, e: (u64, u64))
    ensures
        sum_of(h.push(e)) == sum_of(h) + e.1,
{
    assert(h.push(e).drop_last() =~= h);
}

/// Drops expired entries from the front of `history`, keeping `sum` equal to
/// the sum of what is left.
fn prune_history(history: &mut VecDeque<(u64, u64)>, sum: &mut u128, now: u64, window_ms: u64)
    requires
        *old(sum) == sum_of(old(history)@),
    ensures
        final(history)@ == pruned(old(history)@, now, window_ms),
        *final(sum) == sum_of(final(history)@),
{
    let mut done = false;
    while !done && history.len() > 0
        invariant
            pruned(history@, now, window_ms) == pruned(old(history)@, now, window_ms),
            *sum == sum_of(history@),
            done ==> pruned(history@, now, window_ms) == history@,
        decreases history@.len() + if done { 0int } else { 1int },
    {
        let (t, c) = history[0];
        let old_age = now >= t && now - t > window_ms;
        if !old_age {
            done = true;
            continue;
        }
        proof {
            lemma_sum_drop_first(history@);
        }
        let ghost before = history@;
        history.pop_front();
        assert(history@ =~= before.drop_first());
        *sum = *sum - c as u128;
    }
}

/// The per-second rate of a history over a window: the capped sum over the
/// window length in seconds, or zero for an empty window.
pub open spec fn spec_rate(h: Seq<(u64, u64)>, window_ms: u64) -> Ratio {
    if window_ms == 0 {
        Ratio { num: 0, den: 1 }
    } else {
        Ratio { num: (cap_u64(sum_of(h)) * 1000) as u128, den: window_ms }
    }
}

/// Sum of counts over a time window, reported per second.
#[derive(Debug)]
pub struct RollingRate {
    window_ms: u64,
    history: VecDeque<(u64, u64)>,
    sum: u128,
}

impl RollingRate {
    /// The entries still in the history: `(instant, count)`, oldest first.
    pub closed spec fn entries(&self) -> Seq<(u64, u64)> {
        self.history@
    }

    /// The window length in milliseconds.
    pub closed spec fn window(&self) -> u64 {
        self.window_ms
    }

    pub closed spec fn wf(&self) -> bool {
        self.sum == sum_of(self.history@)
    }

    /// An empty history over a window of `window_ms` milliseconds.
    pub fn new(window_ms: u64) -> (r: Self)
        ensures
            r.wf(),
            r.entries() == Seq::<(u64, u64)>::empty(),
            r.window() == window_ms,
    {
        RollingRate { window_ms, history: VecDeque::new(), sum: 0 }
    }

    /// The window length in milliseconds.
    pub fn window_ms(&self) -> (r: u64)
        ensures
            r == self.window(),
    {
        self.window_ms
    }

    /// Records `count` units at `now`, then evicts.
    pub fn record(&mut self, now: u64, count: u64)
        requires
            old(self).wf(),
        ensures
            final(self).wf(),
            final(self).window() == old(self).window(),
            final(self).entries() == pruned(old(self).entries().push((now, count)), now, old(self).window()),
    {
        let n = self.history.len();
        proof {
            lemma_sum_bound(self.history@);
            lemma_sum_push(self.history@, (now, count));
            assert(self.sum + count <= (n + 1) * (u64::MAX as nat)) by (nonlinear_arith)
                requires
                    self.sum <= n * (u64::MAX as nat),
                    count <= u64::MAX,
            ;
            assert((n + 1) * (u64::MAX as nat) <= 0x1_0000_0000_0000_0000 * (u64::MAX as nat))
                by (nonlinear_arith)
                requires
                    n <= u64::MAX,
            ;
        }
        self.history.push_back((now, count));
        self.sum = self.sum + count as u128;
        prune_history(&mut self.history, &mut self.sum, now, self.window_ms);
    }

    /// Evicts, then returns the sum of the counts left, capped at `u64::MAX`.
    pub fn total_in_window(&mut self, now: u64) -> (r: u64)
        requires
            old(self).wf(),
        ensures
            final(self).wf(),
            final(self).window() == old(self).window(),
            final(self).entries() == pruned(old(self).entries(), now, old(self).window()),
            r == cap_u64(sum_of(final(self).entries())),
    {
        prune_history(&mut self.history, &mut self.sum, now, self.window_ms);
        if self.sum > u64::MAX as u128 {
            u64::MAX
        } else {
            self.sum as u64
        }
    }

    /// Evicts, then returns the units per second: the capped sum over the
    /// window length in seconds, or zero for an empty window.
    pub fn rate_per_sec(&mut self, now: u64) -> (r: Ratio)
        requires
            old(self).wf(),
        ensures
            final(self).wf(),
            final(self).window() == old(self).window(),
            final(self).entries() == pruned(old(self).entries(), now, old(self).window()),
            r == spec_rate(final(self).entries(), old(self).window()),
    {
        let total = self.total_in_window(now);
        if self.window_ms == 0 {
            return Ratio { num: 0, den: 1 };
        }
        Ratio { num: total as u128 * 1000, den: self.window_ms }
    }
}

/// Arithmetic mean of the values recorded within a time window.
#[derive(Debug)]
pub struct RollingMean {
    window_ms: u64,
    history: VecDeque<(u64, u64)>,
    sum: u128,
}

impl RollingMean {
    /// The entries still in the history: `(instant, value)`, oldest first.
    pub closed spec fn entries(&self) -> Seq<(u64, u64)> {
        self.history@
    }

    /// The window length in milliseconds.
    pub closed spec fn window(&self) -> u64 {
        self.window_ms
    }

    pub closed spec fn wf(&self) -> bool {
        self.sum == sum_of(self.history@)
    }

    /// An empty history over a window of `window_ms` milliseconds.
    pub fn new(window_ms: u64) -> (r: Self)
        ensures
            r.wf(),
            r.entries() == Seq::<(u64, u64)>::empty(),
            r.window() == window_ms,
    {
        RollingMean { window_ms, history: VecDeque::new(), sum: 0 }
    }

    /// Records `value` at `now`, then evicts.
    pub fn record(&mut self, now: u64, value: u64)
        requires
            old(self).wf(),
        ensures
            final(self).wf(),
            final(self).window() == old(self).window(),
            final(self).entries() == pruned(old(self).entries().push((now, value)), now, old(self).window()),
    {
        let n = self.history.len();
        proof {
            lemma_sum_bound(self.history@);
            lemma_sum_push(self.history@, (now, value));
            assert(self.sum + value <= (n + 1) * (u64::MAX as nat)) by (nonlinear_arith)
                requires
                    self.sum <= n * (u64::MAX as nat),
                    value <= u64::MAX,
            ;
            assert((n + 1) * (u64::MAX as nat) <= 0x1_0000_0000_0000_0000 * (u64::MAX as nat))
                by (nonlinear_arith)
                requires
                    n <= u64::MAX,
            ;
        }
        self.history.push_back((now, value));
        self.sum = self.sum + value as u128;
        prune_history(&mut self.history, &mut self.sum, now, self.window_ms);
    }

    /// Evicts, then returns the mean of the values left as the exact fraction
    /// of their sum over their number; zero when none is left.
    pub fn average(&mut self, now: u64) -> (r: Ratio)
        requires
            old(self).wf(),
        ensures
            final(self).wf(),
            final(self).window() == old(self).window(),
            final(self).entries() == pruned(old(self).entries(), now, old(self).window()),
            final(self).entries().len() == 0 ==> r == (Ratio { num: 0, den: 1 }),
            final(self).entries().len() > 0 ==> r == (Ratio {
                num: sum_of(final(self).entries()) as u128,
                den: final(self).entries().len() as u64,
            }),
    {
        prune_history(&mut self.history, &mut self.sum, now, self.window_ms);
        let n = self.history.len();
        if n == 0 {
            Ratio { num: 0, den: 1 }
        } else {
            Ratio { num: self.sum, den: n as u64 }
        }
    }
}

/// Evicting twice at the same instant evicts nothing more.
pub proof fn lemma_pruned_idempotent<V>(h: Seq<(u64, V)>, now: u64, window_ms: u64)
    ensures
        pruned(pruned(h, now, window_ms), now, window_ms) == pruned(h, now, window_ms),
    decreases h.len(),
{
    if h.len() > 0 && expired(h[0].0, now, window_ms) {
        lemma_pruned_idempotent(h.drop_first(), now, window_ms);
    }
}

/// Eviction at `now` leaves nothing of a history whose every entry was
/// recorded more than a window before `now`: after such a gap the total in the
/// window, and with it the rate, is zero.
pub proof fn lemma_gap_empties_window(h: Seq<(u64, u64)>, now: u64, window_ms: u64)
    requires
        forall|i: int| 0 <= i < h.len() ==> h[i].0 + window_ms < now,
    ensures
        pruned(h, now, window_ms) == Seq::<(u64, u64)>::empty(),
        sum_of(pruned(h, now, window_ms)) == 0,
    decreases h.len(),
{
    if h.len() > 0 {
        assert(h[0].0 + window_ms < now);
        lemma_gap_empties_window(h.drop_first(), now, window_ms);
    }
}

} // verus!
