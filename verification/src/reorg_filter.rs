use vstd::prelude::*;

use crate::virtual_chain::saturating_diff;

verus! {

/// Dampens reporting of shallow reorgs. Every observed rollback raises
/// an accumulated threshold, and the threshold halves once per elapsed
/// period, so that a burst of shallow reorgs is surfaced once and then
/// hidden until things quiet down. A zero period disables the filter.
pub struct ReorgFilter {
    /// Accumulated depth threshold.
    pub threshold: u64,
    /// Timestamp, in milliseconds, up to which decay has been applied.
    pub last_decay_ms: u64,
    /// Halving period in milliseconds; zero disables the filter.
    pub halving_period_ms: u64,
}

/// `t` halved `k` times, rounding down each time.
pub open spec fn halved(t: u64, k: nat) -> u64
    decreases k,
{
    if k == 0 {
        t
    } else {
        halved(t / 2, (k - 1) as nat)
    }
}

/// The sum `a + b`, capped at the largest representable value.
pub open spec fn saturating_sum(a: u64, b: u64) -> u64 {
    if a + b > u64::MAX {
        u64::MAX
    } else {
        (a + b) as u64
    }
}

/// How many whole halving periods have elapsed on `f`'s decay clock at
/// `now_ms`. Meaningful only while the filter is enabled.
pub open spec fn periods_elapsed(f: ReorgFilter, now_ms: u64) -> int {
    saturating_diff(now_ms, f.last_decay_ms) as int / f.halving_period_ms as int
}

/// `f`'s threshold after decaying up to `now_ms`.
pub open spec fn decayed_threshold(f: ReorgFilter, now_ms: u64) -> u64 {
    halved(f.threshold, periods_elapsed(f, now_ms) as nat)
}

/// Whether `f` forwards a rollback of depth `depth` observed at
/// `now_ms`: always when disabled, else exactly when the depth exceeds
/// the decayed threshold.
pub open spec fn forwards(f: ReorgFilter, depth: u64, now_ms: u64) -> bool {
    f.halving_period_ms == 0 || depth > decayed_threshold(f, now_ms)
}

/// How one observation at `now_ms` of a rollback of depth `depth` moves
/// the filter from `pre` to `post`: disabled it does nothing, enabled it
/// settles the decay clock on the consumed periods and adds the depth
/// onto the decayed threshold.
pub open spec fn observed(pre: ReorgFilter, post: ReorgFilter, depth: u64, now_ms: u64) -> bool {
    &&& post.halving_period_ms == pre.halving_period_ms
    &&& pre.halving_period_ms == 0 ==> post.threshold == pre.threshold && post.last_decay_ms
        == pre.last_decay_ms
    &&& pre.halving_period_ms > 0 ==> post.threshold == saturating_sum(
        decayed_threshold(pre, now_ms),
        depth,
    ) && post.last_decay_ms == pre.last_decay_ms + periods_elapsed(pre, now_ms)
        * pre.halving_period_ms
}

/// Halving zero any number of times leaves zero.
proof fn lemma_halved_zero(k: nat)
    ensures
        halved(0, k) == 0,
    decreases k,
{
    if k > 0 {
        lemma_halved_zero((k - 1) as nat);
    }
}

/// Halving never raises a value.
proof fn lemma_halved_le(t: u64, k: nat)
    ensures
        halved(t, k) <= t,
    decreases k,
{
    if k > 0 {
        lemma_halved_le(t / 2, (k - 1) as nat);
    }
}

/// The threshold decays monotonically: however much time has passed,
/// the decayed threshold never exceeds the accumulated one.
pub proof fn lemma_decay_never_raises(f: ReorgFilter, now_ms: u64)
    ensures
        decayed_threshold(f, now_ms) <= f.threshold,
{
    lemma_halved_le(f.threshold, periods_elapsed(f, now_ms) as nat);
}

impl ReorgFilter {
    /// Creates a filter with an empty threshold whose decay clock starts
    /// at `now_ms`.
    pub fn new(halving_period_ms: u64, now_ms: u64) -> (f: ReorgFilter)
        ensures
            f == (ReorgFilter { threshold: 0, last_decay_ms: now_ms, halving_period_ms }),
    {
        ReorgFilter { threshold: 0, last_decay_ms: now_ms, halving_period_ms }
    }

    /// Judges one observed rollback of depth `depth` at time `now_ms` and
    /// says whether it is deep enough to surface to the consumer. With
    /// the filter disabled every rollback is forwarded and nothing
    /// accumulates. Otherwise the threshold first decays by one halving
    /// per whole period elapsed, the rollback is forwarded exactly when
    /// its depth exceeds the decayed threshold, and the depth is then
    /// added onto the threshold either way.
    pub fn observe(&mut self, depth: u64, now_ms: u64) -> (forward: bool)
        ensures
            forward == forwards(*old(self), depth, now_ms),
            observed(*old(self), *final(self), depth, now_ms),
    {
        if self.halving_period_ms == 0 {
            // filtering is disabled: always forward, never accumulate
            return true;
        }
        let elapsed = now_ms.saturating_sub(self.last_decay_ms);
        let periods = elapsed / self.halving_period_ms;
        proof {
            assert(periods * self.halving_period_ms <= elapsed) by (nonlinear_arith)
                requires
                    self.halving_period_ms > 0,
                    periods == elapsed as int / self.halving_period_ms as int,
            ;
        }
        // consume the whole periods that have elapsed
        self.last_decay_ms = self.last_decay_ms + periods * self.halving_period_ms;
        // decay: halve once per consumed period, stopping at zero
        let ghost k0 = periods;
        let mut decayed = self.threshold;
        let mut remaining = periods;
        while remaining > 0 && decayed > 0
            invariant
                remaining <= k0,
                halved(decayed, remaining as nat) == halved(old(self).threshold, k0 as nat),
            decreases remaining,
        {
            decayed = decayed / 2;
            remaining = remaining - 1;
        }
        proof {
            if decayed == 0 {
                lemma_halved_zero(remaining as nat);
            }
        }
        let forward = depth > decayed;
        // every observed reorg raises the bar for the ones after it
        self.threshold = decayed.saturating_add(depth);
        forward
    }
}

} // verus!
