//! Periodic recomputation schedule for running sums.
//!
//! Indicators that keep a running `sum` / `sum_sq` over a window add and
//! subtract every value, which lets floating-point drift accumulate on long
//! streams. Bollinger Bands therefore recompute both sums from the live window
//! every `16 * period` finite updates; this module decides on which updates.
use vstd::prelude::*;

verus! {

/// Number of windows between recomputations of the running sums.
pub const RECOMPUTE_EVERY: usize = 16usize;

/// Counts updates and reports when the running sums are due to be recomputed.
#[derive(Debug, Clone, Copy)]
pub struct RecomputeSchedule {
    interval: usize,
    since_recompute: usize,
}

impl RecomputeSchedule {
    /// Updates between recomputations.
    pub closed spec fn spec_interval(self) -> int {
        self.interval as int
    }

    /// Updates counted since the last recomputation (or construction / reset).
    pub closed spec fn spec_since(self) -> int {
        self.since_recompute as int
    }

    #[verifier::type_invariant]
    closed spec fn wf(self) -> bool {
        self.interval >= 1 && self.since_recompute < self.interval
    }

    /// A schedule that recomputes every `RECOMPUTE_EVERY * period` updates.
    pub fn for_period(period: usize) -> (r: RecomputeSchedule)
        requires
            period >= 1,
            RECOMPUTE_EVERY * period <= usize::MAX,
        ensures
            r.spec_interval() == RECOMPUTE_EVERY * period,
            r.spec_since() == 0,
    {
        RecomputeSchedule { interval: RECOMPUTE_EVERY * period, since_recompute: 0 }
    }

    /// Count one update; returns `true` when this update completes an interval,
    /// in which case the caller recomputes its sums and the count restarts.
    pub fn tick(&mut self) -> (due: bool)
        ensures
            final(self).spec_interval() == old(self).spec_interval(),
            due == (old(self).spec_since() + 1 == old(self).spec_interval()),
            due ==> final(self).spec_since() == 0,
            !due ==> final(self).spec_since() == old(self).spec_since() + 1,
            final(self).spec_since() < final(self).spec_interval(),
    {
        proof {
            use_type_invariant(&*self);
        }
        if self.since_recompute + 1 >= self.interval {
            self.since_recompute = 0;
            true
        } else {
            self.since_recompute = self.since_recompute + 1;
            false
        }
    }

    /// Restart the count, as after a reset of the indicator.
    pub fn reset(&mut self)
        ensures
            final(self).spec_interval() == old(self).spec_interval(),
            final(self).spec_since() == 0,
    {
        proof {
            use_type_invariant(&*self);
        }
        self.since_recompute = 0;
    }

    /// Updates between recomputations.
    pub fn interval(&self) -> (r: usize)
        ensures
            r == self.spec_interval(),
    {
        self.interval
    }
}

/// Starting from a fresh count, the `k`-th tick (counting from one) is due
/// exactly when `k` is a multiple of the interval: the count after `k` ticks is
/// `k % interval`.
pub open spec fn count_after(interval: int, k: nat) -> int
    decreases k,
{
    if k == 0 {
        0
    } else {
        let prev = count_after(interval, (k - 1) as nat);
        if prev + 1 == interval { 0 } else { prev + 1 }
    }
}

/// The count after `k` ticks is `k` modulo the interval.
pub proof fn lemma_count_after_is_mod(interval: int, k: nat)
    requires
        interval >= 1,
    ensures
        count_after(interval, k) == (k as int) % interval,
    decreases k,
{
    if k == 0 {
        assert((0int) % interval == 0) by {
            vstd::arithmetic::div_mod::lemma_small_mod(0, interval as nat);
        }
    } else {
        let prev = (k - 1) as nat;
        lemma_count_after_is_mod(interval, prev);
        let a = (prev as int) % interval;
        assert(0 <= a < interval) by {
            vstd::arithmetic::div_mod::lemma_mod_bound(prev as int, interval);
        }
        assert(count_after(interval, k) == if a + 1 == interval { 0 } else { a + 1 });
        assert(((prev as int) + 1) % interval == (a + 1) % interval) by {
            vstd::arithmetic::div_mod::lemma_add_mod_noop(prev as int, 1, interval);
            vstd::arithmetic::div_mod::lemma_mod_twice(prev as int, interval);
            if interval > 1 {
                vstd::arithmetic::div_mod::lemma_small_mod(1, interval as nat);
            } else {
                assert(a == 0);
            }
            vstd::arithmetic::div_mod::lemma_add_mod_noop(a, 1, interval);
            vstd::arithmetic::div_mod::lemma_mod_twice(a, interval);
        }
        assert((k as int) == (prev as int) + 1);
        if a + 1 == interval {
            vstd::arithmetic::div_mod::lemma_mod_self_0(interval);
        } else {
            vstd::arithmetic::div_mod::lemma_small_mod((a + 1) as nat, interval as nat);
        }
    }
}

} // verus!
