//! Hull Moving Average (HMA): the integer configuration of its three WMA stages.
//!
//! The HMA is `WMA(2 * WMA(n/2) - WMA(n), round(sqrt(n)))`. The weighted
//! averages themselves run on floating-point prices; what this module fixes is
//! the shape of the pipeline: the three stage lengths and the warmup length.
use vstd::prelude::*;

use crate::error::Error;

verus! {

/// `s` is the integer nearest to `sqrt(n)`:
/// `s - 1/2 <= sqrt(n) < s + 1/2`, written without fractions as
/// `(2s - 1)^2 <= 4n < (2s + 1)^2` (the lower bound is vacuous for `s == 0`).
/// Because `4n` is even and `(2s +- 1)^2` is odd, no `n` sits on a boundary, so
/// rounding half away from zero and rounding half to even agree here.
pub open spec fn is_nearest_sqrt(n: int, s: int) -> bool {
    &&& 0 <= s
    &&& (s == 0 || (2 * s - 1) * (2 * s - 1) <= 4 * n)
    &&& 4 * n < (2 * s + 1) * (2 * s + 1)
}

/// Length of the half-period WMA stage: `max(n / 2, 1)`.
pub open spec fn hma_half_period(n: int) -> int {
    if n / 2 >= 1 { n / 2 } else { 1 }
}

/// Documented number of inputs before the first HMA value:
/// `period + smooth - 1`.
pub open spec fn hma_warmup(period: int, smooth: int) -> int {
    period + smooth - 1
}

proof fn lemma_square_le(a: int, b: int)
    requires
        0 <= a <= b,
    ensures
        a * a <= b * b,
{
    assert(a * a <= b * b) by (nonlinear_arith)
        requires
            0 <= a <= b,
    ;
}

/// The nearest integer to a square root is unique.
pub proof fn lemma_nearest_sqrt_unique(n: int, s1: int, s2: int)
    requires
        is_nearest_sqrt(n, s1),
        is_nearest_sqrt(n, s2),
    ensures
        s1 == s2,
{
    if s1 < s2 {
        // s1 + 1 <= s2, so (2 s1 + 1) <= (2 s2 - 1) and the intervals cannot overlap.
        lemma_square_le(2 * s1 + 1, 2 * s2 - 1);
    } else if s2 < s1 {
        lemma_square_le(2 * s2 + 1, 2 * s1 - 1);
    }
}

/// Rounding the floor square root `r` gives the nearest integer to `sqrt(n)`.
proof fn lemma_round_floor_sqrt(n: int, r: int)
    requires
        0 <= n,
        0 <= r,
        r * r <= n,
        n < (r + 1) * (r + 1),
    ensures
        n - r * r > r ==> is_nearest_sqrt(n, r + 1),
        n - r * r <= r ==> is_nearest_sqrt(n, r),
{
    assert((r + 1) * (r + 1) == r * r + 2 * r + 1) by (nonlinear_arith);
    assert((2 * r + 1) * (2 * r + 1) == 4 * (r * r) + 4 * r + 1) by (nonlinear_arith);
    assert((2 * r - 1) * (2 * r - 1) == 4 * (r * r) - 4 * r + 1) by (nonlinear_arith);
    assert((2 * (r + 1) + 1) * (2 * (r + 1) + 1) == 4 * (r * r) + 12 * r + 9) by (nonlinear_arith);
    assert((2 * (r + 1) - 1) * (2 * (r + 1) - 1) == 4 * (r * r) + 4 * r + 1) by (nonlinear_arith);
}

/// The nearest integer `s` to `sqrt(n)` squares to within `s` of `n`:
/// `s^2 - s < n <= s^2 + s` (and `s == 0` only for `n == 0`); a perfect square
/// `k^2` has nearest root `k`.
pub proof fn lemma_nearest_sqrt_bounds(n: int, s: int)
    requires
        0 <= n,
        is_nearest_sqrt(n, s),
    ensures
        s == 0 <==> n == 0,
        s > 0 ==> s * s - s < n <= s * s + s,
        forall|k: int| 0 <= k && #[trigger] (k * k) == n ==> s == k,
{
    assert((2 * s + 1) * (2 * s + 1) == 4 * (s * s) + 4 * s + 1) by (nonlinear_arith);
    assert((2 * s - 1) * (2 * s - 1) == 4 * (s * s) - 4 * s + 1) by (nonlinear_arith);
    if s == 0 {
        assert(n == 0);
    } else {
        assert(s * s >= 1) by (nonlinear_arith) requires s >= 1;
    }
    assert forall|k: int| 0 <= k && #[trigger] (k * k) == n implies s == k by {
        assert((2 * k + 1) * (2 * k + 1) == 4 * (k * k) + 4 * k + 1) by (nonlinear_arith);
        assert((2 * k - 1) * (2 * k - 1) == 4 * (k * k) - 4 * k + 1) by (nonlinear_arith);
        assert(is_nearest_sqrt(n, k));
        lemma_nearest_sqrt_unique(n, s, k);
    }
}

/// Integer nearest to `sqrt(n)`, computed exactly on integers.
pub fn nearest_sqrt(n: usize) -> (s: usize)
    ensures
        is_nearest_sqrt(n as int, s as int),
        s == 0 <==> n == 0,
        s > 0 ==> s * s - s < n <= s * s + s,
{
    let target: u128 = n as u128;
    let mut lo: u128 = 0;
    let mut hi: u128 = 0x1_0000_0000;
    assert(hi * hi == 0x1_0000_0000_0000_0000u128);
    while hi - lo > 1
        invariant
            target == n as u128,
            lo < hi <= 0x1_0000_0000,
            lo * lo <= target,
            target < hi * hi,
        decreases hi - lo,
    {
        let mid: u128 = lo + (hi - lo) / 2;
        assert(mid * mid <= 0x1_0000_0000u128 * 0x1_0000_0000u128) by {
            lemma_square_le(mid as int, 0x1_0000_0000);
        }
        if mid * mid <= target {
            lo = mid;
        } else {
            hi = mid;
        }
    }
    assert(hi == lo + 1);
    proof {
        lemma_round_floor_sqrt(n as int, lo as int);
        assert(lo <= lo * lo || lo == 0) by (nonlinear_arith);
    }
    let r: usize = lo as usize;
    proof {
        if target - lo * lo > lo {
            lemma_nearest_sqrt_bounds(n as int, r + 1);
        } else {
            lemma_nearest_sqrt_bounds(n as int, r as int);
        }
    }
    if target - lo * lo > lo {
        assert(r + 1 <= n) by (nonlinear_arith)
            requires
                n - r * r > r,
                r * r >= 0,
        ;
        r + 1
    } else {
        r
    }
}

/// Smaller of two integers.
pub open spec fn min2(a: int, b: int) -> int {
    if a <= b { a } else { b }
}

/// Inputs a stage has received, capped at its length (a full stage stays full).
pub open spec fn fill(received: int, len: int) -> int {
    if received <= 0 { 0 } else { min2(received, len) }
}

/// One finite input through the stage cascade `(half, full, smooth)`: the
/// half stage takes every input; the full stage takes one only when the half
/// stage yields (it is full); the smoothing stage takes one only when the full
/// stage yields. Each count is capped at its stage length.
pub open spec fn cascade_step(
    counts: (int, int, int),
    half: int,
    full: int,
    smooth: int,
) -> (int, int, int) {
    let h = min2(counts.0 + 1, half);
    if h < half {
        (h, counts.1, counts.2)
    } else {
        let f = min2(counts.1 + 1, full);
        if f < full {
            (h, f, counts.2)
        } else {
            (h, f, min2(counts.2 + 1, smooth))
        }
    }
}

/// Stage counts after `k` finite inputs since construction or reset.
pub open spec fn cascade_after(k: nat, half: int, full: int, smooth: int) -> (int, int, int)
    decreases k,
{
    if k == 0 {
        (0, 0, 0)
    } else {
        cascade_step(cascade_after((k - 1) as nat, half, full, smooth), half, full, smooth)
    }
}

/// After `k` finite inputs the half stage has seen `min(k, half)` of them, the
/// full stage the ones from the `half`-th on, and the smoothing stage the ones
/// from the `(half + full - 1)`-th on; so the first HMA value comes with input
/// number `half + full + smooth - 2`.
pub proof fn lemma_cascade_after(k: nat, half: int, full: int, smooth: int)
    requires
        half >= 1,
        full >= 1,
        smooth >= 1,
    ensures
        cascade_after(k, half, full, smooth) == (
            fill(k as int, half),
            fill(k - half + 1, full),
            fill(k - half - full + 2, smooth),
        ),
        (cascade_after(k, half, full, smooth).2 >= smooth) <==> (k >= half + full + smooth - 2),
    decreases k,
{
    if k > 0 {
        lemma_cascade_after((k - 1) as nat, half, full, smooth);
    }
}

/// Hull Moving Average: the period, the lengths of its three
/// weighted-moving-average stages, and how far each stage has filled.
///
/// `half_period = max(period / 2, 1)`, `full = period`, and
/// `smooth_period = max(round(sqrt(period)), 1)`. The averages themselves are
/// computed on floating-point prices by the caller; a weighted moving average
/// of length `n` yields a value from its `n`-th input on.
#[derive(Debug, Clone, Copy)]
pub struct Hma {
    period: usize,
    half_period: usize,
    smooth_period: usize,
    half_seen: usize,
    full_seen: usize,
    smooth_seen: usize,
}

impl Hma {
    /// The configured period, as a mathematical integer.
    pub closed spec fn spec_period(self) -> int {
        self.period as int
    }

    /// The half-period stage length.
    pub closed spec fn spec_half_period(self) -> int {
        self.half_period as int
    }

    /// The smoothing stage length.
    pub closed spec fn spec_smooth_period(self) -> int {
        self.smooth_period as int
    }

    /// Inputs received by the half, full and smoothing stages.
    pub closed spec fn spec_counts(self) -> (int, int, int) {
        (self.half_seen as int, self.full_seen as int, self.smooth_seen as int)
    }

    /// The HMA has a value: its smoothing stage is full.
    pub open spec fn spec_ready(self) -> bool {
        self.spec_counts().2 >= self.spec_smooth_period()
    }

    #[verifier::type_invariant]
    closed spec fn wf(self) -> bool {
        &&& self.period >= 1
        &&& self.half_period == hma_half_period(self.period as int)
        &&& is_nearest_sqrt(self.period as int, self.smooth_period as int)
        &&& self.smooth_period >= 1
        &&& self.half_seen <= self.half_period
        &&& self.full_seen <= self.period
        &&& self.smooth_seen <= self.smooth_period
        &&& self.full_seen > 0 ==> self.half_seen == self.half_period
        &&& self.smooth_seen > 0 ==> self.full_seen == self.period
    }

    /// Construct a new HMA configuration.
    ///
    /// # Errors
    /// Returns [`Error::PeriodZero`] if `period == 0`.
    pub fn new(period: usize) -> (r: Result<Hma, Error>)
        ensures
            period == 0 <==> r is Err,
            r is Err ==> r == Err::<Hma, Error>(Error::PeriodZero),
            r matches Ok(h) ==> {
                &&& h.spec_period() == period
                &&& h.spec_half_period() == hma_half_period(period as int)
                &&& is_nearest_sqrt(period as int, h.spec_smooth_period())
                &&& h.spec_counts() == (0int, 0int, 0int)
                &&& !h.spec_ready()
            },
    {
        if period == 0 {
            return Err(Error::PeriodZero);
        }
        let half = if period / 2 >= 1 { period / 2 } else { 1 };
        let smooth = nearest_sqrt(period);
        assert(smooth >= 1) by {
            if smooth == 0 {
                assert(4 * (period as int) < 1);
            }
        }
        Ok(Hma {
            period,
            half_period: half,
            smooth_period: smooth,
            half_seen: 0,
            full_seen: 0,
            smooth_seen: 0,
        })
    }

    /// Configured period.
    pub fn period(&self) -> (r: usize)
        ensures
            r == self.spec_period(),
    {
        self.period
    }

    /// Length of the `WMA(n / 2)` stage.
    pub fn half_period(&self) -> (r: usize)
        ensures
            r == self.spec_half_period(),
            r == hma_half_period(self.spec_period()),
    {
        proof {
            use_type_invariant(self);
        }
        self.half_period
    }

    /// Length of the full `WMA(n)` stage, which is the period itself.
    pub fn full_period(&self) -> (r: usize)
        ensures
            r == self.spec_period(),
    {
        self.period
    }

    /// Length of the final smoothing stage, the integer nearest to `sqrt(period)`.
    pub fn smooth_period(&self) -> (r: usize)
        ensures
            r == self.spec_smooth_period(),
            is_nearest_sqrt(self.spec_period(), r as int),
            1 <= r <= self.spec_period(),
    {
        proof {
            use_type_invariant(self);
            let n = self.period as int;
            let s = self.smooth_period as int;
            // (2s - 1)^2 <= 4n forces s <= n for s >= 1.
            assert(s <= n) by (nonlinear_arith)
                requires
                    s >= 1,
                    (2 * s - 1) * (2 * s - 1) <= 4 * n,
            ;
        }
        self.smooth_period
    }

    /// Documented number of inputs before the first value:
    /// `period + smooth - 1`.
    pub fn warmup_period(&self) -> (r: usize)
        requires
            self.spec_period() + self.spec_smooth_period() - 1 <= usize::MAX,
        ensures
            r == hma_warmup(self.spec_period(), self.spec_smooth_period()),
    {
        proof {
            use_type_invariant(self);
        }
        self.period + (self.smooth_period - 1)
    }

    /// Feed one finite input through the stage cascade; returns whether the
    /// smoothing stage yields a value, i.e. whether this input produces an HMA
    /// value.
    pub fn advance(&mut self) -> (emitted: bool)
        ensures
            final(self).spec_period() == old(self).spec_period(),
            final(self).spec_half_period() == old(self).spec_half_period(),
            final(self).spec_smooth_period() == old(self).spec_smooth_period(),
            final(self).spec_counts() == cascade_step(
                old(self).spec_counts(),
                old(self).spec_half_period(),
                old(self).spec_period(),
                old(self).spec_smooth_period(),
            ),
            emitted == final(self).spec_ready(),
    {
        proof {
            use_type_invariant(&*self);
        }
        if self.half_seen < self.half_period {
            self.half_seen = self.half_seen + 1;
        }
        if self.half_seen < self.half_period {
            return false;
        }
        if self.full_seen < self.period {
            self.full_seen = self.full_seen + 1;
        }
        if self.full_seen < self.period {
            return false;
        }
        if self.smooth_seen < self.smooth_period {
            self.smooth_seen = self.smooth_seen + 1;
        }
        self.smooth_seen >= self.smooth_period
    }

    /// Forget every input, keeping the configuration.
    pub fn reset(&mut self)
        ensures
            final(self).spec_period() == old(self).spec_period(),
            final(self).spec_half_period() == old(self).spec_half_period(),
            final(self).spec_smooth_period() == old(self).spec_smooth_period(),
            final(self).spec_counts() == (0int, 0int, 0int),
            !final(self).spec_ready(),
    {
        proof {
            use_type_invariant(&*self);
        }
        self.smooth_seen = 0;
        self.full_seen = 0;
        self.half_seen = 0;
    }

    /// Whether the HMA has a value: its smoothing stage is full.
    pub fn is_ready(&self) -> (r: bool)
        ensures
            r == self.spec_ready(),
    {
        self.smooth_seen >= self.smooth_period
    }

    /// Display name.
    pub fn name(&self) -> (r: &'static str)
        ensures
            r@ == "HMA"@,
    {
        "HMA"
    }
}

} // verus!
