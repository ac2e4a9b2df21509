//! Clock offset, round-trip delay and drift against a peer, estimated from
//! four-timestamp ping/pong exchanges and smoothed by exponentially weighted
//! moving averages.
//!
//! The estimate is kept in fixed point: offsets and delays in microseconds,
//! drift in thousandths of a part per million, smoothing factors in
//! thousandths. Every division truncates toward zero.
use vstd::prelude::*;

verus! {

/// Denominator of the smoothing factors.
pub const FACTOR_SCALE: u32 = 1000;

/// Bound on the magnitude of an offset or delay in microseconds that four
/// 64-bit millisecond timestamps can produce.
pub const SAMPLE_BOUND: i128 = 0x10_0000_0000_0000_0000_0000;

/// Bound on the magnitude of a drift in thousandths of a ppm.
pub const DRIFT_BOUND: i128 = 0x1_0000_0000_0000_0000_0000_0000_0000;

/// The smoothed estimate.
#[derive(Debug, Clone, Copy, PartialEq, Eq, Structural)]
pub struct TimeSyncState {
    /// How far the peer's clock is ahead of ours, in microseconds.
    pub offset_us: i128,
    /// Round-trip delay, in microseconds; never negative.
    pub delay_us: i128,
    /// Rate of change of the offset, in thousandths of a ppm.
    pub drift_milli_ppm: i128,
}

/// `v / d`, rounded toward zero.
pub open spec fn trunc_div(v: int, d: int) -> int {
    if v >= 0 {
        v / d
    } else {
        -((-v) / d)
    }
}

/// The offset of one exchange in microseconds: `((t1 - t0) + (t2 - t3)) / 2` ms.
pub open spec fn sample_offset_us(t0: u64, t1: u64, t2: u64, t3: u64) -> int {
    ((t1 - t0) + (t2 - t3)) * 500
}

/// The round-trip delay of one exchange in microseconds: `(t3 - t0) - (t2 - t1)` ms.
pub open spec fn sample_delay_us(t0: u64, t1: u64, t2: u64, t3: u64) -> int {
    ((t3 - t0) - (t2 - t1)) * 1000
}

/// `max(x, 0)`.
pub open spec fn non_negative(x: int) -> int {
    if x < 0 {
        0
    } else {
        x
    }
}

/// One smoothing step `x <- (1 - a) x + a new`, with `a = factor / 1000`.
pub open spec fn ewma(x: int, new: int, factor: u32) -> int {
    trunc_div((FACTOR_SCALE - factor) * x + factor * new, FACTOR_SCALE as int)
}

/// The drift between two offsets `dt_ms` apart, in thousandths of a ppm:
/// `1e6 * doff / dt` ppm.
pub open spec fn drift_sample(offset_us: int, prev_offset_us: int, dt_ms: int) -> int {
    trunc_div((offset_us - prev_offset_us) * 1_000_000, dt_ms)
}

pub(crate) fn div_toward_zero(v: i128, d: i128) -> (r: i128)
    requires
        d > 0,
        -0x4000_0000_0000_0000_0000_0000_0000_0000 < v < 0x4000_0000_0000_0000_0000_0000_0000_0000,
    ensures
        r == trunc_div(v as int, d as int),
{
    if v >= 0 {
        v / d
    } else {
        let q = (-v) / d;
        -q
    }
}

pub(crate) proof fn lemma_trunc_div_shrinks(v: int, d: int)
    requires
        d >= 1,
    ensures
        v >= 0 ==> 0 <= trunc_div(v, d) <= v,
        v < 0 ==> v <= trunc_div(v, d) <= 0,
{
    if v >= 0 {
        assert(0 <= v / d <= v) by (nonlinear_arith)
            requires
                v >= 0,
                d >= 1,
        ;
    } else {
        assert(0 <= (-v) / d <= -v) by (nonlinear_arith)
            requires
                -v > 0,
                d >= 1,
        ;
    }
}

fn ewma_step(x: i128, new: i128, factor: u32) -> (r: i128)
    requires
        factor <= FACTOR_SCALE,
        -DRIFT_BOUND <= x <= DRIFT_BOUND,
        -DRIFT_BOUND <= new <= DRIFT_BOUND,
    ensures
        r == ewma(x as int, new as int, factor),
{
    let f = factor as i128;
    proof {
        assert(-1000 * DRIFT_BOUND <= (1000 - f) * x <= 1000 * DRIFT_BOUND) by (nonlinear_arith)
            requires
                0 <= f <= 1000,
                -DRIFT_BOUND <= x <= DRIFT_BOUND,
        ;
        assert(-1000 * DRIFT_BOUND <= f * new <= 1000 * DRIFT_BOUND) by (nonlinear_arith)
            requires
                0 <= f <= 1000,
                -DRIFT_BOUND <= new <= DRIFT_BOUND,
        ;
    }
    div_toward_zero((1000 - f) * x + f * new, 1000)
}

proof fn lemma_scaled_difference_bound(d: int)
    requires
        -2 * SAMPLE_BOUND <= d <= 2 * SAMPLE_BOUND,
    ensures
        -DRIFT_BOUND <= d * 1_000_000 <= DRIFT_BOUND,
{
    let b = 2 * SAMPLE_BOUND;
    assert(d * 1_000_000 <= b * 1_000_000) by (nonlinear_arith)
        requires
            d <= b,
    ;
    assert(-b * 1_000_000 <= d * 1_000_000) by (nonlinear_arith)
        requires
            -b <= d,
    ;
    assert(b * 1_000_000 <= DRIFT_BOUND);
}

proof fn lemma_ewma_bound(x: int, new: int, factor: u32, bound: int)
    requires
        factor <= FACTOR_SCALE,
        -bound <= x <= bound,
        -bound <= new <= bound,
    ensures
        -bound <= ewma(x, new, factor) <= bound,
{
    let f = factor as int;
    let v = (1000 - f) * x + f * new;
    assert(-1000 * bound <= v <= 1000 * bound) by (nonlinear_arith)
        requires
            0 <= f <= 1000,
            -bound <= x <= bound,
            -bound <= new <= bound,
            v == (1000 - f) * x + f * new,
    ;
    if v >= 0 {
        assert(v / 1000 <= bound) by (nonlinear_arith)
            requires
                0 <= v <= 1000 * bound,
        ;
        assert(v / 1000 >= 0) by (nonlinear_arith)
            requires
                v >= 0,
        ;
    } else {
        assert((-v) / 1000 <= bound) by (nonlinear_arith)
            requires
                0 < -v <= 1000 * bound,
        ;
        assert((-v) / 1000 >= 0) by (nonlinear_arith)
            requires
                -v > 0,
        ;
    }
}

/// A source of time-sync estimates fed with four-timestamp exchanges.
pub trait TimeSync: Sized {
    /// Whether the estimator is in a usable state.
    spec fn inv(&self) -> bool;

    /// The current estimate.
    spec fn estimate(&self) -> TimeSyncState;

    /// Whether `self` is what the exchange `t0`..`t3` makes of `prev`.
    spec fn follows(&self, prev: Self, t0_ms: u64, t1_ms: u64, t2_ms: u64, t3_ms: u64) -> bool;

    /// Folds in one exchange and returns the new estimate.
    fn update(&mut self, t0_ms: u64, t1_ms: u64, t2_ms: u64, t3_ms: u64) -> (r: TimeSyncState)
        requires
            old(self).inv(),
        ensures
            final(self).inv(),
            final(self).follows(*old(self), t0_ms, t1_ms, t2_ms, t3_ms),
            r == final(self).estimate(),
    ;

    /// The current estimate; its offset stays within what four 64-bit
    /// millisecond timestamps can produce.
    fn state(&self) -> (r: TimeSyncState)
        requires
            self.inv(),
        ensures
            r == self.estimate(),
            -SAMPLE_BOUND <= r.offset_us <= SAMPLE_BOUND,
    ;
}

/// Whether `next` is what one exchange `t0`..`t3` makes of `prev`: the
/// factors stay, the exchange becomes the previous one, the first exchange
/// seeds offset and delay and later ones are smoothed in with alpha, and drift
/// is smoothed in with beta whenever `t3` is later than the previous `t3`.
pub open spec fn is_update(
    prev: TimeSyncEstimator,
    next: TimeSyncEstimator,
    t0_ms: u64,
    t1_ms: u64,
    t2_ms: u64,
    t3_ms: u64,
) -> bool {
    let off = sample_offset_us(t0_ms, t1_ms, t2_ms, t3_ms);
    let del = non_negative(sample_delay_us(t0_ms, t1_ms, t2_ms, t3_ms));
    let s = prev.spec_state();
    let r = next.spec_state();
    &&& next.spec_alpha() == prev.spec_alpha()
    &&& next.spec_beta() == prev.spec_beta()
    &&& next.spec_last_offset() == Some(off as i128)
    &&& next.spec_last_t3() == Some(t3_ms)
    &&& prev.spec_last_offset() is None ==> r.offset_us == off && r.delay_us == del
    &&& prev.spec_last_offset() is Some ==> r.offset_us == ewma(s.offset_us as int, off, prev.spec_alpha())
        && r.delay_us == ewma(s.delay_us as int, del, prev.spec_alpha())
    &&& match (prev.spec_last_offset(), prev.spec_last_t3()) {
        (Some(po), Some(pt)) if t3_ms > pt => r.drift_milli_ppm == ewma(
            s.drift_milli_ppm as int,
            drift_sample(off, po as int, t3_ms - pt),
            prev.spec_beta(),
        ),
        _ => r.drift_milli_ppm == s.drift_milli_ppm,
    }
}

/// Offset, delay and drift estimator.
#[derive(Debug)]
pub struct TimeSyncEstimator {
    alpha: u32,
    beta: u32,
    last_offset_us: Option<i128>,
    last_t3_ms: Option<u64>,
    state: TimeSyncState,
}

impl TimeSyncEstimator {
    /// Smoothing factor of offset and delay, in thousandths.
    pub closed spec fn spec_alpha(&self) -> u32 {
        self.alpha
    }

    /// Smoothing factor of drift, in thousandths.
    pub closed spec fn spec_beta(&self) -> u32 {
        self.beta
    }

    /// The raw offset of the previous exchange, if any.
    pub closed spec fn spec_last_offset(&self) -> Option<i128> {
        self.last_offset_us
    }

    /// The local receive time of the previous exchange, if any.
    pub closed spec fn spec_last_t3(&self) -> Option<u64> {
        self.last_t3_ms
    }

    pub closed spec fn spec_state(&self) -> TimeSyncState {
        self.state
    }

    pub closed spec fn wf(&self) -> bool {
        &&& self.alpha <= FACTOR_SCALE
        &&& self.beta <= FACTOR_SCALE
        &&& self.last_offset_us is Some <==> self.last_t3_ms is Some
        &&& self.last_offset_us matches Some(o) ==> -SAMPLE_BOUND <= o <= SAMPLE_BOUND
        &&& -SAMPLE_BOUND <= self.state.offset_us <= SAMPLE_BOUND
        &&& 0 <= self.state.delay_us <= SAMPLE_BOUND
        &&& -DRIFT_BOUND <= self.state.drift_milli_ppm <= DRIFT_BOUND
    }

    /// An estimator with smoothing factors `alpha` (offset and delay) and
    /// `beta` (drift), both in thousandths; the estimate starts at zero.
    pub fn new(alpha: u32, beta: u32) -> (r: Self)
        requires
            alpha <= FACTOR_SCALE,
            beta <= FACTOR_SCALE,
        ensures
            r.wf(),
            r.spec_alpha() == alpha,
            r.spec_beta() == beta,
            r.spec_last_offset() is None,
            r.spec_state() == (TimeSyncState { offset_us: 0, delay_us: 0, drift_milli_ppm: 0 }),
    {
        TimeSyncEstimator {
            alpha,
            beta,
            last_offset_us: None,
            last_t3_ms: None,
            state: TimeSyncState { offset_us: 0, delay_us: 0, drift_milli_ppm: 0 },
        }
    }

    /// Folds in one exchange: `t0` local send, `t1` peer receive, `t2` peer
    /// send, `t3` local receive, all in milliseconds. The first exchange seeds
    /// offset and delay; later ones are smoothed in with `alpha`. Drift is
    /// smoothed in with `beta` whenever `t3` is later than the previous `t3`.
    pub fn update(&mut self, t0_ms: u64, t1_ms: u64, t2_ms: u64, t3_ms: u64) -> (r: TimeSyncState)
        requires
            old(self).wf(),
        ensures
            final(self).wf(),
            r == final(self).spec_state(),
            is_update(*old(self), *final(self), t0_ms, t1_ms, t2_ms, t3_ms),
    {
        let offset: i128 = ((t1_ms as i128 - t0_ms as i128) + (t2_ms as i128 - t3_ms as i128)) * 500;
        let raw_delay: i128 = ((t3_ms as i128 - t0_ms as i128) - (t2_ms as i128 - t1_ms as i128))
            * 1000;
        let delay: i128 = if raw_delay < 0 {
            0
        } else {
            raw_delay
        };
        assert(-SAMPLE_BOUND <= offset <= SAMPLE_BOUND);
        assert(0 <= delay <= SAMPLE_BOUND);
        match self.last_offset_us {
            None => {
                self.state.offset_us = offset;
                self.state.delay_us = delay;
            },
            Some(_) => {
                proof {
                    lemma_ewma_bound(self.state.offset_us as int, offset as int, self.alpha, SAMPLE_BOUND as int);
                    lemma_ewma_bound(self.state.delay_us as int, delay as int, self.alpha, SAMPLE_BOUND as int);
                    assert(ewma(self.state.delay_us as int, delay as int, self.alpha) >= 0) by (nonlinear_arith)
                        requires
                            self.state.delay_us >= 0,
                            delay >= 0,
                            self.alpha <= 1000,
                    ;
                }
                self.state.offset_us = ewma_step(self.state.offset_us, offset, self.alpha);
                self.state.delay_us = ewma_step(self.state.delay_us, delay, self.alpha);
            },
        }
        match (self.last_offset_us, self.last_t3_ms) {
            (Some(prev_off), Some(prev_t3)) => {
                if t3_ms > prev_t3 {
                    let dt = (t3_ms - prev_t3) as i128;
                    let ppm = div_toward_zero((offset - prev_off) * 1_000_000, dt);
                    proof {
                        assert(-SAMPLE_BOUND <= prev_off <= SAMPLE_BOUND);
                        let d: int = offset as int - prev_off as int;
                        lemma_scaled_difference_bound(d);
                        lemma_trunc_div_shrinks((offset - prev_off) * 1_000_000, dt as int);
                        lemma_ewma_bound(self.state.drift_milli_ppm as int, ppm as int, self.beta, DRIFT_BOUND as int);
                    }
                    self.state.drift_milli_ppm = ewma_step(self.state.drift_milli_ppm, ppm, self.beta);
                }
            },
            _ => {},
        }
        self.last_offset_us = Some(offset);
        self.last_t3_ms = Some(t3_ms);
        self.state
    }

    /// The current estimate.
    pub fn state(&self) -> (r: TimeSyncState)
        requires
            self.wf(),
        ensures
            r == self.spec_state(),
            -SAMPLE_BOUND <= r.offset_us <= SAMPLE_BOUND,
            0 <= r.delay_us <= SAMPLE_BOUND,
            -DRIFT_BOUND <= r.drift_milli_ppm <= DRIFT_BOUND,
    {
        self.state
    }
}

impl TimeSync for TimeSyncEstimator {
    open spec fn inv(&self) -> bool {
        self.wf()
    }

    open spec fn estimate(&self) -> TimeSyncState {
        self.spec_state()
    }

    open spec fn follows(&self, prev: Self, t0_ms: u64, t1_ms: u64, t2_ms: u64, t3_ms: u64) -> bool {
        is_update(prev, *self, t0_ms, t1_ms, t2_ms, t3_ms)
    }

    fn update(&mut self, t0_ms: u64, t1_ms: u64, t2_ms: u64, t3_ms: u64) -> (r: TimeSyncState) {
        TimeSyncEstimator::update(self, t0_ms, t1_ms, t2_ms, t3_ms)
    }

    fn state(&self) -> (r: TimeSyncState) {
        TimeSyncEstimator::state(self)
    }
}

} // verus!
