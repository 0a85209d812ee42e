//! Timers and jitter and latency measurement over monotonic-clock readings
//! in nanoseconds.

use vstd::prelude::*;
use crate::sync::isqrt;
use crate::timestamp::{monotonic_reading, TimeSpan};

verus! {

/// Time from `start` to `now`, zero when `now` is not later.
pub open spec fn elapsed_ns(start: u64, now: u64) -> nat {
    if now >= start {
        (now - start) as nat
    } else {
        0
    }
}

/// A timer that measures against a target duration.
pub struct HighPrecisionTimer {
    start_time: u64,
    target_duration: TimeSpan,
    calibration_iterations: usize,
    calibrated_loop_delay_ns: u64,
}

impl HighPrecisionTimer {
    pub closed spec fn start_spec(&self) -> u64 {
        self.start_time
    }

    pub closed spec fn target_spec(&self) -> TimeSpan {
        self.target_duration
    }

    pub closed spec fn iterations_spec(&self) -> usize {
        self.calibration_iterations
    }

    pub closed spec fn loop_delay_spec(&self) -> u64 {
        self.calibrated_loop_delay_ns
    }

    /// A timer started now with no target, to calibrate over 1000 iterations.
    pub fn new() -> (r: Self)
        ensures
            r.target_spec()@ == 0,
            r.iterations_spec() == 1000,
            r.loop_delay_spec() == 0,
    {
        HighPrecisionTimer {
            start_time: monotonic_reading(),
            target_duration: TimeSpan::zero(),
            calibration_iterations: 1000,
            calibrated_loop_delay_ns: 0,
        }
    }

    /// Records the per-iteration overhead from the time `elapsed` that the
    /// calibration loop took.
    pub fn calibrate_with(&mut self, elapsed: TimeSpan)
        ensures
            final(self).loop_delay_spec() == (if old(self).iterations_spec() == 0 {
                0
            } else {
                (elapsed@ as int) / (old(self).iterations_spec() as int)
            }),
            final(self).start_spec() == old(self).start_spec(),
            final(self).target_spec() == old(self).target_spec(),
            final(self).iterations_spec() == old(self).iterations_spec(),
    {
        self.calibrated_loop_delay_ns = if self.calibration_iterations == 0 {
            0
        } else {
            elapsed.as_nanos() / self.calibration_iterations as u64
        };
    }

    /// Times an empty loop of the calibration length and records its
    /// per-iteration overhead.
    pub fn calibrate(&mut self)
        ensures
            final(self).start_spec() == old(self).start_spec(),
            final(self).target_spec() == old(self).target_spec(),
            final(self).iterations_spec() == old(self).iterations_spec(),
    {
        let begin = monotonic_reading();
        let mut i: usize = 0;
        while i < self.calibration_iterations
            invariant
                i <= self.calibration_iterations,
            decreases self.calibration_iterations - i,
        {
            i = i + 1;
        }
        let end = monotonic_reading();
        let elapsed = if end >= begin {
            end - begin
        } else {
            0
        };
        self.calibrate_with(TimeSpan::from_nanos(elapsed));
    }

    /// Restarts the timer at `now` with target `duration`.
    pub fn start_at(&mut self, now: u64, duration: TimeSpan)
        ensures
            final(self).start_spec() == now,
            final(self).target_spec() == duration,
            final(self).iterations_spec() == old(self).iterations_spec(),
            final(self).loop_delay_spec() == old(self).loop_delay_spec(),
    {
        self.start_time = now;
        self.target_duration = duration;
    }

    /// Restarts the timer now with target `duration`.
    pub fn start(&mut self, duration: TimeSpan)
        ensures
            final(self).target_spec() == duration,
            final(self).iterations_spec() == old(self).iterations_spec(),
            final(self).loop_delay_spec() == old(self).loop_delay_spec(),
    {
        let now = monotonic_reading();
        self.start_at(now, duration);
    }

    /// Time since the start at `now`.
    pub fn elapsed_at(&self, now: u64) -> (r: TimeSpan)
        ensures
            r@ == elapsed_ns(self.start_spec(), now),
    {
        if now >= self.start_time {
            TimeSpan::from_nanos(now - self.start_time)
        } else {
            TimeSpan::zero()
        }
    }

    /// Time since the start.
    pub fn elapsed(&self) -> TimeSpan {
        let now = monotonic_reading();
        self.elapsed_at(now)
    }

    /// Whether the target duration has passed at `now`.
    pub fn is_elapsed_at(&self, now: u64) -> (r: bool)
        ensures
            r == (elapsed_ns(self.start_spec(), now) >= self.target_spec()@),
    {
        self.elapsed_at(now).as_nanos() >= self.target_duration.as_nanos()
    }

    /// Whether the target duration has passed.
    pub fn is_elapsed(&self) -> bool {
        let now = monotonic_reading();
        self.is_elapsed_at(now)
    }
}

/// Sum of a sequence of integers.
pub open spec fn total(s: Seq<u64>) -> int
    decreases s.len(),
{
    if s.len() == 0 {
        0
    } else {
        total(s.drop_last()) + s.last()
    }
}

/// Sum of squared deviations from `mean`, saturating at the largest `u128`.
pub open spec fn capped_sq_dev(s: Seq<u64>, mean: int) -> int
    decreases s.len(),
{
    if s.len() == 0 {
        0
    } else {
        let x = capped_sq_dev(s.drop_last(), mean) + (s.last() - mean) * (s.last() - mean);
        if x <= u128::MAX {
            x
        } else {
            u128::MAX as int
        }
    }
}

/// Summary of a jitter measurement.
#[derive(Clone, Copy, Debug, PartialEq, Eq)]
pub struct JitterStats {
    pub count: usize,
    pub min: TimeSpan,
    pub max: TimeSpan,
    pub mean: TimeSpan,
    /// Spread between the largest and the smallest value.
    pub jitter: TimeSpan,
    pub std_dev: TimeSpan,
}

/// A series of timing measurements.
pub struct JitterMeasurement {
    values: Vec<u64>,
    min: u64,
    max: u64,
    sum: u128,
}

impl JitterMeasurement {
    /// The measured values in nanoseconds, in the order added.
    pub closed spec fn values_spec(&self) -> Seq<u64> {
        self.values@
    }

    pub closed spec fn min_spec(&self) -> u64 {
        self.min
    }

    pub closed spec fn max_spec(&self) -> u64 {
        self.max
    }

    pub closed spec fn wf(&self) -> bool {
        &&& self.sum == total(self.values@)
        &&& self.sum <= self.values@.len() * (u64::MAX as int)
        &&& forall|k: int| 0 <= k < self.values@.len() ==> self.min <= #[trigger] self.values@[k] <= self.max
        &&& self.values@.len() > 0 ==> self.values@.contains(self.min) && self.values@.contains(self.max)
        &&& self.values@.len() == 0 ==> self.min == u64::MAX && self.max == 0
    }

    /// An empty measurement.
    pub fn new() -> (r: Self)
        ensures
            r.wf(),
            r.values_spec().len() == 0,
    {
        JitterMeasurement { values: Vec::new(), min: u64::MAX, max: 0, sum: 0 }
    }

    /// Adds a value.
    pub fn add(&mut self, value: TimeSpan)
        requires
            old(self).wf(),
            old(self).values_spec().len() < usize::MAX,
        ensures
            final(self).wf(),
            final(self).values_spec() == old(self).values_spec().push(value@ as u64),
    {
        let v = value.as_nanos();
        let ghost before = self.values@;
        self.values.push(v);
        assert(self.values@.drop_last() =~= before);
        if v < self.min {
            self.min = v;
        }
        if v > self.max {
            self.max = v;
        }
        self.sum = self.sum + v as u128;
        proof {
            assert(self.values@.contains(v)) by {
                assert(self.values@[self.values@.len() - 1] == v);
            }
            if before.len() > 0 {
                assert(before.contains(old(self).min));
                let k = choose|k: int| 0 <= k < before.len() && before[k] == old(self).min;
                assert(self.values@[k] == old(self).min);
                let k2 = choose|k2: int| 0 <= k2 < before.len() && before[k2] == old(self).max;
                assert(self.values@[k2] == old(self).max);
            }
        }
    }

    /// Mean of the values, zero without values.
    pub fn mean(&self) -> (r: TimeSpan)
        requires
            self.wf(),
        ensures
            r@ == (if self.values_spec().len() == 0 {
                0
            } else {
                total(self.values_spec()) / (self.values_spec().len() as int)
            }),
    {
        let n = self.values.len();
        if n == 0 {
            TimeSpan::zero()
        } else {
            let m = self.sum / n as u128;
            assert(m <= u64::MAX) by (nonlinear_arith)
                requires
                    self.sum <= n * (u64::MAX as int),
                    n > 0,
                    m == (self.sum as int) / (n as int),
            ;
            TimeSpan::from_nanos(m as u64)
        }
    }

    /// Spread between the largest and smallest value, zero without values.
    pub fn jitter(&self) -> (r: TimeSpan)
        requires
            self.wf(),
        ensures
            r@ == (if self.values_spec().len() == 0 {
                0
            } else {
                self.max_spec() - self.min_spec()
            }),
            forall|i: int, j: int|
                0 <= i < self.values_spec().len() && 0 <= j < self.values_spec().len() ==> self.values_spec()[i]
                    - self.values_spec()[j] <= r@,
    {
        if self.values.len() == 0 {
            TimeSpan::zero()
        } else {
            proof {
                let k = choose|k: int| 0 <= k < self.values@.len() && self.values@[k] == self.min;
                assert(self.min <= self.values@[k]);
            }
            TimeSpan::from_nanos(self.max - self.min)
        }
    }

    /// Whether `r` is the sample standard deviation (over `n - 1`) of the
    /// values, rounded down, with squared deviations summed saturating; zero
    /// for fewer than two values.
    pub open spec fn is_std_dev(&self, r: nat) -> bool {
        if self.values_spec().len() < 2 {
            r == 0
        } else {
            let n = self.values_spec().len() as int;
            let mean = total(self.values_spec()) / n;
            let v = capped_sq_dev(self.values_spec(), mean) / (n - 1);
            r * r <= v < (r + 1) * (r + 1)
        }
    }

    /// Sample standard deviation (over `n - 1`), zero for fewer than two
    /// values; squared deviations are summed saturating.
    pub fn std_dev(&self) -> (r: TimeSpan)
        requires
            self.wf(),
        ensures
            self.is_std_dev(r@),
    {
        let n = self.values.len();
        if n < 2 {
            return TimeSpan::zero();
        }
        let mean = self.mean().as_nanos();
        let mut acc: u128 = 0;
        let mut i: usize = 0;
        while i < n
            invariant
                i <= n,
                n == self.values@.len(),
                acc == capped_sq_dev(self.values@.subrange(0, i as int), mean as int),
            decreases n - i,
        {
            assert(self.values@.subrange(0, i + 1).drop_last() =~= self.values@.subrange(0, i as int));
            let x = self.values[i];
            let d: u64 = if x >= mean {
                x - mean
            } else {
                mean - x
            };
            assert((x - mean) * (x - mean) == d * d) by (nonlinear_arith)
                requires
                    d == (if x >= mean {
                        x - mean
                    } else {
                        mean - x
                    }),
            ;
            assert(d as u128 * d as u128 <= u128::MAX) by (nonlinear_arith)
                requires
                    d <= u64::MAX,
            ;
            let sq: u128 = d as u128 * d as u128;
            acc = acc.saturating_add(sq);
            i = i + 1;
        }
        assert(self.values@.subrange(0, n as int) =~= self.values@);
        let v = acc / (n - 1) as u128;
        TimeSpan::from_nanos(isqrt(v))
    }

    /// Discards every value.
    pub fn reset(&mut self)
        ensures
            final(self).wf(),
            final(self).values_spec().len() == 0,
    {
        self.values = Vec::new();
        self.min = u64::MAX;
        self.max = 0;
        self.sum = 0;
    }

    /// Count, extremes, mean, spread and standard deviation. Without values
    /// the minimum is the largest span and the maximum is zero.
    pub fn get_stats(&self) -> (r: JitterStats)
        requires
            self.wf(),
        ensures
            r.count == self.values_spec().len(),
            r.min@ == self.min_spec(),
            r.max@ == self.max_spec(),
            r.mean == self.mean_spec(),
            r.jitter@ == (if self.values_spec().len() == 0 {
                0
            } else {
                self.max_spec() - self.min_spec()
            }),
            self.is_std_dev(r.std_dev@),
            self.values_spec().len() > 0 ==> r.min@ <= r.mean@ <= r.max@,
    {
        proof {
            if self.values@.len() > 0 {
                lemma_mean_between(self);
            }
        }
        JitterStats {
            count: self.values.len(),
            min: TimeSpan::from_nanos(self.min),
            max: TimeSpan::from_nanos(self.max),
            mean: self.mean(),
            jitter: self.jitter(),
            std_dev: self.std_dev(),
        }
    }

    pub open spec fn mean_spec(&self) -> TimeSpan {
        TimeSpan {
            nanos: (if self.values_spec().len() == 0 {
                0
            } else {
                total(self.values_spec()) / (self.values_spec().len() as int)
            }) as u64,
        }
    }
}

proof fn lemma_total_bounds(s: Seq<u64>, lo: u64, hi: u64)
    requires
        forall|k: int| 0 <= k < s.len() ==> lo <= #[trigger] s[k] <= hi,
    ensures
        lo * s.len() <= total(s) <= hi * s.len(),
    decreases s.len(),
{
    if s.len() > 0 {
        let t = s.drop_last();
        assert forall|k: int| 0 <= k < t.len() implies lo <= #[trigger] t[k] <= hi by {
            assert(t[k] == s[k]);
        }
        lemma_total_bounds(t, lo, hi);
        assert(lo * s.len() == lo * t.len() + lo) by (nonlinear_arith)
            requires
                s.len() == t.len() + 1,
        ;
        assert(hi * s.len() == hi * t.len() + hi) by (nonlinear_arith)
            requires
                s.len() == t.len() + 1,
        ;
    }
}

proof fn lemma_mean_between(m: &JitterMeasurement)
    requires
        m.wf(),
        m.values_spec().len() > 0,
    ensures
        m.min_spec() <= total(m.values_spec()) / (m.values_spec().len() as int) <= m.max_spec(),
{
    let s = m.values_spec();
    lemma_total_bounds(s, m.min_spec(), m.max_spec());
    let n = s.len() as int;
    let t = total(s);
    assert(m.min_spec() <= t / n <= m.max_spec()) by (nonlinear_arith)
        requires
            n > 0,
            m.min_spec() * n <= t <= m.max_spec() * n,
    ;
}

/// Latency between start and end events.
pub struct LatencyMeasurement {
    jitter: JitterMeasurement,
    last_start: Option<u64>,
}

impl LatencyMeasurement {
    pub closed spec fn samples(&self) -> Seq<u64> {
        self.jitter.values_spec()
    }

    pub closed spec fn pending_start(&self) -> Option<u64> {
        self.last_start
    }

    pub closed spec fn wf(&self) -> bool {
        self.jitter.wf()
    }

    pub fn new() -> (r: Self)
        ensures
            r.wf(),
            r.samples().len() == 0,
            r.pending_start() is None,
    {
        LatencyMeasurement { jitter: JitterMeasurement::new(), last_start: None }
    }

    /// Records a start event at `now`.
    pub fn start_at(&mut self, now: u64)
        ensures
            final(self).pending_start() == Some(now),
            final(self).samples() == old(self).samples(),
            final(self).wf() == old(self).wf(),
    {
        self.last_start = Some(now);
    }

    /// Records a start event now.
    pub fn start(&mut self)
        ensures
            final(self).pending_start() is Some,
            final(self).samples() == old(self).samples(),
            final(self).wf() == old(self).wf(),
    {
        let now = monotonic_reading();
        self.start_at(now);
    }

    /// Records an end event at `now`: the latency since the pending start,
    /// which is then consumed; `None` without a pending start.
    pub fn end_at(&mut self, now: u64) -> (r: Option<TimeSpan>)
        requires
            old(self).wf(),
            old(self).samples().len() < usize::MAX,
        ensures
            final(self).wf(),
            final(self).pending_start() is None,
            match old(self).pending_start() {
                None => r is None && final(self).samples() == old(self).samples(),
                Some(s) => r matches Some(l) && l@ == elapsed_ns(s, now) && final(self).samples()
                    == old(self).samples().push(l@ as u64),
            },
    {
        match self.last_start {
            None => None,
            Some(s) => {
                let latency = if now >= s {
                    TimeSpan::from_nanos(now - s)
                } else {
                    TimeSpan::zero()
                };
                self.jitter.add(latency);
                self.last_start = None;
                Some(latency)
            },
        }
    }

    /// Records an end event now.
    pub fn end(&mut self) -> (r: Option<TimeSpan>)
        requires
            old(self).wf(),
            old(self).samples().len() < usize::MAX,
        ensures
            final(self).wf(),
            final(self).pending_start() is None,
            old(self).pending_start() is None ==> r is None,
            old(self).pending_start() is Some ==> r is Some,
    {
        let now = monotonic_reading();
        self.end_at(now)
    }

    pub fn get_stats(&self) -> (r: JitterStats)
        requires
            self.wf(),
        ensures
            r.count == self.samples().len(),
    {
        self.jitter.get_stats()
    }

    /// Discards all samples and any pending start.
    pub fn reset(&mut self)
        ensures
            final(self).wf(),
            final(self).samples().len() == 0,
            final(self).pending_start() is None,
    {
        self.jitter.reset();
        self.last_start = None;
    }
}

} // verus!
