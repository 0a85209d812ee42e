//! Pipeline counters, sliding-window rates and latency histograms.

use vstd::prelude::*;
use std::collections::VecDeque;

verus! {

broadcast use vstd::std_specs::vecdeque::group_vec_dequeue_axioms;

/// Length of the rate window in milliseconds.
pub const METRICS_WINDOW_MS: u64 = 60_000;

/// Number of latency histogram buckets: nine bounded ones and one overflow bucket.
pub const LATENCY_BUCKETS: usize = 10;

/// Adds one, saturating at the largest counter value.
pub open spec fn bump(x: u64) -> u64 {
    if x < u64::MAX {
        (x + 1) as u64
    } else {
        x
    }
}

fn saturating_inc(x: u64) -> (r: u64)
    ensures
        r == bump(x),
{
    if x < u64::MAX {
        x + 1
    } else {
        x
    }
}

/// Upper bound in microseconds of latency bucket `k` (0.1, 0.5, 1, 2, 5, 10, 20, 50, 100 ms).
pub open spec fn bucket_bound_us(k: int) -> int {
    if k == 0 {
        100
    } else if k == 1 {
        500
    } else if k == 2 {
        1_000
    } else if k == 3 {
        2_000
    } else if k == 4 {
        5_000
    } else if k == 5 {
        10_000
    } else if k == 6 {
        20_000
    } else if k == 7 {
        50_000
    } else {
        100_000
    }
}

/// The histogram bucket of a latency: the first bucket whose bound is at least
/// the latency, or the overflow bucket past the last bound.
pub open spec fn bucket_of(latency_us: u64) -> int {
    if latency_us <= 100 {
        0
    } else if latency_us <= 500 {
        1
    } else if latency_us <= 1_000 {
        2
    } else if latency_us <= 2_000 {
        3
    } else if latency_us <= 5_000 {
        4
    } else if latency_us <= 10_000 {
        5
    } else if latency_us <= 20_000 {
        6
    } else if latency_us <= 50_000 {
        7
    } else if latency_us <= 100_000 {
        8
    } else {
        9
    }
}

/// Index of the histogram bucket for `latency_us`.
pub fn latency_bucket(latency_us: u64) -> (r: usize)
    ensures
        r == bucket_of(latency_us),
        r < LATENCY_BUCKETS,
        r < 9 ==> latency_us <= bucket_bound_us(r as int),
        r > 0 ==> latency_us > bucket_bound_us(r - 1),
{
    if latency_us <= 100 {
        0
    } else if latency_us <= 500 {
        1
    } else if latency_us <= 1_000 {
        2
    } else if latency_us <= 2_000 {
        3
    } else if latency_us <= 5_000 {
        4
    } else if latency_us <= 10_000 {
        5
    } else if latency_us <= 20_000 {
        6
    } else if latency_us <= 50_000 {
        7
    } else if latency_us <= 100_000 {
        8
    } else {
        9
    }
}

/// `pruned` is `events` without a prefix of entries older than the window
/// ending at `now_ms`, and its oldest entry lies inside that window.
pub open spec fn window_pruned(events: Seq<u64>, pruned: Seq<u64>, now_ms: u64) -> bool {
    exists|k: int|
        0 <= k <= events.len() && pruned == events.subrange(k, events.len() as int) && (forall|
            j: int,
        |
            0 <= j < k ==> events[j] + METRICS_WINDOW_MS < now_ms) && (k < events.len()
            ==> events[k] + METRICS_WINDOW_MS >= now_ms)
}

/// Appends `now_ms` to `history` and drops the entries at its front that lie
/// more than one window before `now_ms`.
fn push_and_prune(history: &mut VecDeque<u64>, now_ms: u64)
    ensures
        window_pruned(old(history)@.push(now_ms), final(history)@, now_ms),
{
    history.push_back(now_ms);
    let ghost events = history@;
    let ghost mut k: int = 0;
    while history.len() > 0 && (history[0] as u128) + (METRICS_WINDOW_MS as u128) < (now_ms as u128)
        invariant
            0 <= k <= events.len(),
            history@ == events.subrange(k, events.len() as int),
            forall|j: int| 0 <= j < k ==> events[j] + METRICS_WINDOW_MS < now_ms,
        decreases history@.len(),
    {
        history.pop_front();
        proof {
            k = k + 1;
        }
    }
    assert(window_pruned(events, history@, now_ms));
}

/// Adds one to bucket `k` of a histogram, saturating.
fn bump_bucket(histogram: &mut Vec<u64>, k: usize)
    requires
        k < old(histogram)@.len(),
    ensures
        final(histogram)@ == old(histogram)@.update(k as int, bump(old(histogram)@[k as int])),
{
    let v = histogram[k];
    histogram[k] = saturating_inc(v);
}

/// A snapshot of the pipeline's counters and gauges.
#[derive(Clone, Copy, Debug, PartialEq, Eq, Default)]
pub struct PipelineStats {
    pub total_frames_acquired: u64,
    pub total_frames_processed: u64,
    pub total_frames_dropped: u64,
    pub buffer_overflows: u64,
    pub desync_events: u64,
    pub recovery_events: u64,
    /// Acquisitions in the last window, in thousandths of a frame per second.
    pub avg_acquisition_rate_milli: u64,
    /// Processings in the last window, in thousandths of a frame per second.
    pub avg_processing_rate_milli: u64,
    /// Mean acquisition latency in microseconds.
    pub avg_acquisition_latency_us: u64,
    /// Mean processing latency in microseconds.
    pub avg_processing_latency_us: u64,
    /// Ring occupancy in percent at the last update.
    pub avg_buffer_usage_percent: u64,
}

/// Counters, rate windows and latency histograms of one pipeline.
pub struct PipelineMetrics {
    frames_acquired: u64,
    frames_processed: u64,
    frames_dropped: u64,
    buffer_overflows: u64,
    desync_events: u64,
    recovery_events: u64,
    acquisition_history: VecDeque<u64>,
    processing_history: VecDeque<u64>,
    acquisition_histogram: Vec<u64>,
    processing_histogram: Vec<u64>,
    acquisition_latency_total_us: u64,
    processing_latency_total_us: u64,
    buffer_used: usize,
    buffer_capacity: usize,
}

/// Frames per window expressed in thousandths of a frame per second,
/// saturating at the largest counter value.
pub open spec fn rate_milli(events: nat) -> int {
    let x = events * 1000 / 60;
    if x <= u64::MAX {
        x as int
    } else {
        u64::MAX as int
    }
}

/// Mean of a saturating total over `count` samples, zero without samples.
pub open spec fn mean_of(total: u64, count: u64) -> int {
    if count == 0 {
        0
    } else {
        (total / count) as int
    }
}

/// Occupancy in percent, zero for a ring of no capacity and at most 100.
pub open spec fn usage_percent(used: usize, capacity: usize) -> int {
    if capacity == 0 {
        0
    } else if used >= capacity {
        100
    } else {
        (used as int) * 100 / (capacity as int)
    }
}

impl PipelineMetrics {
    pub closed spec fn acquired(&self) -> u64 {
        self.frames_acquired
    }

    pub closed spec fn processed(&self) -> u64 {
        self.frames_processed
    }

    pub closed spec fn dropped(&self) -> u64 {
        self.frames_dropped
    }

    pub closed spec fn overflows(&self) -> u64 {
        self.buffer_overflows
    }

    pub closed spec fn desyncs(&self) -> u64 {
        self.desync_events
    }

    pub closed spec fn recoveries(&self) -> u64 {
        self.recovery_events
    }

    /// Times in milliseconds of the acquisitions inside the rate window, oldest first.
    pub closed spec fn acquisition_window(&self) -> Seq<u64> {
        self.acquisition_history@
    }

    /// Times in milliseconds of the processings inside the rate window, oldest first.
    pub closed spec fn processing_window(&self) -> Seq<u64> {
        self.processing_history@
    }

    pub closed spec fn acquisition_buckets(&self) -> Seq<u64> {
        self.acquisition_histogram@
    }

    pub closed spec fn processing_buckets(&self) -> Seq<u64> {
        self.processing_histogram@
    }

    pub closed spec fn acquisition_latency_total(&self) -> u64 {
        self.acquisition_latency_total_us
    }

    pub closed spec fn processing_latency_total(&self) -> u64 {
        self.processing_latency_total_us
    }

    pub closed spec fn usage(&self) -> (usize, usize) {
        (self.buffer_used, self.buffer_capacity)
    }

    pub closed spec fn wf(&self) -> bool {
        &&& self.acquisition_histogram@.len() == LATENCY_BUCKETS
        &&& self.processing_histogram@.len() == LATENCY_BUCKETS
    }

    /// The six event counters are equal in both.
    pub open spec fn same_counters(&self, other: &Self) -> bool {
        &&& self.acquired() == other.acquired()
        &&& self.processed() == other.processed()
        &&& self.dropped() == other.dropped()
        &&& self.overflows() == other.overflows()
        &&& self.desyncs() == other.desyncs()
        &&& self.recoveries() == other.recoveries()
    }

    /// Rate windows, histograms, latency totals and usage are equal in both.
    pub open spec fn same_gauges(&self, other: &Self) -> bool {
        &&& self.acquisition_window() == other.acquisition_window()
        &&& self.processing_window() == other.processing_window()
        &&& self.acquisition_buckets() == other.acquisition_buckets()
        &&& self.processing_buckets() == other.processing_buckets()
        &&& self.acquisition_latency_total() == other.acquisition_latency_total()
        &&& self.processing_latency_total() == other.processing_latency_total()
        &&& self.usage() == other.usage()
    }

    /// Metrics with every counter, window and histogram empty.
    pub fn new() -> (r: Self)
        ensures
            r.wf(),
            r.acquired() == 0,
            r.processed() == 0,
            r.dropped() == 0,
            r.overflows() == 0,
            r.desyncs() == 0,
            r.recoveries() == 0,
            r.acquisition_window().len() == 0,
            r.processing_window().len() == 0,
            r.acquisition_buckets() == Seq::new(LATENCY_BUCKETS as nat, |k: int| 0u64),
            r.processing_buckets() == Seq::new(LATENCY_BUCKETS as nat, |k: int| 0u64),
            r.acquisition_latency_total() == 0,
            r.processing_latency_total() == 0,
            r.usage() == (0usize, 0usize),
    {
        let r = PipelineMetrics {
            frames_acquired: 0,
            frames_processed: 0,
            frames_dropped: 0,
            buffer_overflows: 0,
            desync_events: 0,
            recovery_events: 0,
            acquisition_history: VecDeque::new(),
            processing_history: VecDeque::new(),
            acquisition_histogram: vec![0u64; LATENCY_BUCKETS],
            processing_histogram: vec![0u64; LATENCY_BUCKETS],
            acquisition_latency_total_us: 0,
            processing_latency_total_us: 0,
            buffer_used: 0,
            buffer_capacity: 0,
        };
        assert(r.acquisition_histogram@ =~= Seq::new(LATENCY_BUCKETS as nat, |k: int| 0u64));
        assert(r.processing_histogram@ =~= Seq::new(LATENCY_BUCKETS as nat, |k: int| 0u64));
        r
    }

    /// Counts an acquisition at `now_ms` with the given latency.
    pub fn record_acquisition(&mut self, now_ms: u64, latency_us: u64)
        requires
            old(self).wf(),
        ensures
            final(self).wf(),
            final(self).acquired() == bump(old(self).acquired()),
            final(self).processed() == old(self).processed(),
            final(self).dropped() == old(self).dropped(),
            final(self).overflows() == old(self).overflows(),
            final(self).desyncs() == old(self).desyncs(),
            final(self).recoveries() == old(self).recoveries(),
            window_pruned(
                old(self).acquisition_window().push(now_ms),
                final(self).acquisition_window(),
                now_ms,
            ),
            final(self).acquisition_buckets() == old(self).acquisition_buckets().update(
                bucket_of(latency_us),
                bump(old(self).acquisition_buckets()[bucket_of(latency_us)]),
            ),
            final(self).acquisition_latency_total() == old(self).acquisition_latency_total().saturating_add(latency_us),
            final(self).processing_window() == old(self).processing_window(),
            final(self).processing_buckets() == old(self).processing_buckets(),
            final(self).processing_latency_total() == old(self).processing_latency_total(),
            final(self).usage() == old(self).usage(),
    {
        self.frames_acquired = saturating_inc(self.frames_acquired);
        push_and_prune(&mut self.acquisition_history, now_ms);
        let k = latency_bucket(latency_us);
        bump_bucket(&mut self.acquisition_histogram, k);
        self.acquisition_latency_total_us = self.acquisition_latency_total_us.saturating_add(
            latency_us,
        );
    }

    /// Counts a processed frame at `now_ms` with the given latency.
    pub fn record_processing(&mut self, now_ms: u64, latency_us: u64)
        requires
            old(self).wf(),
        ensures
            final(self).wf(),
            final(self).processed() == bump(old(self).processed()),
            final(self).acquired() == old(self).acquired(),
            final(self).dropped() == old(self).dropped(),
            final(self).overflows() == old(self).overflows(),
            final(self).desyncs() == old(self).desyncs(),
            final(self).recoveries() == old(self).recoveries(),
            window_pruned(
                old(self).processing_window().push(now_ms),
                final(self).processing_window(),
                now_ms,
            ),
            final(self).processing_buckets() == old(self).processing_buckets().update(
                bucket_of(latency_us),
                bump(old(self).processing_buckets()[bucket_of(latency_us)]),
            ),
            final(self).processing_latency_total() == old(self).processing_latency_total().saturating_add(latency_us),
            final(self).acquisition_window() == old(self).acquisition_window(),
            final(self).acquisition_buckets() == old(self).acquisition_buckets(),
            final(self).acquisition_latency_total() == old(self).acquisition_latency_total(),
            final(self).usage() == old(self).usage(),
    {
        self.frames_processed = saturating_inc(self.frames_processed);
        push_and_prune(&mut self.processing_history, now_ms);
        let k = latency_bucket(latency_us);
        bump_bucket(&mut self.processing_histogram, k);
        self.processing_latency_total_us = self.processing_latency_total_us.saturating_add(
            latency_us,
        );
    }

    pub fn record_dropped_frame(&mut self)
        ensures
            final(self).dropped() == bump(old(self).dropped()),
            final(self).acquired() == old(self).acquired(),
            final(self).processed() == old(self).processed(),
            final(self).overflows() == old(self).overflows(),
            final(self).desyncs() == old(self).desyncs(),
            final(self).recoveries() == old(self).recoveries(),
            final(self).same_gauges(old(self)),
            final(self).wf() == old(self).wf(),
    {
        self.frames_dropped = saturating_inc(self.frames_dropped);
    }

    pub fn record_buffer_overflow(&mut self)
        ensures
            final(self).overflows() == bump(old(self).overflows()),
            final(self).acquired() == old(self).acquired(),
            final(self).processed() == old(self).processed(),
            final(self).dropped() == old(self).dropped(),
            final(self).desyncs() == old(self).desyncs(),
            final(self).recoveries() == old(self).recoveries(),
            final(self).same_gauges(old(self)),
            final(self).wf() == old(self).wf(),
    {
        self.buffer_overflows = saturating_inc(self.buffer_overflows);
    }

    pub fn record_desync(&mut self)
        ensures
            final(self).desyncs() == bump(old(self).desyncs()),
            final(self).acquired() == old(self).acquired(),
            final(self).processed() == old(self).processed(),
            final(self).dropped() == old(self).dropped(),
            final(self).overflows() == old(self).overflows(),
            final(self).recoveries() == old(self).recoveries(),
            final(self).same_gauges(old(self)),
            final(self).wf() == old(self).wf(),
    {
        self.desync_events = saturating_inc(self.desync_events);
    }

    pub fn record_recovery(&mut self)
        ensures
            final(self).recoveries() == bump(old(self).recoveries()),
            final(self).acquired() == old(self).acquired(),
            final(self).processed() == old(self).processed(),
            final(self).dropped() == old(self).dropped(),
            final(self).overflows() == old(self).overflows(),
            final(self).desyncs() == old(self).desyncs(),
            final(self).same_gauges(old(self)),
            final(self).wf() == old(self).wf(),
    {
        self.recovery_events = saturating_inc(self.recovery_events);
    }

    /// Records the ring's occupancy.
    pub fn update_buffer_usage(&mut self, used: usize, capacity: usize)
        ensures
            final(self).usage() == (used, capacity),
            final(self).same_counters(old(self)),
            final(self).acquisition_window() == old(self).acquisition_window(),
            final(self).processing_window() == old(self).processing_window(),
            final(self).acquisition_buckets() == old(self).acquisition_buckets(),
            final(self).processing_buckets() == old(self).processing_buckets(),
            final(self).acquisition_latency_total() == old(self).acquisition_latency_total(),
            final(self).processing_latency_total() == old(self).processing_latency_total(),
            final(self).wf() == old(self).wf(),
    {
        self.buffer_used = used;
        self.buffer_capacity = capacity;
    }

    /// The snapshot `get_stats` returns: counters as they stand, rates over
    /// the windows, mean latencies and the recorded usage.
    pub open spec fn snapshot(&self) -> PipelineStats {
        PipelineStats {
            total_frames_acquired: self.acquired(),
            total_frames_processed: self.processed(),
            total_frames_dropped: self.dropped(),
            buffer_overflows: self.overflows(),
            desync_events: self.desyncs(),
            recovery_events: self.recoveries(),
            avg_acquisition_rate_milli: rate_milli(self.acquisition_window().len()) as u64,
            avg_processing_rate_milli: rate_milli(self.processing_window().len()) as u64,
            avg_acquisition_latency_us: mean_of(self.acquisition_latency_total(), self.acquired())
                as u64,
            avg_processing_latency_us: mean_of(self.processing_latency_total(), self.processed())
                as u64,
            avg_buffer_usage_percent: usage_percent(self.usage().0, self.usage().1) as u64,
        }
    }

    /// A snapshot of the counters and gauges.
    pub fn get_stats(&self) -> (r: PipelineStats)
        ensures
            r.total_frames_acquired == self.acquired(),
            r.total_frames_processed == self.processed(),
            r.total_frames_dropped == self.dropped(),
            r.buffer_overflows == self.overflows(),
            r.desync_events == self.desyncs(),
            r.recovery_events == self.recoveries(),
            r.avg_acquisition_rate_milli == rate_milli(self.acquisition_window().len()),
            r.avg_processing_rate_milli == rate_milli(self.processing_window().len()),
            r.avg_acquisition_latency_us == mean_of(
                self.acquisition_latency_total(),
                self.acquired(),
            ),
            r.avg_processing_latency_us == mean_of(
                self.processing_latency_total(),
                self.processed(),
            ),
            r.avg_buffer_usage_percent == usage_percent(self.usage().0, self.usage().1),
            r == self.snapshot(),
    {
        let acq = self.acquisition_history.len() as u64;
        let proc = self.processing_history.len() as u64;
        PipelineStats {
            total_frames_acquired: self.frames_acquired,
            total_frames_processed: self.frames_processed,
            total_frames_dropped: self.frames_dropped,
            buffer_overflows: self.buffer_overflows,
            desync_events: self.desync_events,
            recovery_events: self.recovery_events,
            avg_acquisition_rate_milli: rate_milli_of(acq),
            avg_processing_rate_milli: rate_milli_of(proc),
            avg_acquisition_latency_us: if self.frames_acquired == 0 {
                0
            } else {
                self.acquisition_latency_total_us / self.frames_acquired
            },
            avg_processing_latency_us: if self.frames_processed == 0 {
                0
            } else {
                self.processing_latency_total_us / self.frames_processed
            },
            avg_buffer_usage_percent: usage_percent_of(self.buffer_used, self.buffer_capacity),
        }
    }

    /// Clears the rate windows, histograms, latency totals and usage; the event
    /// counters are kept.
    pub fn reset(&mut self)
        ensures
            final(self).wf(),
            final(self).same_counters(old(self)),
            final(self).acquisition_window().len() == 0,
            final(self).processing_window().len() == 0,
            final(self).acquisition_buckets() == Seq::new(LATENCY_BUCKETS as nat, |k: int| 0u64),
            final(self).processing_buckets() == Seq::new(LATENCY_BUCKETS as nat, |k: int| 0u64),
            final(self).acquisition_latency_total() == 0,
            final(self).processing_latency_total() == 0,
            final(self).usage() == (0usize, 0usize),
    {
        self.acquisition_history = VecDeque::new();
        self.processing_history = VecDeque::new();
        self.acquisition_histogram = vec![0u64; LATENCY_BUCKETS];
        self.processing_histogram = vec![0u64; LATENCY_BUCKETS];
        self.acquisition_latency_total_us = 0;
        self.processing_latency_total_us = 0;
        self.buffer_used = 0;
        self.buffer_capacity = 0;
        assert(self.acquisition_histogram@ =~= Seq::new(LATENCY_BUCKETS as nat, |k: int| 0u64));
        assert(self.processing_histogram@ =~= Seq::new(LATENCY_BUCKETS as nat, |k: int| 0u64));
    }
}

fn rate_milli_of(events: u64) -> (r: u64)
    ensures
        r == rate_milli(events as nat),
{
    let x: u128 = events as u128 * 1000 / 60;
    if x <= u64::MAX as u128 {
        x as u64
    } else {
        u64::MAX
    }
}

fn usage_percent_of(used: usize, capacity: usize) -> (r: u64)
    ensures
        r == usage_percent(used, capacity),
{
    if capacity == 0 {
        0
    } else if used >= capacity {
        100
    } else {
        let u: u128 = used as u128 * 100 / capacity as u128;
        assert(u <= 100) by (nonlinear_arith)
            requires
                used < capacity,
                u == (used as int) * 100 / (capacity as int),
        ;
        u as u64
    }
}

} // verus!
