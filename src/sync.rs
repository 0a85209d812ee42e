//! Trigger synchronisation across cameras: trigger counting and the rolling
//! window of inter-trigger intervals from which mean and jitter are derived.

use vstd::prelude::*;
use crate::timestamp::monotonic_reading;
use crate::types::PipelineError;

verus! {

/// Whole microseconds in the largest nanosecond count.
pub const MAX_MICROS: u64 = 18_446_744_073_709_551;

/// Largest number of intervals kept in the rolling window.
pub const SYNC_WINDOW: usize = 100;

/// How cameras are driven into lockstep.
#[derive(Clone, Copy, Debug, PartialEq, Eq, Structural, Hash)]
pub enum SyncMode {
    /// Cameras run freely; triggers cannot be issued.
    Freerun,
    /// Triggers are issued in software.
    Software,
    /// Triggers come from an external hardware source.
    Hardware,
}

/// External source of hardware triggers.
#[derive(Clone, Copy, Debug, PartialEq, Eq, Structural, Hash)]
pub enum TriggerSource {
    Line1,
    Line2,
    Line3,
    Line4,
    Encoder,
    Timer,
}

/// Synchronisation settings.
#[derive(Clone, Copy, Debug, PartialEq, Eq, Structural)]
pub struct SyncConfig {
    pub mode: SyncMode,
    pub trigger_source: TriggerSource,
    /// Delay applied to each trigger, in microseconds.
    pub trigger_delay_us: u64,
    /// Expected interval between triggers, in microseconds.
    pub trigger_interval_us: u64,
    pub sync_exposures: bool,
    pub sync_gains: bool,
}

impl SyncConfig {
    pub open spec fn default_spec() -> SyncConfig {
        SyncConfig {
            mode: SyncMode::Software,
            trigger_source: TriggerSource::Line1,
            trigger_delay_us: 0,
            trigger_interval_us: 33333,
            sync_exposures: true,
            sync_gains: true,
        }
    }
}

impl Default for SyncConfig {
    /// Software triggering on line 1 at about 30 Hz, exposures and gains synchronised.
    fn default() -> (r: SyncConfig)
        ensures
            r == SyncConfig::default_spec(),
    {
        SyncConfig {
            mode: SyncMode::Software,
            trigger_source: TriggerSource::Line1,
            trigger_delay_us: 0,
            trigger_interval_us: 33333,
            sync_exposures: true,
            sync_gains: true,
        }
    }
}

/// A snapshot of the synchroniser.
#[derive(Clone, Copy, Debug, PartialEq, Eq, Structural)]
pub struct SyncStatus {
    pub mode: SyncMode,
    pub trigger_count: u64,
    /// Monotonic-clock reading of the last trigger, in nanoseconds.
    pub last_trigger_time: Option<u64>,
    /// Mean interval between triggers in microseconds, once one interval is known.
    pub average_interval_us: Option<u64>,
    /// Standard deviation of the intervals in microseconds, once two are known.
    pub sync_jitter_us: Option<u64>,
    pub is_active: bool,
}

/// Sum of a sequence of integers.
pub open spec fn seq_sum(s: Seq<u64>) -> int
    decreases s.len(),
{
    if s.len() == 0 {
        0
    } else {
        seq_sum(s.drop_last()) + s.last()
    }
}

/// Whole microseconds of each nanosecond interval.
pub open spec fn micros_of(s: Seq<u64>) -> Seq<u64> {
    s.map_values(|d: u64| (d / 1000) as u64)
}

/// Sum of squared deviations of `s` from `mean`.
pub open spec fn sq_dev_sum(s: Seq<u64>, mean: int) -> int
    decreases s.len(),
{
    if s.len() == 0 {
        0
    } else {
        sq_dev_sum(s.drop_last(), mean) + (s.last() - mean) * (s.last() - mean)
    }
}

/// Mean interval in microseconds: the whole microseconds of the summed
/// intervals, divided by their number.
pub open spec fn mean_interval_us(intervals: Seq<u64>) -> int {
    (seq_sum(intervals) / 1000) / (intervals.len() as int)
}

/// Jitter in microseconds: the integer square root of the mean squared
/// deviation of the intervals' microseconds from the mean interval.
pub open spec fn jitter_us(intervals: Seq<u64>, r: int) -> bool {
    let v = sq_dev_sum(micros_of(intervals), mean_interval_us(intervals)) / (intervals.len() as int);
    r >= 0 && r * r <= v < (r + 1) * (r + 1)
}

/// The trigger synchroniser.
pub struct SyncManager {
    config: SyncConfig,
    mode: SyncMode,
    camera_count: usize,
    is_active: bool,
    trigger_count: u64,
    last_trigger_time: Option<u64>,
    trigger_intervals: Vec<u64>,
}

impl SyncManager {
    pub closed spec fn config_spec(&self) -> SyncConfig {
        self.config
    }

    pub closed spec fn mode_spec(&self) -> SyncMode {
        self.mode
    }

    pub closed spec fn camera_count_spec(&self) -> usize {
        self.camera_count
    }

    pub closed spec fn active(&self) -> bool {
        self.is_active
    }

    pub closed spec fn count(&self) -> u64 {
        self.trigger_count
    }

    pub closed spec fn last_trigger(&self) -> Option<u64> {
        self.last_trigger_time
    }

    /// Intervals between consecutive triggers in nanoseconds, oldest first.
    pub closed spec fn intervals(&self) -> Seq<u64> {
        self.trigger_intervals@
    }

    pub closed spec fn wf(&self) -> bool {
        &&& self.trigger_intervals@.len() <= SYNC_WINDOW
        &&& self.mode == self.config.mode
    }

    /// An inactive synchroniser with the default configuration.
    pub fn new() -> (r: Self)
        ensures
            r.wf(),
            r.config_spec() == SyncConfig::default_spec(),
            r.mode_spec() == SyncMode::Software,
            r.camera_count_spec() == 0,
            !r.active(),
            r.count() == 0,
            r.last_trigger() is None,
            r.intervals().len() == 0,
    {
        Self::with_config(SyncConfig::default())
    }

    /// An inactive synchroniser with `config`.
    pub fn with_config(config: SyncConfig) -> (r: Self)
        ensures
            r.wf(),
            r.config_spec() == config,
            r.mode_spec() == config.mode,
            r.camera_count_spec() == 0,
            !r.active(),
            r.count() == 0,
            r.last_trigger() is None,
            r.intervals().len() == 0,
    {
        SyncManager {
            config,
            mode: config.mode,
            camera_count: 0,
            is_active: false,
            trigger_count: 0,
            last_trigger_time: None,
            trigger_intervals: Vec::with_capacity(SYNC_WINDOW),
        }
    }

    pub fn set_mode(&mut self, mode: SyncMode)
        requires
            old(self).wf(),
        ensures
            final(self).wf(),
            final(self).mode_spec() == mode,
            final(self).config_spec() == (SyncConfig { mode, ..old(self).config_spec() }),
            final(self).active() == old(self).active(),
            final(self).count() == old(self).count(),
            final(self).last_trigger() == old(self).last_trigger(),
            final(self).intervals() == old(self).intervals(),
            final(self).camera_count_spec() == old(self).camera_count_spec(),
    {
        self.mode = mode;
        self.config.mode = mode;
    }

    pub fn is_active(&self) -> (r: bool)
        ensures
            r == self.active(),
    {
        self.is_active
    }

    pub fn trigger_count(&self) -> (r: u64)
        ensures
            r == self.count(),
    {
        self.trigger_count
    }

    pub fn get_mode(&self) -> (r: SyncMode)
        ensures
            r == self.mode_spec(),
    {
        self.mode
    }

    pub fn set_camera_count(&mut self, count: usize)
        ensures
            final(self).camera_count_spec() == count,
            final(self).config_spec() == old(self).config_spec(),
            final(self).mode_spec() == old(self).mode_spec(),
            final(self).active() == old(self).active(),
            final(self).count() == old(self).count(),
            final(self).last_trigger() == old(self).last_trigger(),
            final(self).intervals() == old(self).intervals(),
            final(self).wf() == old(self).wf(),
    {
        self.camera_count = count;
    }

    /// Activates the synchroniser and clears its trigger history; starting an
    /// active synchroniser changes nothing.
    pub fn start(&mut self) -> (r: Result<(), PipelineError>)
        requires
            old(self).wf(),
        ensures
            final(self).wf(),
            r is Ok,
            final(self).active(),
            final(self).config_spec() == old(self).config_spec(),
            final(self).mode_spec() == old(self).mode_spec(),
            final(self).camera_count_spec() == old(self).camera_count_spec(),
            old(self).active() ==> final(self).count() == old(self).count() && final(self).last_trigger() == old(self).last_trigger() && final(self).intervals() == old(self).intervals(),
            !old(self).active() ==> final(self).count() == 0 && final(self).last_trigger() is None
                && final(self).intervals().len() == 0,
    {
        if self.is_active {
            return Ok(());
        }
        self.is_active = true;
        self.trigger_count = 0;
        self.last_trigger_time = None;
        self.trigger_intervals.clear();
        Ok(())
    }

    /// Deactivates the synchroniser; configuration and history are kept.
    pub fn stop(&mut self) -> (r: Result<(), PipelineError>)
        requires
            old(self).wf(),
        ensures
            final(self).wf(),
            r is Ok,
            !final(self).active(),
            final(self).config_spec() == old(self).config_spec(),
            final(self).mode_spec() == old(self).mode_spec(),
            final(self).camera_count_spec() == old(self).camera_count_spec(),
            final(self).count() == old(self).count(),
            final(self).last_trigger() == old(self).last_trigger(),
            final(self).intervals() == old(self).intervals(),
    {
        self.is_active = false;
        Ok(())
    }

    /// `post` and `r` follow from a trigger issued on `pre` at `now`.
    pub open spec fn triggered(pre: Self, post: Self, now: u64, r: Result<(), PipelineError>) -> bool {
        &&& r is Ok <==> pre.active() && pre.mode_spec() != SyncMode::Freerun
        &&& (r matches Err(e) ==> e is SyncError && post == pre)
        &&& post.config_spec() == pre.config_spec()
        &&& post.mode_spec() == pre.mode_spec()
        &&& post.active() == pre.active()
        &&& post.camera_count_spec() == pre.camera_count_spec()
        &&& r is Ok ==> {
            &&& post.count() == (if pre.count() < u64::MAX {
                pre.count() + 1
            } else {
                pre.count() as int
            })
            &&& post.last_trigger() == Some(now)
            &&& post.intervals() == match pre.last_trigger() {
                None => pre.intervals(),
                Some(t) => {
                    let d = (if now >= t {
                        now - t
                    } else {
                        0
                    }) as u64;
                    if pre.intervals().len() >= SYNC_WINDOW {
                        pre.intervals().drop_first().push(d)
                    } else {
                        pre.intervals().push(d)
                    }
                },
            }
        }
    }

    /// Issues a trigger at monotonic time `now` (nanoseconds). Rejected while
    /// inactive or in free-run mode. The interval since the previous trigger
    /// joins the window, which drops its oldest interval once it holds
    /// `SYNC_WINDOW` of them.
    pub fn trigger_at(&mut self, now: u64) -> (r: Result<(), PipelineError>)
        requires
            old(self).wf(),
        ensures
            final(self).wf(),
            Self::triggered(*old(self), *final(self), now, r),

    {
        if !self.is_active {
            return Err(PipelineError::SyncError("synchronisation is not active".to_string()));
        }
        if self.mode == SyncMode::Freerun {
            return Err(PipelineError::SyncError("cannot trigger in free-run mode".to_string()));
        }
        if let Some(t) = self.last_trigger_time {
            let d: u64 = if now >= t {
                now - t
            } else {
                0
            };
            if self.trigger_intervals.len() >= SYNC_WINDOW {
                self.trigger_intervals.remove(0);
            }
            self.trigger_intervals.push(d);
            proof {
                if old(self).trigger_intervals@.len() >= SYNC_WINDOW {
                    assert(old(self).trigger_intervals@.drop_first() =~= old(self).trigger_intervals@.remove(0));
                }
            }
        }
        self.last_trigger_time = Some(now);
        if self.trigger_count < u64::MAX {
            self.trigger_count = self.trigger_count + 1;
        }
        Ok(())
    }

    /// Issues a trigger now, by the monotonic clock.
    pub fn trigger(&mut self) -> (r: Result<(), PipelineError>)
        requires
            old(self).wf(),
        ensures
            final(self).wf(),
            exists|now: u64| Self::triggered(*old(self), *final(self), now, r),

    {
        let now = monotonic_reading();
        let r = self.trigger_at(now);
        assert(Self::triggered(*old(self), *self, now, r));
        r
    }

    /// Cameras a trigger fires in software: every camera in Software mode,
    /// none otherwise (Hardware triggers come from the external source, and
    /// free-running cameras take none).
    pub fn trigger_targets(&self) -> (r: Vec<usize>)
        ensures
            r@ == (if self.mode_spec() == SyncMode::Software {
                Seq::new(self.camera_count_spec() as nat, |k: int| k as usize)
            } else {
                Seq::empty()
            }),
    {
        let mut r: Vec<usize> = Vec::new();
        if self.mode == SyncMode::Software {
            let mut k: usize = 0;
            while k < self.camera_count
                invariant
                    k <= self.camera_count,
                    r@ == Seq::new(k as nat, |j: int| j as usize),
                decreases self.camera_count - k,
            {
                r.push(k);
                k = k + 1;
                assert(r@ =~= Seq::new(k as nat, |j: int| j as usize));
            }
        }
        assert(r@ =~= (if self.mode == SyncMode::Software {
            Seq::new(self.camera_count as nat, |k: int| k as usize)
        } else {
            Seq::empty()
        }));
        r
    }

    /// Mode, trigger count, last trigger, mean interval and jitter, and activity.
    pub fn get_status(&self) -> (r: SyncStatus)
        requires
            self.wf(),
        ensures
            r.mode == self.mode_spec(),
            r.trigger_count == self.count(),
            r.last_trigger_time == self.last_trigger(),
            r.is_active == self.active(),
            r.average_interval_us is Some <==> self.intervals().len() > 0,
            r.average_interval_us matches Some(a) ==> a == mean_interval_us(self.intervals()),
            r.sync_jitter_us is Some <==> self.intervals().len() > 1,
            r.sync_jitter_us matches Some(j) ==> jitter_us(self.intervals(), j as int),
    {
        let n = self.trigger_intervals.len();
        let (average, jitter) = if n == 0 {
            (None, None)
        } else {
            let total = sum_nanos(&self.trigger_intervals);
            let avg_wide: u128 = (total / 1000) / n as u128;
            assert(avg_wide <= MAX_MICROS) by (nonlinear_arith)
                requires
                    total <= n * (u64::MAX as int),
                    avg_wide == ((total as int) / 1000) / (n as int),
                    n > 0,
            ;
            let avg = avg_wide as u64;
            if n > 1 {
                let sq = sum_sq_dev_micros(&self.trigger_intervals, avg);
                let v = sq / n as u128;
                (Some(avg), Some(isqrt(v)))
            } else {
                (Some(avg), None)
            }
        };
        SyncStatus {
            mode: self.mode,
            trigger_count: self.trigger_count,
            last_trigger_time: self.last_trigger_time,
            average_interval_us: average,
            sync_jitter_us: jitter,
            is_active: self.is_active,
        }
    }

    pub fn get_config(&self) -> (r: &SyncConfig)
        ensures
            *r == self.config_spec(),
    {
        &self.config
    }

    /// Replaces the configuration; the mode follows it.
    pub fn set_config(&mut self, config: SyncConfig)
        requires
            old(self).wf(),
        ensures
            final(self).wf(),
            final(self).config_spec() == config,
            final(self).mode_spec() == config.mode,
            final(self).active() == old(self).active(),
            final(self).count() == old(self).count(),
            final(self).last_trigger() == old(self).last_trigger(),
            final(self).intervals() == old(self).intervals(),
            final(self).camera_count_spec() == old(self).camera_count_spec(),
    {
        self.config = config;
        self.mode = config.mode;
    }
}

/// Sum of the intervals.
fn sum_nanos(v: &Vec<u64>) -> (r: u128)
    requires
        v@.len() <= SYNC_WINDOW,
    ensures
        r == seq_sum(v@),
        r <= v@.len() * (u64::MAX as int),
{
    let mut total: u128 = 0;
    let mut i: usize = 0;
    while i < v.len()
        invariant
            i <= v@.len(),
            v@.len() <= SYNC_WINDOW,
            total == seq_sum(v@.subrange(0, i as int)),
            total <= i * (u64::MAX as int),
        decreases v@.len() - i,
    {
        assert(v@.subrange(0, i + 1).drop_last() =~= v@.subrange(0, i as int));
        total = total + v[i] as u128;
        i = i + 1;
    }
    assert(v@.subrange(0, v@.len() as int) =~= v@);
    total
}

/// Sum of squared deviations of the intervals' whole microseconds from `mean`.
fn sum_sq_dev_micros(v: &Vec<u64>, mean: u64) -> (r: u128)
    requires
        v@.len() <= SYNC_WINDOW,
        mean <= MAX_MICROS,
    ensures
        r == sq_dev_sum(micros_of(v@), mean as int),
{
    let ghost m = micros_of(v@);
    let mut total: u128 = 0;
    let mut i: usize = 0;
    while i < v.len()
        invariant
            i <= v@.len(),
            v@.len() <= SYNC_WINDOW,
            m == micros_of(v@),
            mean <= MAX_MICROS,
            total == sq_dev_sum(m.subrange(0, i as int), mean as int),
            total <= i * 0x4000_0000_0000_0000_0000_0000_0000,
        decreases v@.len() - i,
    {
        assert(m.subrange(0, i + 1).drop_last() =~= m.subrange(0, i as int));
        let x = v[i];
        let us = x / 1000;
        assert(us <= MAX_MICROS) by (nonlinear_arith)
            requires
                us == x / 1000,
                x <= u64::MAX,
        ;
        let dev: u64 = if us >= mean {
            us - mean
        } else {
            mean - us
        };
        assert(dev <= MAX_MICROS);
        assert(dev as u128 * dev as u128 <= 0x4000_0000_0000_0000_0000_0000_0000) by (nonlinear_arith)
            requires
                dev <= MAX_MICROS,
        ;
        let sq: u128 = dev as u128 * dev as u128;
        assert((us - mean) * (us - mean) == dev * dev) by (nonlinear_arith)
            requires
                dev == (if us >= mean {
                    us - mean
                } else {
                    mean - us
                }),
        ;
        total = total + sq;
        i = i + 1;
    }
    assert(m.subrange(0, v@.len() as int) =~= m);
    total
}

/// The integer square root: the largest `r` with `r * r <= n`.
pub fn isqrt(n: u128) -> (r: u64)
    ensures
        r * r <= n < (r + 1) * (r + 1),
{
    let mut lo: u128 = 0;
    let mut hi: u128 = 0x1_0000_0000_0000_0000;
    assert(n < hi * hi) by (nonlinear_arith)
        requires
            hi == 0x1_0000_0000_0000_0000,
            n <= u128::MAX,
    ;
    while hi - lo > 1
        invariant
            lo < hi <= 0x1_0000_0000_0000_0000,
            lo * lo <= n,
            n < hi * hi,
        decreases hi - lo,
    {
        let mid = lo + (hi - lo) / 2;
        assert(mid * mid <= 0xffff_ffff_ffff_ffff_ffff_ffff_ffff_ffff) by (nonlinear_arith)
            requires
                mid < 0x1_0000_0000_0000_0000,
        ;
        if mid * mid <= n {
            lo = mid;
        } else {
            hi = mid;
        }
    }
    lo as u64
}

} // verus!
