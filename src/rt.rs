//! Per-task real-time configuration and execution accounting.
//!
//! Times are readings of the monotonic clock in nanoseconds. A periodic task
//! is scheduled on absolute deadlines: each next deadline is the previous one
//! plus the period, so lateness never accumulates into drift.

use vstd::prelude::*;
use crate::timestamp::{monotonic_reading, TimeSpan};
use crate::types::{RtPriority, MAX_PERIOD_MS};

verus! {

/// Nanoseconds in one millisecond.
pub const NANOS_PER_MILLI: u64 = 1_000_000;

/// FIFO scheduling level of a priority band.
pub open spec fn fifo_level(p: RtPriority) -> i32 {
    match p {
        RtPriority::Low => 1,
        RtPriority::Normal => 50,
        RtPriority::High => 80,
        RtPriority::Critical => 99,
    }
}

/// The FIFO scheduling level a task of priority `p` runs at: 1, 50, 80 or 99
/// from Low to Critical.
pub fn fifo_priority(p: RtPriority) -> (r: i32)
    ensures
        r == fifo_level(p),
{
    match p {
        RtPriority::Low => 1,
        RtPriority::Normal => 50,
        RtPriority::High => 80,
        RtPriority::Critical => 99,
    }
}

/// Real-time settings of one task.
#[derive(Clone, Debug)]
pub struct RtConfig {
    pub priority: RtPriority,
    /// Period in milliseconds; 0 marks an aperiodic task.
    pub period_ms: u64,
    /// Longest acceptable execution in milliseconds; 0 disables the check.
    pub deadline_ms: u64,
    /// CPUs the task may run on; empty leaves it unpinned.
    pub cpu_affinity: Vec<usize>,
    pub lock_memory: bool,
    pub use_rt_scheduler: bool,
}

impl RtConfig {
    /// Period and deadline fit in nanoseconds.
    pub open spec fn wf(&self) -> bool {
        &&& self.period_ms <= MAX_PERIOD_MS
        &&& self.deadline_ms <= MAX_PERIOD_MS
    }
}

impl Default for RtConfig {
    fn default() -> (r: RtConfig)
        ensures
            r.priority == RtPriority::Normal,
            r.period_ms == 0,
            r.deadline_ms == 0,
            r.cpu_affinity@.len() == 0,
            !r.lock_memory,
            !r.use_rt_scheduler,
    {
        RtConfig {
            priority: RtPriority::Normal,
            period_ms: 0,
            deadline_ms: 0,
            cpu_affinity: Vec::new(),
            lock_memory: false,
            use_rt_scheduler: false,
        }
    }
}

/// Execution statistics of one task.
#[derive(Clone, Copy, Debug, PartialEq, Eq)]
pub struct RtStats {
    pub executions: u64,
    pub min_execution_time: TimeSpan,
    pub max_execution_time: TimeSpan,
    pub avg_execution_time: TimeSpan,
    pub deadline_misses: u64,
    pub min_jitter: TimeSpan,
    pub max_jitter: TimeSpan,
    pub avg_jitter: TimeSpan,
}

impl RtStats {
    /// Statistics with nothing recorded.
    pub fn empty() -> (r: RtStats)
        ensures
            r.executions == 0,
            r.deadline_misses == 0,
            r.min_execution_time@ == 0,
            r.max_execution_time@ == 0,
            r.avg_execution_time@ == 0,
            r.min_jitter@ == 0,
            r.max_jitter@ == 0,
            r.avg_jitter@ == 0,
    {
        RtStats {
            executions: 0,
            min_execution_time: TimeSpan::zero(),
            max_execution_time: TimeSpan::zero(),
            avg_execution_time: TimeSpan::zero(),
            deadline_misses: 0,
            min_jitter: TimeSpan::zero(),
            max_jitter: TimeSpan::zero(),
            avg_jitter: TimeSpan::zero(),
        }
    }
}

/// `x + y`, saturating at the largest `u64`.
pub open spec fn sat_add(x: int, y: int) -> int {
    if x + y <= u64::MAX {
        x + y
    } else {
        u64::MAX as int
    }
}

/// Distance between two instants.
pub open spec fn distance(a: int, b: int) -> int {
    if a >= b {
        a - b
    } else {
        b - a
    }
}

/// Execution accounting of one task.
pub struct RtContext {
    config: RtConfig,
    stats: RtStats,
    last_start: Option<u64>,
    last_end: Option<u64>,
    next_scheduled: Option<u64>,
    total_execution_ns: u128,
    total_jitter_ns: u128,
    jitter_samples: u64,
    /// Start of the first periodic execution.
    anchor: Ghost<int>,
    /// Number of periodic executions started.
    periodic_starts: Ghost<nat>,
    /// No periodic execution started before its deadline.
    on_time: Ghost<bool>,
}

/// The smaller of `x` and the largest `u64`.
pub open spec fn cap_u64(x: int) -> int {
    if x <= u64::MAX {
        x
    } else {
        u64::MAX as int
    }
}

impl RtContext {
    /// Start of the first periodic execution.
    pub closed spec fn anchor_spec(&self) -> int {
        self.anchor@
    }

    /// Number of periodic executions started.
    pub closed spec fn periodic_starts_spec(&self) -> nat {
        self.periodic_starts@
    }

    /// Whether every periodic execution started at or after its deadline.
    pub closed spec fn starts_on_time(&self) -> bool {
        self.on_time@
    }

    pub closed spec fn config_spec(&self) -> RtConfig {
        self.config
    }

    pub closed spec fn stats_spec(&self) -> RtStats {
        self.stats
    }

    /// Start of the execution in progress, if any.
    pub closed spec fn started_at(&self) -> Option<u64> {
        self.last_start
    }

    /// The next absolute deadline of a periodic task, once it has started.
    pub closed spec fn next_deadline(&self) -> Option<u64> {
        self.next_scheduled
    }

    /// Sum of all recorded execution times in nanoseconds.
    pub closed spec fn execution_total(&self) -> nat {
        self.total_execution_ns as nat
    }

    /// Sum of all recorded jitters in nanoseconds.
    pub closed spec fn jitter_total(&self) -> nat {
        self.total_jitter_ns as nat
    }

    /// Number of recorded jitters.
    pub closed spec fn jitter_count(&self) -> nat {
        self.jitter_samples as nat
    }

    pub closed spec fn wf(&self) -> bool {
        &&& self.config.wf()
        &&& self.total_execution_ns <= self.stats.executions * (u64::MAX as int)
        &&& self.total_jitter_ns <= self.jitter_samples * (u64::MAX as int)
        &&& self.stats.avg_execution_time@ == (if self.stats.executions == 0 {
            0
        } else {
            (self.total_execution_ns as int) / (self.stats.executions as int)
        })
        &&& self.stats.avg_jitter@ == (if self.jitter_samples == 0 {
            0
        } else {
            (self.total_jitter_ns as int) / (self.jitter_samples as int)
        })
        &&& self.stats.executions > 0 ==> self.stats.min_execution_time@ * self.stats.executions
            <= self.total_execution_ns <= self.stats.max_execution_time@ * self.stats.executions
        &&& self.jitter_samples > 0 ==> self.stats.min_jitter@ * self.jitter_samples
            <= self.total_jitter_ns <= self.stats.max_jitter@ * self.jitter_samples
        &&& self.config.period_ms > 0 ==> {
            &&& (self.next_scheduled is None <==> self.periodic_starts@ == 0)
            &&& self.next_scheduled matches Some(d) ==> d == cap_u64(self.anchor@ + self.periodic_starts@
                * (self.config.period_ms * NANOS_PER_MILLI))
            &&& self.periodic_starts@ >= 1 && self.on_time@ ==> (self.last_start matches Some(t)
                && t >= cap_u64(self.anchor@ + (self.periodic_starts@ - 1) * (self.config.period_ms
                * NANOS_PER_MILLI)))
            &&& self.anchor@ >= 0
        }
    }

    /// The period in nanoseconds.
    pub open spec fn period_ns(&self) -> int {
        self.config_spec().period_ms * NANOS_PER_MILLI
    }

    /// A context with empty statistics and nothing scheduled.
    pub fn new(config: RtConfig) -> (r: Self)
        requires
            config.wf(),
        ensures
            r.wf(),
            r.config_spec() == config,
            r.stats_spec() == RtStats::empty_spec(),
            r.started_at() is None,
            r.next_deadline() is None,
            r.execution_total() == 0,
            r.jitter_total() == 0,
            r.jitter_count() == 0,
            r.periodic_starts_spec() == 0,
            r.starts_on_time(),
    {
        RtContext {
            config,
            stats: RtStats::empty(),
            last_start: None,
            last_end: None,
            next_scheduled: None,
            total_execution_ns: 0,
            total_jitter_ns: 0,
            jitter_samples: 0,
            anchor: Ghost(0),
            periodic_starts: Ghost(0),
            on_time: Ghost(true),
        }
    }

    /// `post` follows from marking the start of an execution on `pre` at `now`.
    pub open spec fn start_marked(pre: Self, post: Self, now: u64) -> bool {
        &&& post.config_spec() == pre.config_spec()
        &&& post.started_at() == Some(now)
        &&& post.stats_spec().executions == pre.stats_spec().executions
        &&& post.stats_spec().deadline_misses == pre.stats_spec().deadline_misses
        &&& post.stats_spec().min_execution_time == pre.stats_spec().min_execution_time
        &&& post.stats_spec().max_execution_time == pre.stats_spec().max_execution_time
        &&& post.stats_spec().avg_execution_time == pre.stats_spec().avg_execution_time
        &&& post.execution_total() == pre.execution_total()
        &&& pre.config_spec().period_ms > 0 ==> {
            &&& post.periodic_starts_spec() == pre.periodic_starts_spec() + 1
            &&& post.anchor_spec() == (if pre.periodic_starts_spec() == 0 {
                now as int
            } else {
                pre.anchor_spec()
            })
            &&& post.starts_on_time() == (pre.starts_on_time() && match pre.next_deadline() {
                Some(s) => now >= s,
                None => true,
            })
        }
        &&& pre.config_spec().period_ms == 0 ==> {
            &&& post.next_deadline() == pre.next_deadline()
            &&& post.jitter_count() == pre.jitter_count()
            &&& post.jitter_total() == pre.jitter_total()
        }
        &&& pre.config_spec().period_ms > 0 ==> match pre.next_deadline() {
            None => {
                &&& post.next_deadline() == Some(sat_add(now as int, pre.period_ns()) as u64)
                &&& post.jitter_count() == pre.jitter_count()
                &&& post.jitter_total() == pre.jitter_total()
            },
            Some(s) => {
                let j = distance(now as int, s as int);
                &&& post.next_deadline() == Some(sat_add(s as int, pre.period_ns()) as u64)
                &&& pre.jitter_count() < u64::MAX ==> post.jitter_count()
                    == pre.jitter_count() + 1 && post.jitter_total() == pre.jitter_total() + j
                &&& post.stats_spec().min_jitter@ == (if pre.jitter_count() == 0
                    || j < pre.stats_spec().min_jitter@ {
                    j
                } else {
                    pre.stats_spec().min_jitter@ as int
                })
                &&& post.stats_spec().max_jitter@ == (if pre.jitter_count() == 0
                    || j > pre.stats_spec().max_jitter@ {
                    j
                } else {
                    pre.stats_spec().max_jitter@ as int
                })
            }
        }
    }

    /// `post` follows from marking the end of an execution on `pre` at `now`.
    pub open spec fn end_marked(pre: Self, post: Self, now: u64) -> bool {
        &&& post.config_spec() == pre.config_spec()
        &&& post.started_at() == pre.started_at()
        &&& post.next_deadline() == pre.next_deadline()
        &&& post.jitter_count() == pre.jitter_count()
        &&& post.jitter_total() == pre.jitter_total()
        &&& post.stats_spec().min_jitter == pre.stats_spec().min_jitter
        &&& post.stats_spec().max_jitter == pre.stats_spec().max_jitter
        &&& post.stats_spec().avg_jitter == pre.stats_spec().avg_jitter
        &&& match pre.started_at() {
            None => post.stats_spec() == pre.stats_spec(),
            Some(start) => {
                let d = if now >= start {
                    now - start
                } else {
                    0int
                };
                let n = pre.stats_spec().executions;
                let missed = pre.config_spec().deadline_ms > 0 && d
                    > pre.config_spec().deadline_ms * NANOS_PER_MILLI;
                &&& n < u64::MAX ==> post.stats_spec().executions == n + 1
                    && post.execution_total() == pre.execution_total() + d
                &&& post.stats_spec().deadline_misses == (if missed
                    && pre.stats_spec().deadline_misses < u64::MAX {
                    pre.stats_spec().deadline_misses + 1
                } else {
                    pre.stats_spec().deadline_misses as int
                })
                &&& post.stats_spec().min_execution_time@ == (if n == 0 || d
                    < pre.stats_spec().min_execution_time@ {
                    d
                } else {
                    pre.stats_spec().min_execution_time@ as int
                })
                &&& post.stats_spec().max_execution_time@ == (if n == 0 || d
                    > pre.stats_spec().max_execution_time@ {
                    d
                } else {
                    pre.stats_spec().max_execution_time@ as int
                })
            }
        }
    }

    /// Marks the start of an execution at `now`. A periodic task records how
    /// far `now` lies from its deadline and moves the deadline one period on;
    /// its first start sets the first deadline one period after `now`.
    pub fn start_execution_at(&mut self, now: u64)
        requires
            old(self).wf(),
        ensures
            final(self).wf(),
            Self::start_marked(*old(self), *final(self), now),

    {
        self.last_start = Some(now);
        if self.config.period_ms > 0 {
            let period = self.config.period_ms * NANOS_PER_MILLI;
            match self.next_scheduled {
                Some(s) => {
                    let j: u64 = if now >= s {
                        now - s
                    } else {
                        s - now
                    };
                    let jitter = TimeSpan::from_nanos(j);
                    let ghost (lo0, hi0, t0, n0) = (
                        self.stats.min_jitter@ as int,
                        self.stats.max_jitter@ as int,
                        self.total_jitter_ns as int,
                        self.jitter_samples as int,
                    );
                    if self.jitter_samples == 0 || j < self.stats.min_jitter.as_nanos() {
                        self.stats.min_jitter = jitter;
                    }
                    if self.jitter_samples == 0 || j > self.stats.max_jitter.as_nanos() {
                        self.stats.max_jitter = jitter;
                    }
                    if self.jitter_samples < u64::MAX {
                        self.jitter_samples = self.jitter_samples + 1;
                        self.total_jitter_ns = self.total_jitter_ns + j as u128;
                    }
                    self.stats.avg_jitter = TimeSpan::from_nanos(
                        mean_ns(self.total_jitter_ns, self.jitter_samples),
                    );
                    proof {
                        lemma_range_step(
                            lo0,
                            hi0,
                            t0,
                            n0,
                            j as int,
                            self.stats.min_jitter@ as int,
                            self.stats.max_jitter@ as int,
                            self.total_jitter_ns as int,
                            self.jitter_samples as int,
                        );
                    }
                    self.next_scheduled = Some(s.saturating_add(period));
                    let ghost still_on_time = self.on_time@ && now >= s;
                    let ghost starts = self.periodic_starts@ + 1;
                    self.on_time = Ghost(still_on_time);
                    self.periodic_starts = Ghost(starts);
                    proof {
                        let n = old(self).periodic_starts@;
                        assert(cap_u64(cap_u64(self.anchor@ + n * period) + period) == cap_u64(self.anchor@
                            + (n + 1) * period)) by (nonlinear_arith)
                            requires
                                self.anchor@ >= 0,
                                period >= 0,
                        ;
                    }
                },
                None => {
                    self.next_scheduled = Some(now.saturating_add(period));
                    let ghost first = now as int;
                    self.anchor = Ghost(first);
                    self.periodic_starts = Ghost(1);
                },
            }
        }
    }

    /// Marks the end of the execution in progress at `now`: records its
    /// duration, counts a deadline miss when it ran longer than the deadline,
    /// and counts the execution. Without a start in progress only the end
    /// time is kept.
    pub fn end_execution_at(&mut self, now: u64)
        requires
            old(self).wf(),
        ensures
            final(self).wf(),
            Self::end_marked(*old(self), *final(self), now),

    {
        self.last_end = Some(now);
        if let Some(start) = self.last_start {
            let d: u64 = if now >= start {
                now - start
            } else {
                0
            };
            if self.config.deadline_ms > 0 && d > self.config.deadline_ms * NANOS_PER_MILLI {
                if self.stats.deadline_misses < u64::MAX {
                    self.stats.deadline_misses = self.stats.deadline_misses + 1;
                }
            }
            let span = TimeSpan::from_nanos(d);
            let n = self.stats.executions;
            let ghost (lo0, hi0, t0) = (
                self.stats.min_execution_time@ as int,
                self.stats.max_execution_time@ as int,
                self.total_execution_ns as int,
            );
            if n == 0 || d < self.stats.min_execution_time.as_nanos() {
                self.stats.min_execution_time = span;
            }
            if n == 0 || d > self.stats.max_execution_time.as_nanos() {
                self.stats.max_execution_time = span;
            }
            if n < u64::MAX {
                self.stats.executions = n + 1;
                self.total_execution_ns = self.total_execution_ns + d as u128;
            }
            self.stats.avg_execution_time = TimeSpan::from_nanos(
                mean_ns(self.total_execution_ns, self.stats.executions),
            );
            proof {
                lemma_range_step(
                    lo0,
                    hi0,
                    t0,
                    n as int,
                    d as int,
                    self.stats.min_execution_time@ as int,
                    self.stats.max_execution_time@ as int,
                    self.total_execution_ns as int,
                    self.stats.executions as int,
                );
            }
        }
    }

    /// Marks the start of an execution now, by the monotonic clock.
    pub fn start_execution(&mut self)
        requires
            old(self).wf(),
        ensures
            final(self).wf(),
            exists|now: u64| Self::start_marked(*old(self), *final(self), now),
    {
        let now = monotonic_reading();
        self.start_execution_at(now);
        assert(Self::start_marked(*old(self), *self, now));
    }

    /// Marks the end of the execution in progress now, by the monotonic clock.
    pub fn end_execution(&mut self)
        requires
            old(self).wf(),
        ensures
            final(self).wf(),
            exists|now: u64| Self::end_marked(*old(self), *final(self), now),
    {
        let now = monotonic_reading();
        self.end_execution_at(now);
        assert(Self::end_marked(*old(self), *self, now));
    }

    /// The next absolute deadline, if one is set.
    pub fn next_deadline_value(&self) -> (r: Option<u64>)
        ensures
            r == self.next_deadline(),
    {
        self.next_scheduled
    }

    pub fn get_stats(&self) -> (r: RtStats)
        ensures
            r == self.stats_spec(),
    {
        self.stats
    }

    /// Clears the statistics; configuration and schedule are kept.
    pub fn reset_stats(&mut self)
        requires
            old(self).wf(),
        ensures
            final(self).wf(),
            final(self).config_spec() == old(self).config_spec(),
            final(self).next_deadline() == old(self).next_deadline(),
            final(self).started_at() == old(self).started_at(),
            final(self).stats_spec() == RtStats::empty_spec(),
            final(self).execution_total() == 0,
            final(self).jitter_total() == 0,
            final(self).jitter_count() == 0,
    {
        self.stats = RtStats::empty();
        self.total_execution_ns = 0;
        self.total_jitter_ns = 0;
        self.jitter_samples = 0;
    }

    pub fn get_config(&self) -> (r: &RtConfig)
        ensures
            *r == self.config_spec(),
    {
        &self.config
    }
}

impl RtStats {
    pub open spec fn empty_spec() -> RtStats {
        RtStats {
            executions: 0,
            min_execution_time: TimeSpan { nanos: 0 },
            max_execution_time: TimeSpan { nanos: 0 },
            avg_execution_time: TimeSpan { nanos: 0 },
            deadline_misses: 0,
            min_jitter: TimeSpan { nanos: 0 },
            max_jitter: TimeSpan { nanos: 0 },
            avg_jitter: TimeSpan { nanos: 0 },
        }
    }
}

/// Adding sample `x` to `n` samples totalling `t` between `lo` and `hi` keeps
/// the total between the new extremes times the new count.
proof fn lemma_range_step(
    lo: int,
    hi: int,
    t: int,
    n: int,
    x: int,
    lo2: int,
    hi2: int,
    t2: int,
    n2: int,
)
    requires
        n >= 0,
        x >= 0,
        lo >= 0,
        n == 0 ==> t == 0,
        n > 0 ==> lo * n <= t <= hi * n,
        lo2 == (if n == 0 || x < lo {
            x
        } else {
            lo
        }),
        hi2 == (if n == 0 || x > hi {
            x
        } else {
            hi
        }),
        (n2 == n + 1 && t2 == t + x) || (n2 == n && t2 == t && n > 0),
    ensures
        n2 > 0 ==> lo2 * n2 <= t2 <= hi2 * n2,
{
    if n2 == n + 1 {
        if n == 0 {
        } else {
            assert(lo2 * n <= lo * n) by (nonlinear_arith)
                requires
                    lo2 <= lo,
                    n > 0,
            ;
            assert(hi * n <= hi2 * n) by (nonlinear_arith)
                requires
                    hi <= hi2,
                    n > 0,
            ;
            assert(lo2 * n2 == lo2 * n + lo2) by (nonlinear_arith)
                requires
                    n2 == n + 1,
            ;
            assert(hi2 * n2 == hi2 * n + hi2) by (nonlinear_arith)
                requires
                    n2 == n + 1,
            ;
        }
    } else {
        assert(lo2 * n <= lo * n) by (nonlinear_arith)
            requires
                lo2 <= lo,
                n > 0,
        ;
        assert(hi * n <= hi2 * n) by (nonlinear_arith)
            requires
                hi <= hi2,
                n > 0,
        ;
    }
}

/// Mean of `count` samples of at most `u64::MAX` each.
fn mean_ns(total: u128, count: u64) -> (r: u64)
    requires
        total <= count * (u64::MAX as int),
    ensures
        r == (if count == 0 {
            0
        } else {
            (total as int) / (count as int)
        }),
{
    if count == 0 {
        0
    } else {
        let m = total / count as u128;
        assert(m <= u64::MAX) by (nonlinear_arith)
            requires
                total <= count * (u64::MAX as int),
                count > 0,
                m == (total as int) / (count as int),
        ;
        m as u64
    }
}

/// The mean execution time lies between the shortest and the longest, and so
/// does the mean jitter.
pub proof fn lemma_stats_ordered(ctx: &RtContext)
    requires
        ctx.wf(),
    ensures
        ctx.stats_spec().executions > 0 ==> ctx.stats_spec().min_execution_time@
            <= ctx.stats_spec().avg_execution_time@ <= ctx.stats_spec().max_execution_time@,
        ctx.jitter_count() > 0 ==> ctx.stats_spec().min_jitter@ <= ctx.stats_spec().avg_jitter@
            <= ctx.stats_spec().max_jitter@,
{
    let n = ctx.stats.executions as int;
    if n > 0 {
        let t = ctx.total_execution_ns as int;
        let lo = ctx.stats.min_execution_time@ as int;
        let hi = ctx.stats.max_execution_time@ as int;
        assert(lo <= t / n <= hi) by (nonlinear_arith)
            requires
                n > 0,
                lo * n <= t <= hi * n,
                lo >= 0,
        ;
    }
    let m = ctx.jitter_samples as int;
    if m > 0 {
        let t = ctx.total_jitter_ns as int;
        let lo = ctx.stats.min_jitter@ as int;
        let hi = ctx.stats.max_jitter@ as int;
        assert(lo <= t / m <= hi) by (nonlinear_arith)
            requires
                m > 0,
                lo * m <= t <= hi * m,
                lo >= 0,
        ;
    }
}

/// A periodic task run for `duration` after its first start, never started
/// before a deadline, whose next deadline lies beyond the run and whose last
/// start lies within it, started `floor(duration / period)` times or one more:
/// within one of the ideal count. When each start was matched by an end, the
/// execution count obeys the same bound.
pub proof fn lemma_periodic_context_count(ctx: &RtContext, duration: nat)
    requires
        ctx.wf(),
        ctx.config_spec().period_ms > 0,
        ctx.periodic_starts_spec() >= 1,
        ctx.starts_on_time(),
        ctx.next_deadline() matches Some(d) && d < u64::MAX && d > ctx.anchor_spec() + duration,
        ctx.started_at() matches Some(t) && t <= ctx.anchor_spec() + duration,
    ensures
        (duration as int) / ctx.period_ns() <= ctx.periodic_starts_spec() <= (duration as int) / ctx.period_ns() + 1,
        ctx.stats_spec().executions == ctx.periodic_starts_spec() ==> (duration as int) / ctx.period_ns()
            <= ctx.stats_spec().executions <= (duration as int) / ctx.period_ns() + 1,
{
    let p = ctx.period_ns();
    let n = ctx.periodic_starts_spec();
    let a = ctx.anchor_spec();
    assert(p > 0) by (nonlinear_arith)
        requires
            p == ctx.config_spec().period_ms * NANOS_PER_MILLI,
            ctx.config_spec().period_ms > 0,
    ;
    assert((n - 1) * p <= n * p) by (nonlinear_arith)
        requires
            p > 0,
            n >= 1,
    ;
    assert(a + (n - 1) * p <= u64::MAX);
    lemma_periodic_execution_count(p as nat, duration, n);
}

/// A periodic task whose last start lies within a run of `duration` and whose
/// next deadline lies beyond it started `floor(duration / period)` or one
/// more times: within one of the ideal count.
pub proof fn lemma_periodic_execution_count(period: nat, duration: nat, executions: nat)
    requires
        period > 0,
        executions >= 1,
        (executions - 1) * period <= duration,
        duration < executions * period,
    ensures
        duration / period <= executions <= duration / period + 1,
{
    let q = duration / period;
    assert(q * period <= duration) by (nonlinear_arith)
        requires
            q == duration / period,
            period > 0,
    ;
    assert(duration < (q + 1) * period) by (nonlinear_arith)
        requires
            q == duration / period,
            period > 0,
    ;
    assert(executions - 1 <= q) by (nonlinear_arith)
        requires
            (executions - 1) * period <= duration,
            duration < (q + 1) * period,
            period > 0,
    ;
    assert(q < executions) by (nonlinear_arith)
        requires
            q * period <= duration,
            duration < executions * period,
            period > 0,
    ;
}

} // verus!
