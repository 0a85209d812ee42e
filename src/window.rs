//! Fixed-size sliding windows of recent values, and a stopwatch that keeps
//! its recent durations in one.

use vstd::prelude::*;
use std::collections::VecDeque;
use crate::timestamp::{monotonic_reading, TimeSpan};
use crate::timing::{elapsed_ns, total};

verus! {

broadcast use vstd::std_specs::vecdeque::group_vec_dequeue_axioms;

/// The most recent values, at most `max_size` of them, oldest first.
pub struct SlidingWindow<T> {
    values: VecDeque<T>,
    max_size: usize,
}

/// `s` after appending `v` to a window of capacity `max`: full windows
/// drop their oldest value first.
pub open spec fn window_push<T>(s: Seq<T>, v: T, max: nat) -> Seq<T> {
    if s.len() >= max && s.len() > 0 {
        s.drop_first().push(v)
    } else {
        s.push(v)
    }
}

impl<T> SlidingWindow<T> {
    pub closed spec fn view(&self) -> Seq<T> {
        self.values@
    }

    pub closed spec fn max_size_spec(&self) -> nat {
        self.max_size as nat
    }

    /// Most values the window holds: its size, or one for a window of size zero.
    pub open spec fn bound(&self) -> nat {
        if self.max_size_spec() == 0 {
            1
        } else {
            self.max_size_spec()
        }
    }

    /// The window holds no more values than its bound.
    pub open spec fn wf(&self) -> bool {
        self.view().len() <= self.bound()
    }

    /// An empty window holding at most `max_size` values.
    pub fn new(max_size: usize) -> (r: Self)
        ensures
            r.wf(),
            r.view().len() == 0,
            r.max_size_spec() == max_size,
    {
        SlidingWindow { values: VecDeque::with_capacity(max_size), max_size }
    }

    /// Appends `value`, dropping the oldest value when the window is full.
    pub fn push(&mut self, value: T)
        requires
            old(self).wf(),
        ensures
            final(self).wf(),
            final(self).view() == window_push(old(self).view(), value, old(self).max_size_spec()),
            final(self).view().len() == (if old(self).view().len() + 1 <= old(self).bound() {
                old(self).view().len() + 1
            } else {
                old(self).bound()
            }),
            final(self).view().last() == value,
            final(self).max_size_spec() == old(self).max_size_spec(),
    {
        if self.values.len() >= self.max_size && self.values.len() > 0 {
            self.values.pop_front();
        }
        self.values.push_back(value);
    }

    pub fn values(&self) -> (r: &VecDeque<T>)
        ensures
            r@ == self.view(),
    {
        &self.values
    }

    pub fn len(&self) -> (r: usize)
        ensures
            r == self.view().len(),
    {
        self.values.len()
    }

    pub fn is_empty(&self) -> (r: bool)
        ensures
            r == (self.view().len() == 0),
    {
        self.values.len() == 0
    }

    /// Empties the window; its capacity is kept.
    pub fn clear(&mut self)
        ensures
            final(self).wf(),
            final(self).view().len() == 0,
            final(self).max_size_spec() == old(self).max_size_spec(),
    {
        self.values = VecDeque::with_capacity(self.max_size);
    }
}

impl<T: Copy> SlidingWindow<T> {
    /// The newest value.
    pub fn last(&self) -> (r: Option<T>)
        ensures
            self.view().len() == 0 ==> r is None,
            self.view().len() > 0 ==> r == Some(self.view().last()),
    {
        let n = self.values.len();
        if n == 0 {
            None
        } else {
            Some(self.values[n - 1])
        }
    }

    /// The oldest value.
    pub fn first(&self) -> (r: Option<T>)
        ensures
            self.view().len() == 0 ==> r is None,
            self.view().len() > 0 ==> r == Some(self.view()[0]),
    {
        if self.values.len() == 0 {
            None
        } else {
            Some(self.values[0])
        }
    }
}

impl SlidingWindow<u64> {
    /// Mean of the values, rounded down.
    pub fn average(&self) -> (r: Option<u64>)
        ensures
            self.view().len() == 0 ==> r is None,
            self.view().len() > 0 ==> (r matches Some(a) && a == total(self.view()) / (self.view().len() as int)),
    {
        let n = self.values.len();
        if n == 0 {
            return None;
        }
        let mut sum: u128 = 0;
        let mut i: usize = 0;
        while i < n
            invariant
                i <= n,
                n == self.values@.len(),
                sum == total(self.values@.subrange(0, i as int)),
                sum <= i * (u64::MAX as int),
            decreases n - i,
        {
            assert(self.values@.subrange(0, i + 1).drop_last() =~= self.values@.subrange(0, i as int));
            sum = sum + self.values[i] as u128;
            i = i + 1;
        }
        assert(self.values@.subrange(0, n as int) =~= self.values@);
        let m = sum / n as u128;
        assert(m <= u64::MAX) by (nonlinear_arith)
            requires
                sum <= n * (u64::MAX as int),
                n > 0,
                m == (sum as int) / (n as int),
        ;
        Some(m as u64)
    }

    /// The smallest value.
    pub fn min(&self) -> (r: Option<u64>)
        ensures
            self.view().len() == 0 ==> r is None,
            r matches Some(m) ==> self.view().contains(m) && forall|k: int|
                0 <= k < self.view().len() ==> m <= #[trigger] self.view()[k],
            self.view().len() > 0 ==> r is Some,
    {
        let n = self.values.len();
        if n == 0 {
            return None;
        }
        let mut m = self.values[0];
        let mut at: usize = 0;
        let mut i: usize = 1;
        while i < n
            invariant
                1 <= i <= n,
                n == self.values@.len(),
                at < n,
                m == self.values@[at as int],
                forall|k: int| 0 <= k < i ==> m <= #[trigger] self.values@[k],
            decreases n - i,
        {
            if self.values[i] < m {
                m = self.values[i];
                at = i;
            }
            i = i + 1;
        }
        Some(m)
    }

    /// The largest value.
    pub fn max(&self) -> (r: Option<u64>)
        ensures
            self.view().len() == 0 ==> r is None,
            r matches Some(m) ==> self.view().contains(m) && forall|k: int|
                0 <= k < self.view().len() ==> #[trigger] self.view()[k] <= m,
            self.view().len() > 0 ==> r is Some,
    {
        let n = self.values.len();
        if n == 0 {
            return None;
        }
        let mut m = self.values[0];
        let mut at: usize = 0;
        let mut i: usize = 1;
        while i < n
            invariant
                1 <= i <= n,
                n == self.values@.len(),
                at < n,
                m == self.values@[at as int],
                forall|k: int| 0 <= k < i ==> #[trigger] self.values@[k] <= m,
            decreases n - i,
        {
            if self.values[i] > m {
                m = self.values[i];
                at = i;
            }
            i = i + 1;
        }
        Some(m)
    }
}

/// A named stopwatch keeping its recent durations, in nanoseconds.
pub struct Timer {
    name: String,
    start: u64,
    window: SlidingWindow<u64>,
}

impl Timer {
    pub closed spec fn name_spec(&self) -> Seq<char> {
        self.name@
    }

    pub closed spec fn start_spec(&self) -> u64 {
        self.start
    }

    /// Recent durations in nanoseconds, oldest first.
    pub closed spec fn durations(&self) -> Seq<u64> {
        self.window.view()
    }

    pub closed spec fn capacity_spec(&self) -> nat {
        self.window.max_size_spec()
    }

    /// The recent durations stay within the window's bound.
    pub closed spec fn wf(&self) -> bool {
        self.window.wf()
    }

    /// A stopwatch started now, keeping the last `window_size` durations.
    pub fn new(name: &str, window_size: usize) -> (r: Self)
        ensures
            r.wf(),
            r.name_spec() == name@,
            r.durations().len() == 0,
            r.capacity_spec() == window_size,
    {
        Timer { name: name.to_owned(), start: monotonic_reading(), window: SlidingWindow::new(window_size) }
    }

    pub fn name(&self) -> (r: &str)
        ensures
            r@ == self.name_spec(),
    {
        self.name.as_str()
    }

    /// Restarts at `now`.
    pub fn restart_at(&mut self, now: u64)
        ensures
            final(self).wf() == old(self).wf(),
            final(self).start_spec() == now,
            final(self).durations() == old(self).durations(),
            final(self).capacity_spec() == old(self).capacity_spec(),
            final(self).name_spec() == old(self).name_spec(),
    {
        self.start = now;
    }

    /// Restarts now.
    pub fn restart(&mut self)
        ensures
            final(self).wf() == old(self).wf(),
            final(self).durations() == old(self).durations(),
            final(self).capacity_spec() == old(self).capacity_spec(),
            final(self).name_spec() == old(self).name_spec(),
    {
        let now = monotonic_reading();
        self.restart_at(now);
    }

    /// Stops at `now`: records and returns the time since the start.
    pub fn stop_at(&mut self, now: u64) -> (r: TimeSpan)
        requires
            old(self).wf(),
        ensures
            final(self).wf(),
            r@ == elapsed_ns(old(self).start_spec(), now),
            final(self).durations() == window_push(old(self).durations(), r@ as u64, old(self).capacity_spec()),
            final(self).start_spec() == old(self).start_spec(),
            final(self).capacity_spec() == old(self).capacity_spec(),
            final(self).name_spec() == old(self).name_spec(),
    {
        let d: u64 = if now >= self.start {
            now - self.start
        } else {
            0
        };
        self.window.push(d);
        TimeSpan::from_nanos(d)
    }

    /// Stops now: records and returns the time since the start.
    pub fn stop(&mut self) -> (r: TimeSpan)
        requires
            old(self).wf(),
        ensures
            final(self).wf(),
            final(self).durations() == window_push(old(self).durations(), r@ as u64, old(self).capacity_spec()),
            final(self).name_spec() == old(self).name_spec(),
    {
        let now = monotonic_reading();
        self.stop_at(now)
    }

    /// Time since the start at `now`.
    pub fn elapsed_at(&self, now: u64) -> (r: TimeSpan)
        ensures
            r@ == elapsed_ns(self.start_spec(), now),
    {
        if now >= self.start {
            TimeSpan::from_nanos(now - self.start)
        } else {
            TimeSpan::zero()
        }
    }

    /// Time since the start.
    pub fn elapsed(&self) -> TimeSpan {
        let now = monotonic_reading();
        self.elapsed_at(now)
    }

    /// Mean of the recent durations.
    pub fn average(&self) -> (r: Option<TimeSpan>)
        ensures
            self.durations().len() == 0 ==> r is None,
            self.durations().len() > 0 ==> (r matches Some(a) && a@ == total(self.durations())
                / (self.durations().len() as int)),
    {
        match self.window.average() {
            Some(a) => Some(TimeSpan::from_nanos(a)),
            None => None,
        }
    }

    /// Shortest recent duration.
    pub fn min(&self) -> (r: Option<TimeSpan>)
        ensures
            self.durations().len() == 0 <==> r is None,
            r matches Some(m) ==> self.durations().contains(m@ as u64) && forall|k: int|
                0 <= k < self.durations().len() ==> m@ <= #[trigger] self.durations()[k],
    {
        match self.window.min() {
            Some(m) => Some(TimeSpan::from_nanos(m)),
            None => None,
        }
    }

    /// Longest recent duration.
    pub fn max(&self) -> (r: Option<TimeSpan>)
        ensures
            self.durations().len() == 0 <==> r is None,
            r matches Some(m) ==> self.durations().contains(m@ as u64) && forall|k: int|
                0 <= k < self.durations().len() ==> #[trigger] self.durations()[k] <= m@,
    {
        match self.window.max() {
            Some(m) => Some(TimeSpan::from_nanos(m)),
            None => None,
        }
    }
}

} // verus!
