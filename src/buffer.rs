//! Bounded ring of preallocated image slots with an overflow policy.
//!
//! The ring is a queue of live slots, oldest first. A writer reserves the slot
//! after the newest, fills it and commits it; a reader takes the oldest slot once
//! it is committed and releases it. Slot storage is allocated once and reused.
//! The ring is owned by one party at a time; callers on several threads share it
//! behind a lock.

use vstd::prelude::*;
use crate::timestamp::Timestamp;
use crate::types::{OverflowStrategy, PipelineError};

verus! {

/// One preallocated image slot.
#[derive(Clone, Debug)]
pub struct ImageSlot {
    /// Pixel storage; its length is the slot's capacity.
    pub data: Vec<u8>,
    /// Number of meaningful bytes at the start of `data`.
    pub size: usize,
    pub width: u32,
    pub height: u32,
    pub format: u32,
    pub timestamp: Timestamp,
    pub sequence: u64,
    pub metadata: [u64; 8],
    /// Set when a committed write is visible to readers.
    pub valid: bool,
}

impl ImageSlot {
    /// An empty, invalid slot with `capacity` zeroed bytes of storage.
    pub fn new(capacity: usize) -> (r: ImageSlot)
        ensures
            r.data@.len() == capacity,
            forall|i: int| 0 <= i < capacity ==> r.data@[i] == 0,
            r.size == 0,
            r.width == 0,
            r.height == 0,
            r.format == 0,
            r.sequence == 0,
            forall|i: int| 0 <= i < 8 ==> r.metadata@[i] == 0,
            !r.valid,
            r.timestamp.wf(),
    {
        ImageSlot {
            data: vec![0u8; capacity],
            size: 0,
            width: 0,
            height: 0,
            format: 0,
            timestamp: Timestamp::now(),
            sequence: 0,
            metadata: [0u64; 8],
            valid: false,
        }
    }

    /// Clears the header and the valid flag; storage and timestamp are kept.
    pub fn reset(&mut self)
        ensures
            final(self).data@ == old(self).data@,
            final(self).timestamp == old(self).timestamp,
            final(self).size == 0,
            final(self).width == 0,
            final(self).height == 0,
            final(self).format == 0,
            final(self).sequence == 0,
            forall|i: int| 0 <= i < 8 ==> final(self).metadata@[i] == 0,
            !final(self).valid,
    {
        self.size = 0;
        self.width = 0;
        self.height = 0;
        self.format = 0;
        self.sequence = 0;
        self.metadata = [0u64; 8];
        self.valid = false;
    }
}

/// The ring of image slots.
pub struct LockFreeRingBuffer {
    slots: Vec<ImageSlot>,
    capacity: usize,
    /// Slot index of the oldest live entry.
    tail: usize,
    /// Number of live entries.
    size: usize,
    produced: u64,
    consumed: u64,
    dropped: u64,
    /// Live entries cleared by resets.
    discarded: Ghost<nat>,
    overflow_strategy: OverflowStrategy,
    max_image_size: usize,
}

impl LockFreeRingBuffer {
    pub closed spec fn capacity_spec(&self) -> nat {
        self.capacity as nat
    }

    pub closed spec fn len_spec(&self) -> nat {
        self.size as nat
    }

    /// Frames the ring accepted or dropped.
    pub closed spec fn produced_spec(&self) -> nat {
        self.produced as nat
    }

    pub closed spec fn consumed_spec(&self) -> nat {
        self.consumed as nat
    }

    pub closed spec fn dropped_spec(&self) -> nat {
        self.dropped as nat
    }

    /// Live entries that resets have cleared over the ring's lifetime.
    pub closed spec fn discarded_spec(&self) -> nat {
        self.discarded@
    }

    pub closed spec fn strategy_spec(&self) -> OverflowStrategy {
        self.overflow_strategy
    }

    pub closed spec fn max_image_size_spec(&self) -> nat {
        self.max_image_size as nat
    }

    /// The slot stored at index `i`.
    pub closed spec fn slot_spec(&self, i: int) -> ImageSlot {
        self.slots@[i]
    }

    /// Slot index of the `k`-th live entry, counting from the oldest.
    pub closed spec fn entry(&self, k: int) -> int {
        if self.tail + k < self.capacity {
            self.tail + k
        } else {
            self.tail + k - self.capacity
        }
    }

    /// Position of slot `i` in the queue, counting from the oldest.
    pub closed spec fn offset(&self, i: int) -> int {
        if i >= self.tail {
            i - self.tail
        } else {
            i + self.capacity - self.tail
        }
    }

    /// Slot indices of the live entries, oldest first.
    pub closed spec fn live(&self) -> Seq<int> {
        Seq::new(self.size as nat, |k: int| self.entry(k))
    }

    /// Slot `i` holds a live entry.
    pub closed spec fn is_live(&self, i: int) -> bool {
        0 <= i < self.capacity && self.offset(i) < self.size
    }

    /// Slot `i` is reserved and not yet committed.
    pub closed spec fn pending(&self, i: int) -> bool {
        self.is_live(i) && !self.slots@[i].valid
    }

    pub closed spec fn wf(&self) -> bool {
        &&& self.capacity >= 1
        &&& self.slots@.len() == self.capacity
        &&& self.tail < self.capacity
        &&& self.size <= self.capacity
        &&& self.produced == self.consumed + self.dropped + self.size + self.discarded@
        &&& forall|i: int|
            0 <= i < self.capacity ==> {
                &&& (#[trigger] self.slots@[i]).data@.len() == self.max_image_size
                &&& self.slots@[i].size <= self.max_image_size
                &&& self.slots@[i].valid ==> self.is_live(i)
            }
    }

    /// A ring of `capacity` empty slots of `max_image_size` bytes each.
    pub fn new(capacity: usize, max_image_size: usize, strategy: OverflowStrategy) -> (r: Self)
        requires
            capacity >= 1,
        ensures
            r.wf(),
            r.capacity_spec() == capacity,
            r.max_image_size_spec() == max_image_size,
            r.strategy_spec() == strategy,
            r.len_spec() == 0,
            r.produced_spec() == 0,
            r.consumed_spec() == 0,
            r.dropped_spec() == 0,
            r.discarded_spec() == 0,
    {
        let mut slots: Vec<ImageSlot> = Vec::with_capacity(capacity);
        let mut n: usize = 0;
        while n < capacity
            invariant
                n <= capacity,
                slots@.len() == n,
                forall|i: int|
                    0 <= i < n ==> (#[trigger] slots@[i]).data@.len() == max_image_size
                        && slots@[i].size == 0 && !slots@[i].valid,
            decreases capacity - n,
        {
            slots.push(ImageSlot::new(max_image_size));
            n = n + 1;
        }
        LockFreeRingBuffer {
            slots,
            capacity,
            tail: 0,
            size: 0,
            produced: 0,
            consumed: 0,
            dropped: 0,
            discarded: Ghost(0),
            overflow_strategy: strategy,
            max_image_size,
        }
    }

    pub fn capacity(&self) -> (r: usize)
        ensures
            r == self.capacity_spec(),
    {
        self.capacity
    }

    pub fn len(&self) -> (r: usize)
        ensures
            r == self.len_spec(),
    {
        self.size
    }

    pub fn is_empty(&self) -> (r: bool)
        ensures
            r == (self.len_spec() == 0),
    {
        self.size == 0
    }

    pub fn is_full(&self) -> (r: bool)
        ensures
            r == (self.len_spec() >= self.capacity_spec()),
    {
        self.size >= self.capacity
    }

    pub fn produced_count(&self) -> (r: u64)
        ensures
            r == self.produced_spec(),
    {
        self.produced
    }

    pub fn consumed_count(&self) -> (r: u64)
        ensures
            r == self.consumed_spec(),
    {
        self.consumed
    }

    pub fn dropped_count(&self) -> (r: u64)
        ensures
            r == self.dropped_spec(),
    {
        self.dropped
    }

    pub fn overflow_strategy(&self) -> (r: OverflowStrategy)
        ensures
            r == self.strategy_spec(),
    {
        self.overflow_strategy
    }

    pub fn max_image_size(&self) -> (r: usize)
        ensures
            r == self.max_image_size_spec(),
    {
        self.max_image_size
    }

    /// The slot stored at `index`.
    pub fn slot(&self, index: usize) -> (r: &ImageSlot)
        requires
            self.wf(),
            index < self.capacity_spec(),
        ensures
            *r == self.slot_spec(index as int),
    {
        &self.slots[index]
    }

    /// Capacity, slot size and overflow policy agree.
    pub open spec fn same_shape(&self, other: &Self) -> bool {
        &&& self.capacity_spec() == other.capacity_spec()
        &&& self.max_image_size_spec() == other.max_image_size_spec()
        &&& self.strategy_spec() == other.strategy_spec()
        &&& self.discarded_spec() == other.discarded_spec()
    }

    /// Every slot but `i` is the same in both rings.
    pub open spec fn slots_agree_except(&self, other: &Self, i: int) -> bool {
        forall|j: int|
            0 <= j < self.capacity_spec() && j != i ==> #[trigger] self.slot_spec(j)
                == other.slot_spec(j)
    }

    /// Whether a reservation on `self` succeeds.
    pub open spec fn reservation_succeeds(&self) -> bool {
        self.produced_spec() < u64::MAX && (self.len_spec() < self.capacity_spec()
            || self.strategy_spec() == OverflowStrategy::DropOldest)
    }

    /// `post` and result `r` follow from a reservation on `pre`.
    pub open spec fn reserved(pre: Self, post: Self, r: Result<usize, PipelineError>) -> bool {
        let full = pre.len_spec() >= pre.capacity_spec();
        &&& post.same_shape(&pre)
        &&& (r is Ok <==> pre.reservation_succeeds())
        &&& (r matches Err(e) ==> e is BufferError)
        &&& (r matches Ok(i) ==> {
            let kept = if full {
                pre.live().drop_first()
            } else {
                pre.live()
            };
            &&& i == (if full {
                pre.entry(0)
            } else {
                pre.entry(pre.len_spec() as int)
            })
            &&& post.live() == kept.push(i as int)
            &&& post.len_spec() == kept.len() + 1
            &&& post.produced_spec() == pre.produced_spec() + 1
            &&& post.consumed_spec() == pre.consumed_spec()
            &&& post.dropped_spec() == pre.dropped_spec() + (if full {
                1int
            } else {
                0int
            })
            &&& post.pending(i as int)
            &&& post.slot_spec(i as int).size == 0
            &&& post.slot_spec(i as int).sequence == 0
            &&& post.slot_spec(i as int).data@ == pre.slot_spec(i as int).data@
            &&& post.slots_agree_except(&pre, i as int)
        })
        &&& (r is Err && pre.produced_spec() < u64::MAX && pre.strategy_spec()
            == OverflowStrategy::DropNewest ==> {
            &&& post.live() == pre.live()
            &&& post.len_spec() == pre.len_spec()
            &&& post.produced_spec() == pre.produced_spec() + 1
            &&& post.consumed_spec() == pre.consumed_spec()
            &&& post.dropped_spec() == pre.dropped_spec() + 1
            &&& post.slots_agree_except(&pre, -1)
        })
        &&& (r is Err && !(pre.produced_spec() < u64::MAX && pre.strategy_spec()
            == OverflowStrategy::DropNewest) ==> post == pre)
    }

    /// `post` follows from committing slot `index` with `sequence` on `pre`.
    pub open spec fn committed(pre: Self, post: Self, index: int, sequence: u64) -> bool {
        if pre.pending(index) {
            &&& post.same_shape(&pre)
            &&& post.live() == pre.live()
            &&& post.len_spec() == pre.len_spec()
            &&& post.produced_spec() == pre.produced_spec()
            &&& post.consumed_spec() == pre.consumed_spec()
            &&& post.dropped_spec() == pre.dropped_spec()
            &&& post.slot_spec(index) == (ImageSlot {
                sequence,
                valid: true,
                ..pre.slot_spec(index)
            })
            &&& post.slots_agree_except(&pre, index)
        } else {
            post == pre
        }
    }

    /// `post` follows from filling reserved slot `index` on `pre` with `frame`,
    /// truncated to the slot's capacity.
    pub open spec fn filled(
        pre: Self,
        post: Self,
        index: int,
        frame: Seq<u8>,
        width: u32,
        height: u32,
        format: u32,
        timestamp: Timestamp,
    ) -> bool {
        let n = if frame.len() <= pre.max_image_size_spec() {
            frame.len()
        } else {
            pre.max_image_size_spec()
        };
        if pre.pending(index) {
            &&& post.same_shape(&pre)
            &&& post.live() == pre.live()
            &&& post.len_spec() == pre.len_spec()
            &&& post.produced_spec() == pre.produced_spec()
            &&& post.consumed_spec() == pre.consumed_spec()
            &&& post.dropped_spec() == pre.dropped_spec()
            &&& post.pending(index)
            &&& post.slot_spec(index).size == n
            &&& post.slot_spec(index).data@.len() == pre.slot_spec(index).data@.len()
            &&& post.slot_spec(index).data@.subrange(0, n as int) == frame.subrange(0, n as int)
            &&& post.slot_spec(index).width == width
            &&& post.slot_spec(index).height == height
            &&& post.slot_spec(index).format == format
            &&& post.slot_spec(index).timestamp == timestamp
            &&& post.slot_spec(index).sequence == pre.slot_spec(index).sequence
            &&& post.slot_spec(index).metadata == pre.slot_spec(index).metadata
            &&& post.slots_agree_except(&pre, index)
        } else {
            post == pre
        }
    }

    /// What `read_slot` returns on `self`.
    pub open spec fn read_result(&self, r: Result<usize, PipelineError>) -> bool {
        &&& (r is Ok <==> self.len_spec() > 0 && self.slot_spec(self.entry(0)).valid)
        &&& (r matches Ok(i) ==> i == self.entry(0) && i == self.live()[0])
        &&& (r matches Err(e) ==> e is BufferError)
    }

    /// `post` follows from releasing slot `index` on `pre`.
    pub open spec fn released(pre: Self, post: Self, index: int) -> bool {
        if pre.len_spec() > 0 && index == pre.entry(0) && pre.slot_spec(index).valid {
            &&& post.same_shape(&pre)
            &&& post.live() == pre.live().drop_first()
            &&& post.len_spec() == pre.len_spec() - 1
            &&& post.produced_spec() == pre.produced_spec()
            &&& post.consumed_spec() == pre.consumed_spec() + 1
            &&& post.dropped_spec() == pre.dropped_spec()
            &&& post.slot_spec(index) == (ImageSlot { valid: false, ..pre.slot_spec(index) })
            &&& post.slots_agree_except(&pre, index)
        } else {
            post == pre
        }
    }

    /// Slot index of the `k`-th live entry.
    fn entry_index(&self, k: usize) -> (r: usize)
        requires
            self.wf(),
            k < self.capacity_spec(),
        ensures
            r == self.entry(k as int),
            r < self.capacity_spec(),
    {
        if k < self.capacity - self.tail {
            self.tail + k
        } else {
            k - (self.capacity - self.tail)
        }
    }

    /// Drops the oldest live entry, counting it as dropped.
    fn force_advance_tail(&mut self)
        requires
            old(self).wf(),
            old(self).len_spec() > 0,
            old(self).dropped_spec() < u64::MAX,
        ensures
            final(self).wf(),
            final(self).live() == old(self).live().drop_first(),
            final(self).len_spec() == old(self).len_spec() - 1,
            final(self).tail == (if old(self).tail + 1 < old(self).capacity {
                old(self).tail + 1
            } else {
                0
            }),
            final(self).dropped_spec() == old(self).dropped_spec() + 1,
            final(self).consumed_spec() == old(self).consumed_spec(),
            final(self).discarded_spec() == old(self).discarded_spec(),
            final(self).capacity_spec() == old(self).capacity_spec(),
            final(self).max_image_size_spec() == old(self).max_image_size_spec(),
            final(self).strategy_spec() == old(self).strategy_spec(),
            final(self).produced_spec() == old(self).produced_spec(),
            forall|i: int|
                0 <= i < old(self).capacity_spec() && i != old(self).entry(0)
                    ==> #[trigger] final(self).slot_spec(i) == old(self).slot_spec(i),
            final(self).slot_spec(old(self).entry(0)) == (ImageSlot {
                valid: false,
                ..old(self).slot_spec(old(self).entry(0))
            }),
    {
        let t = self.tail;
        self.slots[t].valid = false;
        self.tail = if t + 1 < self.capacity {
            t + 1
        } else {
            0
        };
        self.size = self.size - 1;
        self.dropped = self.dropped + 1;
        assert(self.live() =~= old(self).live().drop_first());
    }

    /// Reserves the slot after the newest entry, applying the overflow policy
    /// when the ring is full. A frame refused under `DropNewest` counts as both
    /// produced and dropped.
    pub fn reserve_write_slot(&mut self) -> (r: Result<usize, PipelineError>)
        requires
            old(self).wf(),
        ensures
            final(self).wf(),
            Self::reserved(*old(self), *final(self), r),
    {
        let ghost pre = *self;
        if self.produced == u64::MAX {
            return Err(PipelineError::BufferError("produced counter exhausted".to_string()));
        }
        if self.size >= self.capacity {
            match self.overflow_strategy {
                OverflowStrategy::Block => {
                    return Err(PipelineError::BufferError("buffer full (Block)".to_string()));
                },
                OverflowStrategy::DropNewest => {
                    self.dropped = self.dropped + 1;
                    self.produced = self.produced + 1;
                    assert(self.live() =~= pre.live());
                    return Err(PipelineError::BufferError("buffer full (DropNewest)".to_string()));
                },
                OverflowStrategy::DropOldest => {
                    self.force_advance_tail();
                },
                OverflowStrategy::Resize => {
                    return Err(PipelineError::BufferError("resizing is not supported".to_string()));
                },
            }
        }
        let ghost mid = *self;
        let index = self.entry_index(self.size);
        proof {
            if pre.len_spec() >= pre.capacity_spec() {
                assert(index == pre.entry(0));
            }
        }
        self.slots[index].reset();
        self.size = self.size + 1;
        self.produced = self.produced + 1;
        assert(self.live() =~= mid.live().push(index as int));
        assert(self.pending(index as int));
        assert forall|j: int|
            0 <= j < self.capacity && j != index implies #[trigger] self.slot_spec(j)
            == pre.slot_spec(j) by {
            assert(self.slot_spec(j) == mid.slot_spec(j));
            if pre.len_spec() >= pre.capacity_spec() {
                assert(mid.slot_spec(j) == pre.slot_spec(j));
            }
        }
        Ok(index)
    }

    /// Fills a reserved slot with `frame` and its header. Bytes beyond the
    /// slot's capacity are cut off. Returns whether `slot_index` was reserved;
    /// any other index is left alone.
    pub fn write_slot(
        &mut self,
        slot_index: usize,
        frame: &[u8],
        width: u32,
        height: u32,
        format: u32,
        timestamp: Timestamp,
    ) -> (r: bool)
        requires
            old(self).wf(),
        ensures
            final(self).wf(),
            r == old(self).pending(slot_index as int),
            Self::filled(
                *old(self),
                *final(self),
                slot_index as int,
                frame@,
                width,
                height,
                format,
                timestamp,
            ),
    {
        if !self.is_pending(slot_index) {
            return false;
        }
        let n = if frame.len() <= self.max_image_size {
            frame.len()
        } else {
            self.max_image_size
        };
        copy_prefix(&mut self.slots[slot_index].data, frame, n);
        self.slots[slot_index].size = n;
        self.slots[slot_index].width = width;
        self.slots[slot_index].height = height;
        self.slots[slot_index].format = format;
        self.slots[slot_index].timestamp = timestamp;
        assert(self.live() =~= old(self).live());
        true
    }

    /// Publishes a reserved slot under `sequence`; any other index is left alone.
    pub fn commit_write(&mut self, slot_index: usize, sequence: u64)
        requires
            old(self).wf(),
        ensures
            final(self).wf(),
            Self::committed(*old(self), *final(self), slot_index as int, sequence),
    {
        if self.is_pending(slot_index) {
            self.slots[slot_index].sequence = sequence;
            self.slots[slot_index].valid = true;
            assert(self.live() =~= old(self).live());
        }
    }

    /// The oldest entry, once it is committed.
    pub fn read_slot(&self) -> (r: Result<usize, PipelineError>)
        requires
            self.wf(),
        ensures
            self.read_result(r),
            r matches Ok(i) ==> self.slot_spec(i as int).valid && self.slot_spec(i as int).size
                <= self.max_image_size_spec() && i < self.capacity_spec() && self.slot_spec(
                i as int,
            ).data@.len() == self.max_image_size_spec(),
    {
        if self.size == 0 {
            return Err(PipelineError::BufferError("buffer empty".to_string()));
        }
        let t = self.tail;
        if !self.slots[t].valid {
            return Err(PipelineError::BufferError("oldest slot not committed".to_string()));
        }
        Ok(t)
    }

    /// Releases the oldest entry after it was read; any other index is left alone.
    pub fn commit_read(&mut self, slot_index: usize)
        requires
            old(self).wf(),
        ensures
            final(self).wf(),
            Self::released(*old(self), *final(self), slot_index as int),
    {
        if self.size > 0 && slot_index == self.tail && self.slots[slot_index].valid {
            self.slots[slot_index].valid = false;
            self.tail = if slot_index + 1 < self.capacity {
                slot_index + 1
            } else {
                0
            };
            self.size = self.size - 1;
            self.consumed = self.consumed + 1;
            assert(self.live() =~= old(self).live().drop_first());
        }
    }

    /// Empties the ring and invalidates every slot; lifetime counters are kept.
    pub fn reset(&mut self)
        requires
            old(self).wf(),
        ensures
            final(self).wf(),
            final(self).capacity_spec() == old(self).capacity_spec(),
            final(self).max_image_size_spec() == old(self).max_image_size_spec(),
            final(self).strategy_spec() == old(self).strategy_spec(),
            final(self).len_spec() == 0,
            final(self).produced_spec() == old(self).produced_spec(),
            final(self).consumed_spec() == old(self).consumed_spec(),
            final(self).dropped_spec() == old(self).dropped_spec(),
            final(self).discarded_spec() == old(self).discarded_spec() + old(self).len_spec(),
            forall|i: int|
                0 <= i < final(self).capacity_spec() ==> !(#[trigger] final(self).slot_spec(
                    i,
                )).valid,
    {
        let ghost old_size = self.size as nat;
        self.tail = 0;
        self.size = 0;
        self.discarded = Ghost(self.discarded@ + old_size);
        let mut i: usize = 0;
        while i < self.capacity
            invariant
                self.capacity == old(self).capacity,
                self.max_image_size == old(self).max_image_size,
                self.slots@.len() == self.capacity,
                self.tail == 0,
                self.size == 0,
                self.capacity >= 1,
                self.produced == old(self).produced,
                self.consumed == old(self).consumed,
                self.dropped == old(self).dropped,
                self.overflow_strategy == old(self).overflow_strategy,
                self.discarded@ == old(self).discarded@ + old(self).size,
                i <= self.capacity,
                forall|j: int|
                    0 <= j < self.capacity ==> {
                        &&& (#[trigger] self.slots@[j]).data@.len() == self.max_image_size
                        &&& self.slots@[j].size <= self.max_image_size
                        &&& j < i ==> !self.slots@[j].valid
                    },
            decreases self.capacity - i,
        {
            self.slots[i].valid = false;
            i = i + 1;
        }
    }

    /// Whether `index` names a slot that was reserved and not yet committed.
    pub fn is_pending(&self, index: usize) -> (r: bool)
        requires
            self.wf(),
        ensures
            r == self.pending(index as int),
    {
        if index >= self.capacity {
            return false;
        }
        let off = if index >= self.tail {
            index - self.tail
        } else {
            self.capacity - self.tail + index
        };
        off < self.size && !self.slots[index].valid
    }
}

/// Copies the first `n` bytes of `src` over the start of `dst`.
fn copy_prefix(dst: &mut Vec<u8>, src: &[u8], n: usize)
    requires
        n <= old(dst)@.len(),
        n <= src@.len(),
    ensures
        final(dst)@.len() == old(dst)@.len(),
        final(dst)@.subrange(0, n as int) == src@.subrange(0, n as int),
        final(dst)@.subrange(n as int, old(dst)@.len() as int) == old(dst)@.subrange(
            n as int,
            old(dst)@.len() as int,
        ),
{
    let mut i: usize = 0;
    while i < n
        invariant
            i <= n,
            n <= dst@.len(),
            n <= src@.len(),
            dst@.len() == old(dst)@.len(),
            forall|k: int| 0 <= k < i ==> dst@[k] == src@[k],
            forall|k: int| i <= k < dst@.len() ==> dst@[k] == old(dst)@[k],
        decreases n - i,
    {
        dst[i] = src[i];
        i = i + 1;
    }
    assert(dst@.subrange(0, n as int) =~= src@.subrange(0, n as int));
    assert(dst@.subrange(n as int, old(dst)@.len() as int) =~= old(dst)@.subrange(
        n as int,
        old(dst)@.len() as int,
    ));
}

/// Every frame the ring took in is consumed, dropped, still held, or was
/// cleared by a reset; with no entries cleared by resets, produced equals
/// consumed plus dropped plus the entries held.
pub proof fn lemma_counter_balance(b: &LockFreeRingBuffer)
    requires
        b.wf(),
    ensures
        b.produced_spec() == b.consumed_spec() + b.dropped_spec() + b.len_spec()
            + b.discarded_spec(),
        b.discarded_spec() == 0 ==> b.produced_spec() == b.consumed_spec() + b.dropped_spec()
            + b.len_spec(),
{
}

/// On an empty ring, reserving and committing a slot, then reading and
/// releasing it, leaves the queue as it was: only the produced and consumed
/// counters move, by one each, and the slot read is the slot written.
pub proof fn lemma_write_read_round_trip(
    b0: LockFreeRingBuffer,
    b1: LockFreeRingBuffer,
    b2: LockFreeRingBuffer,
    b3: LockFreeRingBuffer,
    written: usize,
    sequence: u64,
    read: usize,
)
    requires
        b0.wf(),
        b0.len_spec() == 0,
        LockFreeRingBuffer::reserved(b0, b1, Ok(written)),
        LockFreeRingBuffer::committed(b1, b2, written as int, sequence),
        b2.read_result(Ok(read)),
        LockFreeRingBuffer::released(b2, b3, read as int),
    ensures
        read == written,
        b2.slot_spec(read as int).sequence == sequence,
        b3.live() == b0.live(),
        b3.len_spec() == b0.len_spec(),
        b3.produced_spec() == b0.produced_spec() + 1,
        b3.consumed_spec() == b0.consumed_spec() + 1,
        b3.dropped_spec() == b0.dropped_spec(),
        b3.same_shape(&b0),
        !b3.slot_spec(written as int).valid,
        b3.slots_agree_except(&b0, written as int),
{
    assert(b1.live() =~= seq![written as int]);
    assert(b3.live() =~= b0.live());
}

/// Two slots committed one after the other on a ring with room for both are
/// queued in commit order, each under its own sequence number, so a reader
/// taking the oldest entry sees the first before the second.
pub proof fn lemma_commit_order(
    b0: LockFreeRingBuffer,
    b1: LockFreeRingBuffer,
    b2: LockFreeRingBuffer,
    b3: LockFreeRingBuffer,
    b4: LockFreeRingBuffer,
    first: usize,
    first_sequence: u64,
    second: usize,
    second_sequence: u64,
)
    requires
        b0.wf(),
        b2.wf(),
        b0.len_spec() + 2 <= b0.capacity_spec(),
        LockFreeRingBuffer::reserved(b0, b1, Ok(first)),
        LockFreeRingBuffer::committed(b1, b2, first as int, first_sequence),
        LockFreeRingBuffer::reserved(b2, b3, Ok(second)),
        LockFreeRingBuffer::committed(b3, b4, second as int, second_sequence),
    ensures
        b4.live() == b0.live().push(first as int).push(second as int),
        first != second,
        b4.slot_spec(first as int).sequence == first_sequence,
        b4.slot_spec(second as int).sequence == second_sequence,
        b4.slot_spec(first as int).valid,
        b4.slot_spec(second as int).valid,
{
    assert(b2.slot_spec(first as int).valid);
    assert(b3.pending(second as int));
    assert(!b2.pending(first as int));
}

/// Under `DropOldest` a full ring never refuses a reservation (short of an
/// exhausted produced counter): it evicts exactly one entry, counted as
/// dropped, and the ring stays full.
pub proof fn lemma_drop_oldest_evicts_one(
    pre: LockFreeRingBuffer,
    post: LockFreeRingBuffer,
    r: Result<usize, PipelineError>,
)
    requires
        pre.wf(),
        pre.strategy_spec() == OverflowStrategy::DropOldest,
        pre.len_spec() == pre.capacity_spec(),
        pre.produced_spec() < u64::MAX,
        LockFreeRingBuffer::reserved(pre, post, r),
    ensures
        r is Ok,
        post.dropped_spec() == pre.dropped_spec() + 1,
        post.len_spec() == pre.capacity_spec(),
{
}

/// Under `DropNewest` a full ring refuses every reservation, and each refusal
/// counts exactly one dropped frame while the held entries stay as they were.
pub proof fn lemma_drop_newest_refuses_when_full(
    pre: LockFreeRingBuffer,
    post: LockFreeRingBuffer,
    r: Result<usize, PipelineError>,
)
    requires
        pre.wf(),
        pre.strategy_spec() == OverflowStrategy::DropNewest,
        pre.len_spec() == pre.capacity_spec(),
        LockFreeRingBuffer::reserved(pre, post, r),
    ensures
        r is Err,
        pre.produced_spec() < u64::MAX ==> post.dropped_spec() == pre.dropped_spec() + 1,
        post.live() == pre.live(),
{
}

/// A ring of one slot serialises writer and reader: a reservation on the
/// empty ring takes slot 0 and fills the ring, and while that entry is held a
/// ring that does not evict refuses the next reservation.
pub proof fn lemma_single_slot_serializes(
    b0: LockFreeRingBuffer,
    b1: LockFreeRingBuffer,
    first: usize,
    b2: LockFreeRingBuffer,
    b3: LockFreeRingBuffer,
    r: Result<usize, PipelineError>,
)
    requires
        b0.wf(),
        b0.capacity_spec() == 1,
        b0.len_spec() == 0,
        b0.strategy_spec() != OverflowStrategy::DropOldest,
        LockFreeRingBuffer::reserved(b0, b1, Ok(first)),
        b2.same_shape(&b1),
        b2.len_spec() == b1.len_spec(),
        LockFreeRingBuffer::reserved(b2, b3, r),
    ensures
        first == 0,
        b1.len_spec() == 1,
        r is Err,
{
}

/// The shape of a well-formed ring: at least one slot, as many queued entries
/// as it holds, each in a distinct slot.
pub proof fn lemma_ring_shape(b: &LockFreeRingBuffer)
    requires
        b.wf(),
    ensures
        b.capacity_spec() >= 1,
        b.len_spec() <= b.capacity_spec(),
        b.live().len() == b.len_spec(),
        forall|k: int| 0 <= k < b.len_spec() ==> 0 <= #[trigger] b.live()[k] < b.capacity_spec(),
        forall|j: int, k: int|
            0 <= j < b.len_spec() && 0 <= k < b.len_spec() && j != k ==> #[trigger] b.live()[j]
                != #[trigger] b.live()[k],
        b.len_spec() > 0 ==> b.entry(0) == b.live()[0],
{
}

/// Reads come out oldest first: while an entry is queued ahead of another,
/// no read returns the later one. With commits queued in commit order, one
/// camera's sequence numbers are read in increasing order.
pub proof fn lemma_oldest_read_first(
    b: &LockFreeRingBuffer,
    earlier: int,
    later: int,
    r: Result<usize, PipelineError>,
)
    requires
        b.wf(),
        0 <= earlier < later < b.len_spec(),
        b.read_result(r),
    ensures
        r matches Ok(i) ==> i as int != b.live()[later],
{
    lemma_ring_shape(b);
}

} // verus!
