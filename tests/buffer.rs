use heimdall::buffer::{ImageSlot, LockFreeRingBuffer};
use heimdall::timestamp::Timestamp;
use heimdall::types::OverflowStrategy;

fn write(buffer: &mut LockFreeRingBuffer, bytes: &[u8], sequence: u64) -> usize {
    let index = buffer.reserve_write_slot().unwrap();
    assert!(buffer.write_slot(index, bytes, 10, 10, 0, Timestamp::from_seconds_nanos(1, 0)));
    buffer.commit_write(index, sequence);
    index
}

#[test]
fn test_buffer_basic_operations() {
    let mut buffer = LockFreeRingBuffer::new(4, 1024, OverflowStrategy::DropOldest);

    assert_eq!(buffer.capacity(), 4);
    assert_eq!(buffer.len(), 0);
    assert!(buffer.is_empty());
    assert!(!buffer.is_full());

    let slot_index = buffer.reserve_write_slot().unwrap();
    assert!(buffer.write_slot(slot_index, &[7u8; 100], 10, 10, 0, Timestamp::now()));
    buffer.commit_write(slot_index, 1);

    assert_eq!(buffer.len(), 1);
    assert!(!buffer.is_empty());
    assert!(!buffer.is_full());

    let read_index = buffer.read_slot().unwrap();
    let read_slot = buffer.slot(read_index);
    assert_eq!(read_slot.size, 100);
    assert_eq!(read_slot.width, 10);
    assert_eq!(read_slot.height, 10);
    assert_eq!(read_slot.sequence, 1);
    buffer.commit_read(read_index);

    assert_eq!(buffer.len(), 0);
    assert!(buffer.is_empty());
    assert!(!buffer.is_full());
}

#[test]
fn test_buffer_overflow_drop_oldest() {
    let mut buffer = LockFreeRingBuffer::new(2, 1024, OverflowStrategy::DropOldest);

    write(&mut buffer, &[1], 1);
    write(&mut buffer, &[2], 2);

    assert_eq!(buffer.len(), 2);
    assert!(buffer.is_full());

    write(&mut buffer, &[3], 3);

    assert_eq!(buffer.len(), 2);
    assert!(buffer.is_full());

    let read_index = buffer.read_slot().unwrap();
    assert_eq!(buffer.slot(read_index).sequence, 2);
    buffer.commit_read(read_index);

    let read_index = buffer.read_slot().unwrap();
    assert_eq!(buffer.slot(read_index).sequence, 3);
    buffer.commit_read(read_index);

    assert_eq!(buffer.len(), 0);
    assert!(buffer.is_empty());
    assert_eq!(buffer.dropped_count(), 1);
}

#[test]
fn test_buffer_concurrent_operations() {
    // Four producers of 1000 frames each, interleaved with two consumers,
    // on a ring of 1000 slots.
    let mut buffer = LockFreeRingBuffer::new(1000, 1024, OverflowStrategy::DropOldest);
    let total_items = 4 * 1000;
    let mut consumed = 0usize;
    for i in 0..1000u64 {
        for p in 0..4u64 {
            let sequence = p * 1000 + i;
            if let Ok(index) = buffer.reserve_write_slot() {
                buffer.commit_write(index, sequence);
            }
        }
        for _ in 0..2 {
            if let Ok(index) = buffer.read_slot() {
                buffer.commit_read(index);
                consumed += 1;
            }
        }
    }
    while let Ok(index) = buffer.read_slot() {
        buffer.commit_read(index);
        consumed += 1;
    }
    assert_eq!(consumed + buffer.dropped_count() as usize, total_items);
}

#[test]
fn buffer_drop_newest_refuses_and_counts() {
    let mut buffer = LockFreeRingBuffer::new(2, 16, OverflowStrategy::DropNewest);
    write(&mut buffer, &[1], 1);
    write(&mut buffer, &[2], 2);
    assert!(buffer.reserve_write_slot().is_err());
    assert_eq!(buffer.dropped_count(), 1);
    assert_eq!(buffer.len(), 2);
    let index = buffer.read_slot().unwrap();
    assert_eq!(buffer.slot(index).sequence, 1);
    assert_eq!(
        buffer.produced_count(),
        buffer.consumed_count() + buffer.dropped_count() + buffer.len() as u64
    );
}

#[test]
fn buffer_block_refuses_without_counting() {
    let mut buffer = LockFreeRingBuffer::new(1, 16, OverflowStrategy::Block);
    write(&mut buffer, &[1], 1);
    assert!(buffer.reserve_write_slot().is_err());
    assert_eq!(buffer.dropped_count(), 0);
    assert_eq!(buffer.produced_count(), 1);
}

#[test]
fn buffer_resize_strategy_refuses() {
    let mut buffer = LockFreeRingBuffer::new(1, 16, OverflowStrategy::Resize);
    write(&mut buffer, &[1], 1);
    assert!(buffer.reserve_write_slot().is_err());
    assert_eq!(buffer.len(), 1);
}

#[test]
fn buffer_capacity_one_serializes() {
    let mut buffer = LockFreeRingBuffer::new(1, 8, OverflowStrategy::Block);
    for seq in 1..=5u64 {
        write(&mut buffer, &[seq as u8], seq);
        assert!(buffer.is_full());
        let index = buffer.read_slot().unwrap();
        assert_eq!(buffer.slot(index).sequence, seq);
        assert_eq!(buffer.slot(index).data[0], seq as u8);
        buffer.commit_read(index);
        assert!(buffer.is_empty());
    }
    assert_eq!(buffer.produced_count(), 5);
    assert_eq!(buffer.consumed_count(), 5);
}

#[test]
fn buffer_zero_byte_frame() {
    let mut buffer = LockFreeRingBuffer::new(2, 8, OverflowStrategy::Block);
    write(&mut buffer, &[], 9);
    let index = buffer.read_slot().unwrap();
    assert_eq!(buffer.slot(index).size, 0);
    assert!(buffer.slot(index).valid);
}

#[test]
fn buffer_truncates_oversized_frames() {
    let mut buffer = LockFreeRingBuffer::new(2, 4, OverflowStrategy::Block);
    write(&mut buffer, &[1, 2, 3, 4, 5, 6], 1);
    let index = buffer.read_slot().unwrap();
    assert_eq!(buffer.slot(index).size, 4);
    assert_eq!(&buffer.slot(index).data[..4], &[1, 2, 3, 4]);
}

#[test]
fn buffer_uncommitted_slot_is_not_readable() {
    let mut buffer = LockFreeRingBuffer::new(2, 4, OverflowStrategy::Block);
    let index = buffer.reserve_write_slot().unwrap();
    assert!(buffer.read_slot().is_err());
    assert!(buffer.is_pending(index));
    buffer.commit_write(index, 5);
    assert!(!buffer.is_pending(index));
    assert_eq!(buffer.read_slot().unwrap(), index);
}

#[test]
fn buffer_commit_on_dropped_index_is_noop() {
    let mut buffer = LockFreeRingBuffer::new(1, 4, OverflowStrategy::DropOldest);
    let first = buffer.reserve_write_slot().unwrap();
    buffer.commit_write(first, 1);
    // The only slot is evicted and reserved again; the old index now names the new reservation.
    let second = buffer.reserve_write_slot().unwrap();
    assert_eq!(buffer.dropped_count(), 1);
    buffer.commit_write(second, 2);
    buffer.commit_write(second, 3);
    let index = buffer.read_slot().unwrap();
    assert_eq!(buffer.slot(index).sequence, 2);
    // Releasing a slot other than the oldest changes nothing.
    buffer.commit_read(index + 1);
    assert_eq!(buffer.len(), 1);
}

#[test]
fn buffer_round_trip_restores_queue() {
    let mut buffer = LockFreeRingBuffer::new(3, 4, OverflowStrategy::Block);
    let before = (buffer.len(), buffer.dropped_count());
    let index = write(&mut buffer, &[4], 77);
    let read = buffer.read_slot().unwrap();
    assert_eq!(read, index);
    assert_eq!(buffer.slot(read).sequence, 77);
    buffer.commit_read(read);
    assert_eq!((buffer.len(), buffer.dropped_count()), before);
    assert_eq!(buffer.produced_count(), 1);
    assert_eq!(buffer.consumed_count(), 1);
}

#[test]
fn buffer_reset_keeps_lifetime_counters() {
    let mut buffer = LockFreeRingBuffer::new(3, 4, OverflowStrategy::Block);
    write(&mut buffer, &[1], 1);
    write(&mut buffer, &[2], 2);
    buffer.reset();
    assert_eq!(buffer.len(), 0);
    assert_eq!(buffer.produced_count(), 2);
    assert_eq!(buffer.consumed_count(), 0);
    assert!(buffer.read_slot().is_err());
    for i in 0..3 {
        assert!(!buffer.slot(i).valid);
    }
}

#[test]
fn image_slot_new_and_reset() {
    let mut slot = ImageSlot::new(16);
    assert_eq!(slot.data.len(), 16);
    assert!(!slot.valid);
    slot.size = 4;
    slot.sequence = 9;
    slot.valid = true;
    slot.metadata[2] = 5;
    slot.reset();
    assert_eq!(slot.size, 0);
    assert_eq!(slot.sequence, 0);
    assert_eq!(slot.metadata, [0u64; 8]);
    assert!(!slot.valid);
    assert_eq!(slot.data.len(), 16);
}
