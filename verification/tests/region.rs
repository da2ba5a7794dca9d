use std::sync::atomic::AtomicU32;
use std::sync::atomic::Ordering;

use neon_bridge::handshake::SharedFrameRegion;
use neon_bridge::layout::region_offset;
use neon_bridge::layout::Frame;
use neon_bridge::layout::CHANNEL_DEPTH;
use neon_bridge::layout::FRAME_BYTES;
use neon_bridge::layout::LOCK_BYTES;
use neon_bridge::layout::LOCK_FREE;
use neon_bridge::layout::LOCK_HELD;
use neon_bridge::layout::MATRIX_COLS;
use neon_bridge::layout::MATRIX_ROWS;
use neon_bridge::layout::PAYLOAD_OFFSET;
use neon_bridge::layout::REGION_BYTES;

fn patterned_payload() -> Vec<u8> {
    let mut payload: Vec<u8> = Vec::with_capacity(FRAME_BYTES);
    let mut i: usize = 0;
    while i < FRAME_BYTES {
        payload.push((i % 251) as u8);
        i += 1;
    }
    payload
}

#[test]
fn region_sizes_follow_the_matrix() {
    assert_eq!(MATRIX_ROWS * MATRIX_COLS * CHANNEL_DEPTH, 8192);
    assert_eq!(FRAME_BYTES, 8192);
    assert_eq!(LOCK_BYTES, 4);
    assert_eq!(PAYLOAD_OFFSET, 4);
    assert_eq!(REGION_BYTES, 8196);
    assert_eq!(LOCK_FREE, 0);
    assert_eq!(LOCK_HELD, 1);
}

#[test]
fn region_offset_is_row_major_behind_the_lock_word() {
    assert_eq!(region_offset(0, 0, 0), 4);
    assert_eq!(region_offset(0, 0, 3), 7);
    assert_eq!(region_offset(0, 1, 0), 8);
    assert_eq!(region_offset(1, 0, 0), 4 + 32 * 4);
    assert_eq!(region_offset(63, 31, 3), 8195);
}

#[test]
fn frame_from_bytes_takes_only_the_frame_size() {
    let payload: Vec<u8> = patterned_payload();
    let frame = Frame::from_bytes(payload.clone());
    assert!(frame.is_some());
    let frame = frame.unwrap();
    assert_eq!(frame.len(), 8192);
    assert_eq!(frame.as_slice(), payload.as_slice());
    assert_eq!(frame.into_bytes(), payload);

    assert!(Frame::from_bytes(Vec::new()).is_none());
    assert!(Frame::from_bytes(vec![0u8; 8191]).is_none());
    assert!(Frame::from_bytes(vec![0u8; 8193]).is_none());
    assert!(Frame::from_bytes(vec![0u8; 8196]).is_none());
}

#[test]
fn frame_copy_of_copies_every_byte() {
    let payload: Vec<u8> = patterned_payload();
    let frame = Frame::copy_of(payload.as_slice());
    assert_eq!(frame.len(), FRAME_BYTES);
    assert_eq!(frame.as_slice(), payload.as_slice());
    assert_eq!(frame.as_slice()[250], 250);
    assert_eq!(frame.as_slice()[251], 0);
    assert_eq!(frame.as_slice()[8191], (8191 % 251) as u8);
}

#[test]
fn region_refuses_a_payload_of_the_wrong_size() {
    let lock = AtomicU32::new(0);
    let short: Vec<u8> = vec![0u8; 8191];
    let long: Vec<u8> = vec![0u8; 8196];
    let empty: Vec<u8> = Vec::new();
    let exact: Vec<u8> = vec![0u8; 8192];
    assert!(SharedFrameRegion::new(&lock, short.as_slice()).is_none());
    assert!(SharedFrameRegion::new(&lock, long.as_slice()).is_none());
    assert!(SharedFrameRegion::new(&lock, empty.as_slice()).is_none());
    assert!(SharedFrameRegion::new(&lock, exact.as_slice()).is_some());
}

#[test]
fn try_read_on_a_free_lock_copies_the_payload_and_frees_the_lock() {
    let lock = AtomicU32::new(LOCK_FREE);
    let payload: Vec<u8> = patterned_payload();
    let region = SharedFrameRegion::new(&lock, payload.as_slice()).unwrap();
    let frame = region.try_read();
    assert!(frame.is_some());
    assert_eq!(frame.unwrap().into_bytes(), payload);
    assert_eq!(lock.load(Ordering::SeqCst), LOCK_FREE);
    let again = region.try_read();
    assert_eq!(again.unwrap().as_slice(), payload.as_slice());
    assert_eq!(lock.load(Ordering::SeqCst), 0);
}

#[test]
fn try_read_on_a_held_lock_returns_nothing_and_leaves_the_lock() {
    let lock = AtomicU32::new(LOCK_HELD);
    let payload: Vec<u8> = patterned_payload();
    let region = SharedFrameRegion::new(&lock, payload.as_slice()).unwrap();
    assert!(region.try_read().is_none());
    assert_eq!(lock.load(Ordering::SeqCst), LOCK_HELD);
    assert!(region.try_read().is_none());
    assert_eq!(lock.load(Ordering::SeqCst), 1);
    lock.store(LOCK_FREE, Ordering::SeqCst);
    assert!(region.try_read().is_some());
}

#[test]
fn try_read_never_takes_a_word_that_is_not_free() {
    let payload: Vec<u8> = patterned_payload();
    let words: Vec<u32> = vec![1, 2, 7, 0xffff_ffff];
    for word in words {
        let lock = AtomicU32::new(word);
        let region = SharedFrameRegion::new(&lock, payload.as_slice()).unwrap();
        assert!(region.try_read().is_none());
        assert_eq!(lock.load(Ordering::SeqCst), word);
    }
}

#[test]
fn copy_if_acquired_is_all_or_nothing() {
    let lock = AtomicU32::new(0);
    let payload: Vec<u8> = patterned_payload();
    let region = SharedFrameRegion::new(&lock, payload.as_slice()).unwrap();
    let copy = region.copy_if_acquired(true);
    assert_eq!(copy.unwrap().into_bytes(), payload);
    assert!(region.copy_if_acquired(false).is_none());
}

#[test]
fn try_read_between_writer_updates_is_whole_or_nothing() {
    let lock = AtomicU32::new(0);
    let payload: Vec<u8> = patterned_payload();
    let region = SharedFrameRegion::new(&lock, payload.as_slice()).unwrap();
    let mut reads: u32 = 0;
    let mut misses: u32 = 0;
    let mut round: u32 = 0;
    while round < 300 {
        let writer_holds: bool = round % 3 == 1;
        if writer_holds {
            assert!(lock
                .compare_exchange(0, 1, Ordering::Acquire, Ordering::Relaxed)
                .is_ok());
        }
        match region.try_read() {
            Some(frame) => {
                assert!(!writer_holds);
                assert_eq!(frame.len(), FRAME_BYTES);
                assert_eq!(frame.as_slice(), payload.as_slice());
                reads += 1;
            }
            None => {
                assert!(writer_holds);
                misses += 1;
            }
        }
        if writer_holds {
            assert_eq!(lock.load(Ordering::SeqCst), 1);
            lock.store(0, Ordering::Release);
        }
        round += 1;
    }
    assert_eq!(reads, 200);
    assert_eq!(misses, 100);
    assert_eq!(lock.load(Ordering::SeqCst), 0);
}
