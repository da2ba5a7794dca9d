use std::sync::atomic::AtomicU32;
use std::sync::atomic::Ordering;

use neon_bridge::handshake::SharedFrameRegion;
use neon_bridge::layout::Frame;
use neon_bridge::layout::FRAME_BYTES;
use neon_bridge::pacing::Pacer;
use neon_bridge::producer::FrameProducer;
use neon_bridge::producer::SendOutcome;
use neon_bridge::producer::TickOutcome;
use neon_bridge::producer::FRAME_CHANNEL_CAPACITY;

fn frame_of(byte: u8) -> Frame {
    Frame::from_bytes(vec![byte; FRAME_BYTES]).unwrap()
}

#[test]
fn channel_capacity_is_two_seconds_of_frames() {
    assert_eq!(FRAME_CHANNEL_CAPACITY, 480);
}

#[test]
fn new_producer_starts_its_clock_and_window() {
    let producer = FrameProducer::new(4166, 250);
    assert_eq!(
        producer,
        FrameProducer {
            pacer: Pacer { interval_us: 4166, last_us: 250 },
            window_start_us: 250,
            forwarded_in_window: 0,
        }
    );
}

#[test]
fn settle_books_a_sent_frame() {
    let mut producer = FrameProducer::new(4166, 0);
    assert_eq!(producer.settle(5000, SendOutcome::Sent), TickOutcome::Forwarded);
    assert_eq!(producer.pacer.last_us, 5000);
    assert_eq!(producer.forwarded_in_window, 1);
    assert_eq!(producer.window_start_us, 0);
}

#[test]
fn settle_drops_on_a_full_or_closed_channel_and_changes_nothing() {
    let mut producer = FrameProducer::new(4166, 0);
    let before = producer;
    assert_eq!(producer.settle(5000, SendOutcome::Full), TickOutcome::Dropped);
    assert_eq!(producer, before);
    assert_eq!(producer.settle(5000, SendOutcome::Closed), TickOutcome::Dropped);
    assert_eq!(producer, before);
}

#[test]
fn settle_reports_a_frame_that_was_not_due() {
    let mut producer = FrameProducer::new(4166, 1000);
    let before = producer;
    assert_eq!(producer.settle(5165, SendOutcome::Sent), TickOutcome::Paced);
    assert_eq!(producer, before);
    assert_eq!(producer.settle(5166, SendOutcome::Sent), TickOutcome::Forwarded);
}

#[test]
fn the_forward_count_stops_at_the_largest_value() {
    let mut producer = FrameProducer {
        pacer: Pacer { interval_us: 1, last_us: 0 },
        window_start_us: 0,
        forwarded_in_window: u64::MAX,
    };
    assert_eq!(producer.settle(10, SendOutcome::Sent), TickOutcome::Forwarded);
    assert_eq!(producer.forwarded_in_window, u64::MAX);
}

#[test]
fn roll_window_resets_the_count_after_a_second() {
    let mut producer = FrameProducer::new(4166, 100);
    producer.settle(5000, SendOutcome::Sent);
    producer.settle(10_000, SendOutcome::Sent);
    assert_eq!(producer.forwarded_in_window, 2);
    producer.roll_window(1_000_099);
    assert_eq!(producer.forwarded_in_window, 2);
    assert_eq!(producer.window_start_us, 100);
    producer.roll_window(1_000_100);
    assert_eq!(producer.forwarded_in_window, 0);
    assert_eq!(producer.window_start_us, 1_000_100);
    assert_eq!(producer.pacer.last_us, 10_000);
    producer.roll_window(5);
    assert_eq!(producer.window_start_us, 1_000_100);
}

#[test]
fn offer_sends_a_due_frame_into_the_channel() {
    let (tx, mut rx) = tokio::sync::mpsc::channel::<Frame>(4);
    let mut producer = FrameProducer::new(4166, 0);
    assert_eq!(producer.offer(frame_of(7), 4166, &tx), TickOutcome::Forwarded);
    assert_eq!(producer.pacer.last_us, 4166);
    assert_eq!(producer.forwarded_in_window, 1);
    let got = rx.try_recv().unwrap();
    assert_eq!(got.into_bytes(), vec![7u8; FRAME_BYTES]);
    assert!(rx.try_recv().is_err());
}

#[test]
fn offer_drops_a_frame_that_comes_too_soon_without_sending() {
    let (tx, mut rx) = tokio::sync::mpsc::channel::<Frame>(4);
    let mut producer = FrameProducer::new(4166, 0);
    let before = producer;
    assert_eq!(producer.offer(frame_of(1), 4165, &tx), TickOutcome::Paced);
    assert_eq!(producer, before);
    assert!(rx.try_recv().is_err());
}

#[test]
fn offer_drops_on_a_full_channel_without_blocking() {
    let (tx, mut rx) = tokio::sync::mpsc::channel::<Frame>(1);
    let mut producer = FrameProducer::new(4166, 0);
    assert_eq!(producer.offer(frame_of(1), 5000, &tx), TickOutcome::Forwarded);
    let after_first = producer;
    assert_eq!(producer.offer(frame_of(2), 10_000, &tx), TickOutcome::Dropped);
    assert_eq!(producer, after_first);
    assert_eq!(producer.offer(frame_of(3), 15_000, &tx), TickOutcome::Dropped);
    assert_eq!(producer, after_first);
    assert_eq!(rx.try_recv().unwrap().into_bytes(), vec![1u8; FRAME_BYTES]);
    assert_eq!(producer.offer(frame_of(4), 20_000, &tx), TickOutcome::Forwarded);
    assert_eq!(producer.pacer.last_us, 20_000);
    assert_eq!(producer.forwarded_in_window, 2);
    assert_eq!(rx.try_recv().unwrap().into_bytes(), vec![4u8; FRAME_BYTES]);
}

#[test]
fn offer_drops_when_the_receiver_is_gone() {
    let (tx, rx) = tokio::sync::mpsc::channel::<Frame>(4);
    drop(rx);
    let mut producer = FrameProducer::new(4166, 0);
    let before = producer;
    assert_eq!(producer.offer(frame_of(1), 5000, &tx), TickOutcome::Dropped);
    assert_eq!(producer, before);
}

#[test]
fn tick_reads_the_region_and_forwards_the_frame() {
    let lock = AtomicU32::new(0);
    let payload: Vec<u8> = vec![9u8; FRAME_BYTES];
    let region = SharedFrameRegion::new(&lock, payload.as_slice()).unwrap();
    let (tx, mut rx) = tokio::sync::mpsc::channel::<Frame>(FRAME_CHANNEL_CAPACITY);
    let mut producer = FrameProducer::new(4166, 0);

    assert_eq!(producer.tick(&region, 4166, &tx), TickOutcome::Forwarded);
    assert_eq!(rx.try_recv().unwrap().into_bytes(), payload);
    assert_eq!(lock.load(Ordering::SeqCst), 0);
    assert_eq!(producer.pacer.last_us, 4166);

    assert_eq!(producer.tick(&region, 8331, &tx), TickOutcome::Paced);
    assert!(rx.try_recv().is_err());
    assert_eq!(producer.tick(&region, 8332, &tx), TickOutcome::Forwarded);
    assert_eq!(producer.forwarded_in_window, 2);
}

#[test]
fn tick_on_a_held_lock_reads_nothing() {
    let lock = AtomicU32::new(1);
    let payload: Vec<u8> = vec![9u8; FRAME_BYTES];
    let region = SharedFrameRegion::new(&lock, payload.as_slice()).unwrap();
    let (tx, mut rx) = tokio::sync::mpsc::channel::<Frame>(4);
    let mut producer = FrameProducer::new(4166, 0);
    let before = producer;
    assert_eq!(producer.tick(&region, 50_000, &tx), TickOutcome::Contended);
    assert_eq!(producer, before);
    assert!(rx.try_recv().is_err());
    assert_eq!(lock.load(Ordering::SeqCst), 1);
}

#[test]
fn tick_rolls_the_window_after_forwarding() {
    let lock = AtomicU32::new(0);
    let payload: Vec<u8> = vec![3u8; FRAME_BYTES];
    let region = SharedFrameRegion::new(&lock, payload.as_slice()).unwrap();
    let (tx, _rx) = tokio::sync::mpsc::channel::<Frame>(8);
    let mut producer = FrameProducer::new(4166, 0);
    assert_eq!(producer.tick(&region, 500_000, &tx), TickOutcome::Forwarded);
    assert_eq!(producer.forwarded_in_window, 1);
    assert_eq!(producer.tick(&region, 1_000_000, &tx), TickOutcome::Forwarded);
    assert_eq!(producer.forwarded_in_window, 0);
    assert_eq!(producer.window_start_us, 1_000_000);
    assert_eq!(producer.pacer.last_us, 1_000_000);
}

#[test]
fn a_stalled_consumer_never_stalls_the_producer() {
    let lock = AtomicU32::new(0);
    let payload: Vec<u8> = vec![5u8; FRAME_BYTES];
    let region = SharedFrameRegion::new(&lock, payload.as_slice()).unwrap();
    let (tx, mut rx) = tokio::sync::mpsc::channel::<Frame>(2);
    let mut producer = FrameProducer::new(4166, 0);
    let mut forwarded: u32 = 0;
    let mut dropped: u32 = 0;
    let mut tick: u64 = 1;
    while tick <= 100 {
        match producer.tick(&region, tick * 4166, &tx) {
            TickOutcome::Forwarded => forwarded += 1,
            TickOutcome::Dropped => dropped += 1,
            _ => panic!("every tick reads a due frame"),
        }
        tick += 1;
    }
    assert_eq!(forwarded, 2);
    assert_eq!(dropped, 98);
    assert_eq!(producer.pacer.last_us, 2 * 4166);
    assert!(rx.try_recv().is_ok());
    assert!(rx.try_recv().is_ok());
    assert!(rx.try_recv().is_err());
}
