//! The frame producer: one tick polls the shared region and hands a frame to
//! the bounded frame channel, paced and without ever waiting for room.

use tokio::sync::mpsc::error::TrySendError;
use tokio::sync::mpsc::Sender;
use vstd::prelude::*;
use crate::handshake::SharedFrameRegion;
use crate::layout::Frame;
use crate::pacing::elapsed_between;
use crate::pacing::Pacer;
use crate::pacing::MICROS_PER_SECOND;
use crate::pacing::TARGET_FPS;

verus! {

/// Capacity of the frame channel: two seconds' worth of frames.
pub const FRAME_CHANNEL_CAPACITY: usize = 480;

/// The channel holds two frames for each frame of one second at the target
/// rate.
pub proof fn lemma_capacity_matches_rate()
    ensures
        FRAME_CHANNEL_CAPACITY == TARGET_FPS * 2,
{
}

/// The sending half of tokio's bounded channel. Its state is shared with the
/// receiving task, so nothing is said of what it holds.
#[verifier::external_type_specification]
#[verifier::external_body]
#[verifier::reject_recursive_types(T)]
pub struct ExSender<T>(Sender<T>);

/// How one non-blocking send ended.
#[derive(Clone, Copy, Debug, PartialEq, Eq, Structural)]
pub enum SendOutcome {
    /// The channel took the frame.
    Sent,
    /// The channel was at capacity; the frame is gone.
    Full,
    /// The receiving half is closed or dropped; the frame is gone.
    Closed,
}

/// What one producer tick did.
#[derive(Clone, Copy, Debug, PartialEq, Eq, Structural)]
pub enum TickOutcome {
    /// The writer held the lock word: nothing was read.
    Contended,
    /// A frame was read less than one interval after the last forward.
    Paced,
    /// A frame was due but the channel did not take it.
    Dropped,
    /// A frame went into the channel.
    Forwarded,
}

/// Calls `tokio::sync::mpsc::Sender::try_send`, which returns at once in
/// every case, and reports which of its three results came back. The result
/// depends on how fast the receiver drains the channel, so the contract
/// promises nothing about it.
#[verifier::external_body]
fn try_send_frame(channel: &Sender<Frame>, frame: Frame) -> (outcome: SendOutcome) {
    match channel.try_send(frame) {
        Ok(()) => SendOutcome::Sent,
        Err(TrySendError::Full(_)) => SendOutcome::Full,
        Err(TrySendError::Closed(_)) => SendOutcome::Closed,
    }
}

/// `count + 1`, held at the largest value instead of wrapping.
pub open spec fn bumped(count: u64) -> u64 {
    if count < u64::MAX {
        (count + 1) as u64
    } else {
        count
    }
}

/// State of the producer between ticks.
#[derive(Clone, Copy, Debug, PartialEq, Eq, Structural)]
pub struct FrameProducer {
    /// Producer-side pacing: time of the last frame the channel took.
    pub pacer: Pacer,
    /// Start of the current one-second counting window.
    pub window_start_us: u64,
    /// Frames forwarded in the current window. Observability only.
    pub forwarded_in_window: u64,
}

impl FrameProducer {
    /// The state after the channel took a frame at `now_us`.
    pub open spec fn forwarded(self, now_us: u64) -> FrameProducer {
        FrameProducer {
            pacer: self.pacer.marked(now_us),
            window_start_us: self.window_start_us,
            forwarded_in_window: bumped(self.forwarded_in_window),
        }
    }

    /// What a tick with a frame in hand reports, given the channel's answer
    /// where one was asked for.
    pub open spec fn verdict(self, now_us: u64, send: SendOutcome) -> TickOutcome {
        if !self.pacer.due_at(now_us) {
            TickOutcome::Paced
        } else if send is Sent {
            TickOutcome::Forwarded
        } else {
            TickOutcome::Dropped
        }
    }

    /// The state that a tick's pacing step leaves, by what the tick did.
    /// Only a forwarded frame changes anything.
    pub open spec fn after_outcome(self, now_us: u64, outcome: TickOutcome) -> FrameProducer {
        if outcome is Forwarded {
            self.forwarded(now_us)
        } else {
            self
        }
    }

    /// The state after the counting window was checked at `now_us`: a window
    /// of a second or more is closed and a new one starts empty.
    pub open spec fn window_rolled(self, now_us: u64) -> FrameProducer {
        if elapsed_between(self.window_start_us, now_us) >= MICROS_PER_SECOND {
            FrameProducer {
                pacer: self.pacer,
                window_start_us: now_us,
                forwarded_in_window: 0,
            }
        } else {
            self
        }
    }

    /// The state after a whole tick at `now_us` that ended in `outcome`.
    pub open spec fn after_tick(self, now_us: u64, outcome: TickOutcome) -> FrameProducer {
        self.after_outcome(now_us, outcome).window_rolled(now_us)
    }

    /// A producer that starts at `start_us` with the given frame interval.
    pub fn new(interval_us: u64, start_us: u64) -> (producer: FrameProducer)
        ensures
            producer == (FrameProducer {
                pacer: Pacer { interval_us, last_us: start_us },
                window_start_us: start_us,
                forwarded_in_window: 0,
            }),
    {
        FrameProducer {
            pacer: Pacer::new(interval_us, start_us),
            window_start_us: start_us,
            forwarded_in_window: 0,
        }
    }

    /// Books the channel's answer for a frame read at `now_us`.
    ///
    /// A due frame that the channel took moves the pacing mark and is
    /// counted. A frame that met a full or closed channel is dropped: the
    /// state stays as it was and nothing is retried. The same holds of a
    /// frame that was not due.
    pub fn settle(&mut self, now_us: u64, send: SendOutcome) -> (outcome: TickOutcome)
        ensures
            outcome == old(self).verdict(now_us, send),
            *final(self) == old(self).after_outcome(now_us, outcome),
            !(send is Sent) ==> !(outcome is Forwarded) && *final(self) == *old(self),
    {
        if !self.pacer.due(now_us) {
            return TickOutcome::Paced;
        }
        match send {
            SendOutcome::Sent => {
                self.pacer.mark(now_us);
                if self.forwarded_in_window < u64::MAX {
                    self.forwarded_in_window = self.forwarded_in_window + 1;
                }
                TickOutcome::Forwarded
            },
            SendOutcome::Full => TickOutcome::Dropped,
            SendOutcome::Closed => TickOutcome::Dropped,
        }
    }

    /// Offers a frame read at `now_us` to the channel.
    ///
    /// A frame that comes less than one interval after the last forwarded one
    /// is dropped without touching the channel. Otherwise one non-blocking
    /// send is made and its answer booked by `settle`. Whether the channel
    /// has room is the receiver's doing, so of a due frame the contract says
    /// what holds either way.
    pub fn offer(&mut self, frame: Frame, now_us: u64, channel: &Sender<Frame>) -> (outcome:
        TickOutcome)
        ensures
            outcome is Paced <==> !old(self).pacer.due_at(now_us),
            outcome is Paced || outcome is Dropped || outcome is Forwarded,
            *final(self) == old(self).after_outcome(now_us, outcome),
    {
        if !self.pacer.due(now_us) {
            return TickOutcome::Paced;
        }
        let send = try_send_frame(channel, frame);
        self.settle(now_us, send)
    }

    /// Closes the one-second counting window when it has run out.
    pub fn roll_window(&mut self, now_us: u64)
        ensures
            *final(self) == old(self).window_rolled(now_us),
    {
        let run_out = if now_us >= self.window_start_us {
            now_us - self.window_start_us >= MICROS_PER_SECOND
        } else {
            false
        };
        if run_out {
            self.forwarded_in_window = 0;
            self.window_start_us = now_us;
        }
    }

    /// One tick of the producer at `now_us`: tries to read the region once,
    /// offers what it read to the channel, then checks the counting window.
    ///
    /// Neither the read nor the send waits: a held lock word and a full
    /// channel each end their step at once.
    pub fn tick(
        &mut self,
        region: &SharedFrameRegion<'_>,
        now_us: u64,
        channel: &Sender<Frame>,
    ) -> (outcome: TickOutcome)
        ensures
            outcome is Paced ==> !old(self).pacer.due_at(now_us),
            outcome is Dropped || outcome is Forwarded ==> old(self).pacer.due_at(now_us),
            *final(self) == old(self).after_tick(now_us, outcome),
    {
        let outcome = match region.try_read() {
            Some(frame) => self.offer(frame, now_us, channel),
            None => TickOutcome::Contended,
        };
        self.roll_window(now_us);
        outcome
    }
}

/// A frame that the channel did not take leaves no trace: the producer is as
/// it was, so a full channel delays neither the producer nor the frames that
/// come after.
pub proof fn lemma_dropped_frame_leaves_no_trace(
    producer: FrameProducer,
    now_us: u64,
    send: SendOutcome,
)
    requires
        !(send is Sent),
    ensures
        !(producer.verdict(now_us, send) is Forwarded),
        producer.after_outcome(now_us, producer.verdict(now_us, send)) == producer,
        producer.pacer.due_at(now_us) ==> producer.verdict(now_us, send) is Dropped,
{
}

/// Only a forwarded frame moves the pacing mark, and it moves it to the time
/// of the tick; the counting window never touches the mark.
pub proof fn lemma_tick_marks_only_forwards(
    producer: FrameProducer,
    now_us: u64,
    outcome: TickOutcome,
)
    ensures
        producer.after_tick(now_us, outcome).pacer == if outcome is Forwarded {
            producer.pacer.marked(now_us)
        } else {
            producer.pacer
        },
{
}

} // verus!
