//! Reader side of the lock-word handshake over the shared frame region.

use std::sync::atomic::AtomicU32;
use std::sync::atomic::Ordering;
use vstd::prelude::*;
use crate::layout::Frame;
use crate::layout::FRAME_BYTES;
use crate::layout::LOCK_FREE;
use crate::layout::LOCK_HELD;

verus! {

/// The reader's view of one mapped region: the lock word at offset 0 and the
/// matrix payload behind it. The writer in the other process follows the same
/// protocol: it owns the payload only while the word is `LOCK_HELD`.
pub struct SharedFrameRegion<'a> {
    lock: &'a AtomicU32,
    payload: &'a [u8],
}

impl<'a> SharedFrameRegion<'a> {
    #[verifier::type_invariant]
    spec fn sized(&self) -> bool {
        self.payload@.len() == FRAME_BYTES
    }

    /// The payload bytes as they stand in the mapping.
    pub closed spec fn payload_view(&self) -> Seq<u8> {
        self.payload@
    }

    /// Binds the two parts of a mapping; refuses a payload of the wrong size.
    pub fn new(lock: &'a AtomicU32, payload: &'a [u8]) -> (region: Option<Self>)
        ensures
            region is Some <==> payload@.len() == FRAME_BYTES,
            region matches Some(r) ==> r.payload_view() == payload@,
    {
        if payload.len() == FRAME_BYTES {
            Some(SharedFrameRegion { lock, payload })
        } else {
            None
        }
    }

    /// What a read hands out once the compare-and-swap on the lock word has
    /// been made: a full copy of the payload when the word was taken, nothing
    /// when the writer holds it.
    pub fn copy_if_acquired(&self, acquired: bool) -> (frame: Option<Frame>)
        ensures
            frame is Some <==> acquired,
            frame matches Some(f) ==> f@ == self.payload_view(),
    {
        proof {
            use_type_invariant(self);
        }
        if acquired {
            Some(Frame::copy_of(self.payload))
        } else {
            None
        }
    }

    /// One non-blocking attempt to read the latest frame.
    ///
    /// Swaps the lock word from free to held; on success copies the payload
    /// and stores free again. When the word is not free the attempt ends at
    /// once, without retry. Whether the word is free is decided by the writer,
    /// so the contract states what holds of either outcome: the result is a
    /// whole copy of the payload or nothing.
    pub fn try_read(&self) -> (frame: Option<Frame>)
        ensures
            frame matches Some(f) ==> f@ == self.payload_view() && f@.len() == FRAME_BYTES,
    {
        proof {
            use_type_invariant(self);
        }
        let swapped = self.lock.compare_exchange(
            LOCK_FREE,
            LOCK_HELD,
            Ordering::Acquire,
            Ordering::Relaxed,
        );
        let frame = self.copy_if_acquired(swapped.is_ok());
        if frame.is_some() {
            self.lock.store(LOCK_FREE, Ordering::Release);
        }
        frame
    }
}

} // verus!
