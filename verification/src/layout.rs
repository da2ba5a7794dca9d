//! Byte layout of the shared frame region and the `Frame` snapshot type.

use vstd::prelude::*;

verus! {

/// Rows of the display matrix.
pub const MATRIX_ROWS: usize = 64;

/// Columns of the display matrix.
pub const MATRIX_COLS: usize = 32;

/// Bytes per matrix cell.
pub const CHANNEL_DEPTH: usize = 4;

/// Size of the lock word at the start of the region.
pub const LOCK_BYTES: usize = 4;

/// Size of the matrix payload, which is also the size of every frame.
pub const FRAME_BYTES: usize = 8192;

/// Offset of the first payload byte inside the region.
pub const PAYLOAD_OFFSET: usize = 4;

/// Size of the whole shared region: lock word followed by the payload.
pub const REGION_BYTES: usize = 8196;

/// Value of the lock word while nobody owns the payload.
pub const LOCK_FREE: u32 = 0;

/// Value of the lock word while one side owns the payload.
pub const LOCK_HELD: u32 = 1;

/// The derived sizes agree with the matrix dimensions: the payload is
/// rows x cols x depth bytes in row-major order and follows the lock word.
pub proof fn lemma_layout_consistent()
    ensures
        FRAME_BYTES == MATRIX_ROWS * MATRIX_COLS * CHANNEL_DEPTH,
        PAYLOAD_OFFSET == LOCK_BYTES,
        REGION_BYTES == LOCK_BYTES + FRAME_BYTES,
{
}

/// Offset inside the region of the cell byte at (`row`, `col`, `channel`).
pub open spec fn cell_offset(row: int, col: int, channel: int) -> int {
    PAYLOAD_OFFSET + (row * MATRIX_COLS + col) * CHANNEL_DEPTH + channel
}

/// Offset inside the region of one cell byte, row-major after the lock word.
pub fn region_offset(row: usize, col: usize, channel: usize) -> (offset: usize)
    requires
        row < MATRIX_ROWS,
        col < MATRIX_COLS,
        channel < CHANNEL_DEPTH,
    ensures
        offset == cell_offset(row as int, col as int, channel as int),
        PAYLOAD_OFFSET <= offset < REGION_BYTES,
{
    PAYLOAD_OFFSET + (row * MATRIX_COLS + col) * CHANNEL_DEPTH + channel
}

/// A point-in-time copy of the matrix payload: exactly `FRAME_BYTES` bytes.
#[derive(Debug)]
pub struct Frame {
    bytes: Vec<u8>,
}

impl View for Frame {
    type V = Seq<u8>;

    closed spec fn view(&self) -> Seq<u8> {
        self.bytes@
    }
}

impl Frame {
    #[verifier::type_invariant]
    spec fn sized(&self) -> bool {
        self.bytes@.len() == FRAME_BYTES
    }

    /// Takes ownership of `bytes` as a frame when it has the frame size.
    pub fn from_bytes(bytes: Vec<u8>) -> (frame: Option<Frame>)
        ensures
            frame is Some <==> bytes@.len() == FRAME_BYTES,
            frame matches Some(f) ==> f@ == bytes@,
    {
        if bytes.len() == FRAME_BYTES {
            Some(Frame { bytes })
        } else {
            None
        }
    }

    /// Copies a whole payload into a new frame.
    pub fn copy_of(payload: &[u8]) -> (frame: Frame)
        requires
            payload@.len() == FRAME_BYTES,
        ensures
            frame@ == payload@,
    {
        let mut bytes: Vec<u8> = Vec::with_capacity(FRAME_BYTES);
        let mut i: usize = 0;
        while i < FRAME_BYTES
            invariant
                i <= FRAME_BYTES,
                payload@.len() == FRAME_BYTES,
                bytes@ == payload@.subrange(0, i as int),
            decreases FRAME_BYTES - i,
        {
            bytes.push(payload[i]);
            i += 1;
        }
        assert(bytes@ == payload@);
        Frame { bytes }
    }

    /// Number of bytes in the frame, always `FRAME_BYTES`.
    pub fn len(&self) -> (n: usize)
        ensures
            n == FRAME_BYTES,
            self@.len() == FRAME_BYTES,
    {
        proof {
            use_type_invariant(self);
        }
        self.bytes.len()
    }

    /// The frame's bytes.
    pub fn as_slice(&self) -> (bytes: &[u8])
        ensures
            bytes@ == self@,
            bytes@.len() == FRAME_BYTES,
    {
        proof {
            use_type_invariant(self);
        }
        self.bytes.as_slice()
    }

    /// Gives the frame's bytes away, as the body of a binary message.
    pub fn into_bytes(self) -> (bytes: Vec<u8>)
        ensures
            bytes@ == self@,
            bytes@.len() == FRAME_BYTES,
    {
        proof {
            use_type_invariant(&self);
        }
        self.bytes
    }
}

} // verus!
