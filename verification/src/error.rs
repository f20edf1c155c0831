use vstd::prelude::*;

verus! {

/// The two structural failure kinds shared by every fallible read.
///
/// `OutOfBounds` reports a single-unit access (one bit or one byte) that
/// addressed a position at or beyond the end of the buffer.
///
/// `BufferTooShort` reports a multi-unit access (a span of bytes or a
/// sub-buffer) whose start was valid but whose full extent would run past the
/// end of the buffer; such an access is rejected wholesale, never truncated.
#[derive(Debug, Clone, Copy, PartialEq, Eq, Structural)]
pub enum BitBufferError {
    OutOfBounds { attempted_index: usize, buffer_size: usize },
    BufferTooShort { start_pos: usize, num_bytes: usize, buffer_size: usize },
}

/// Shared result type used by every fallible operation of the crate.
pub type BitBufferResult<T> = Result<T, BitBufferError>;

} // verus!
