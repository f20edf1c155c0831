use vstd::prelude::*;

use crate::bit::Bit;
use crate::byte_buffer::ByteBuffer;
use crate::byte_buffer_slice::ByteBufferSlice;
use crate::error::BitBufferResult;
use crate::readable_buf::ReadableBuf;

verus! {

/// The closed set of concrete cursor shapes, behind one tag. Methods like
/// `sub_buffer` hand back a `ReadableBuf` without dynamic dispatch (which
/// would need a heap allocation on a hot recursive path): they return an
/// instance of this enum, and the enum's own `ReadableBuf` impl dispatches
/// to whichever shape it holds, so callers treat any variant identically.
pub enum SomeReadableBuf<'a> {
    ByteBuffer(ByteBuffer),
    ByteBufferSlice(ByteBufferSlice<'a>),
}

impl SomeReadableBuf<'_> {
    /// The bytes this cursor reads, whichever shape it holds.
    pub open spec fn spec_bytes(&self) -> Seq<u8> {
        match self {
            SomeReadableBuf::ByteBuffer(b) => b.spec_bytes(),
            SomeReadableBuf::ByteBufferSlice(b) => b.spec_bytes(),
        }
    }

    /// The cursor's position, in bits, whichever shape it holds.
    pub open spec fn spec_bits(&self) -> nat {
        match self {
            SomeReadableBuf::ByteBuffer(b) => b.spec_bits(),
            SomeReadableBuf::ByteBufferSlice(b) => b.spec_bits(),
        }
    }
}

impl ReadableBuf for SomeReadableBuf<'_> {
    open spec fn bytes(&self) -> Seq<u8> {
        self.spec_bytes()
    }

    open spec fn bits(&self) -> nat {
        self.spec_bits()
    }

    fn bytes_remaining(&self) -> (r: usize) {
        match self {
            SomeReadableBuf::ByteBuffer(b) => b.bytes_remaining(),
            SomeReadableBuf::ByteBufferSlice(b) => b.bytes_remaining(),
        }
    }

    fn read_bit(&mut self) -> (r: BitBufferResult<Bit>) {
        match self {
            SomeReadableBuf::ByteBuffer(b) => b.read_bit(),
            SomeReadableBuf::ByteBufferSlice(b) => b.read_bit(),
        }
    }

    fn read_bits_as_u8(&mut self, num_bits: usize) -> (r: BitBufferResult<u8>) {
        match self {
            SomeReadableBuf::ByteBuffer(b) => b.read_bits_as_u8(num_bits),
            SomeReadableBuf::ByteBufferSlice(b) => b.read_bits_as_u8(num_bits),
        }
    }

    fn peek_u8(&self) -> (r: BitBufferResult<u8>) {
        match self {
            SomeReadableBuf::ByteBuffer(b) => b.peek_u8(),
            SomeReadableBuf::ByteBufferSlice(b) => b.peek_u8(),
        }
    }

    fn read_u8(&mut self) -> (r: BitBufferResult<u8>) {
        match self {
            SomeReadableBuf::ByteBuffer(b) => b.read_u8(),
            SomeReadableBuf::ByteBufferSlice(b) => b.read_u8(),
        }
    }

    fn read_bytes(&mut self, num_bytes: usize) -> (r: BitBufferResult<&[u8]>) {
        match self {
            SomeReadableBuf::ByteBuffer(b) => b.read_bytes(num_bytes),
            SomeReadableBuf::ByteBufferSlice(b) => b.read_bytes(num_bytes),
        }
    }

    fn sub_buffer(&mut self, length: usize) -> (r: BitBufferResult<SomeReadableBuf<'_>>) {
        match self {
            SomeReadableBuf::ByteBuffer(b) => b.sub_buffer(length),
            SomeReadableBuf::ByteBufferSlice(b) => b.sub_buffer(length),
        }
    }
}

} // verus!
