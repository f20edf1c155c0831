use vstd::prelude::*;

use crate::bit::Bit;
use crate::byte_buffer_slice::ByteBufferSlice;
use crate::error::BitBufferError;
use crate::error::BitBufferResult;
use crate::model::bit_pos;
use crate::model::byte_pos;
use crate::model::cursor_inv;
use crate::model::lemma_bit_value_le_one;
use crate::readable_buf::ReadableBuf;
use crate::some_readable_buf::SomeReadableBuf;

verus! {

/// A cursor that owns its byte storage. The whole position is one bit
/// offset; the byte it points into and the bit within that byte are its
/// decomposition by 8.
#[derive(Clone)]
pub struct ByteBuffer {
    inner: Vec<u8>,
    bit_offset: usize,
}

impl ByteBuffer {
    /// The bytes this cursor reads.
    pub closed spec fn spec_bytes(&self) -> Seq<u8> {
        self.inner@
    }

    /// The cursor's position, in bits from the start of the data.
    pub closed spec fn spec_bits(&self) -> nat {
        self.bit_offset as nat
    }

    /// Begin a parse session over `inner`, positioned at its first bit.
    /// The data must be short enough that every bit position fits in a
    /// `usize`.
    pub fn new(inner: Vec<u8>) -> (r: ByteBuffer)
        requires
            8 * inner@.len() + 7 <= usize::MAX,
        ensures
            r.bytes() == inner@,
            r.bits() == 0,
            cursor_inv(r.bytes(), r.bits()),
    {
        ByteBuffer { inner, bit_offset: 0 }
    }

    /// Return the current byte offset into the buffer
    fn byte_offset(&self) -> (r: usize)
        ensures
            r == byte_pos(self.bits()),
    {
        self.bit_offset / 8
    }

    /// Return the current bit position within the current byte
    fn bit_position(&self) -> (r: usize)
        ensures
            r == bit_pos(self.bits()),
    {
        self.bit_offset % 8
    }

    /// Move the current position forward by `num_bits` bits
    fn advance_bits(&mut self, num_bits: usize)
        requires
            old(self).bits() + num_bits <= usize::MAX,
        ensures
            final(self).bytes() == old(self).bytes(),
            final(self).bits() == old(self).bits() + num_bits,
    {
        self.bit_offset += num_bits;
    }

    /// Move the current position forward by `num_bytes` bytes
    fn advance_bytes(&mut self, num_bytes: usize)
        requires
            old(self).bits() + 8 * num_bytes <= usize::MAX,
        ensures
            final(self).bytes() == old(self).bytes(),
            final(self).bits() == old(self).bits() + 8 * num_bytes,
    {
        self.bit_offset += num_bytes * 8;
    }
}

impl ReadableBuf for ByteBuffer {
    open spec fn bytes(&self) -> Seq<u8> {
        self.spec_bytes()
    }

    open spec fn bits(&self) -> nat {
        self.spec_bits()
    }

    fn bytes_remaining(&self) -> (r: usize) {
        self.inner.len() - self.byte_offset()
    }

    fn read_bit(&mut self) -> (r: BitBufferResult<Bit>) {
        let o = self.byte_offset();
        let p = self.bit_position();
        match crate::helpers::read_bit_as(self.inner.as_slice(), o, p) {
            Ok(v) => {
                proof {
                    lemma_bit_value_le_one(self.inner@[o as int], p as nat);
                }
                let b = Bit::from_u8(v);
                self.advance_bits(1);
                Ok(b)
            },
            Err(e) => Err(e),
        }
    }

    fn read_bits_as_u8(&mut self, num_bits: usize) -> (r: BitBufferResult<u8>) {
        let o = self.byte_offset();
        let p = self.bit_position();
        match crate::helpers::read_bits_as(self.inner.as_slice(), o, p, num_bits) {
            Ok(v) => {
                self.advance_bits(num_bits);
                Ok(v)
            },
            Err(e) => Err(e),
        }
    }

    fn peek_u8(&self) -> (r: BitBufferResult<u8>) {
        crate::helpers::read_byte(self.inner.as_slice(), self.byte_offset())
    }

    fn read_u8(&mut self) -> (r: BitBufferResult<u8>) {
        let o = self.byte_offset();
        match crate::helpers::read_byte(self.inner.as_slice(), o) {
            Ok(b) => {
                self.advance_bytes(1);
                Ok(b)
            },
            Err(e) => Err(e),
        }
    }

    fn read_bytes(&mut self, num_bytes: usize) -> (r: BitBufferResult<&[u8]>) {
        let o = self.byte_offset();
        if o <= self.inner.len() && num_bytes <= self.inner.len() - o {
            self.advance_bytes(num_bytes);
            Ok(vstd::slice::slice_subrange(self.inner.as_slice(), o, o + num_bytes))
        } else {
            Err(
                BitBufferError::BufferTooShort {
                    start_pos: o,
                    num_bytes,
                    buffer_size: self.inner.len(),
                },
            )
        }
    }

    fn sub_buffer(&mut self, length: usize) -> (r: BitBufferResult<SomeReadableBuf<'_>>) {
        let o = self.byte_offset();
        if o <= self.inner.len() && length <= self.inner.len() - o {
            self.advance_bytes(length);
            let slice = vstd::slice::slice_subrange(self.inner.as_slice(), o, o + length);
            Ok(SomeReadableBuf::ByteBufferSlice(ByteBufferSlice { buf: slice, bit_offset: 0 }))
        } else {
            Err(
                BitBufferError::BufferTooShort {
                    start_pos: o,
                    num_bytes: length,
                    buffer_size: self.inner.len(),
                },
            )
        }
    }
}

} // verus!
