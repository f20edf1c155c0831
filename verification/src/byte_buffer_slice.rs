use vstd::prelude::*;

use crate::bit::Bit;
use crate::error::BitBufferError;
use crate::error::BitBufferResult;
use crate::model::bit_pos;
use crate::model::byte_pos;
use crate::model::cursor_inv;
use crate::model::lemma_bit_value_le_one;
use crate::readable_buf::ReadableBuf;
use crate::some_readable_buf::SomeReadableBuf;

verus! {

/// A cursor over a borrowed slice of bytes: the shape every sub-region
/// takes. It borrows its parent's storage zero-copy, so it must not outlive
/// the parent, and its own position starts at 0 and advances independently
/// of the parent's.
pub struct ByteBufferSlice<'a> {
    pub buf: &'a [u8],
    pub bit_offset: usize,
}

impl ByteBufferSlice<'_> {
    /// The bytes this cursor reads.
    pub open spec fn spec_bytes(&self) -> Seq<u8> {
        self.buf@
    }

    /// The cursor's position, in bits from the start of the data.
    pub open spec fn spec_bits(&self) -> nat {
        self.bit_offset as nat
    }

    /// Begin a parse session over the `length` bytes of `slice` that start
    /// at `start_pos`. The carved range must lie within `slice`, and must be
    /// short enough that every bit position fits in a `usize`.
    pub fn from_slice(slice: &[u8], start_pos: usize, length: usize) -> (r: ByteBufferSlice<'_>)
        requires
            start_pos + length <= slice@.len(),
            8 * length + 7 <= usize::MAX,
        ensures
            r.bytes() == slice@.subrange(start_pos as int, start_pos + length),
            r.bits() == 0,
            cursor_inv(r.bytes(), r.bits()),
    {
        proof {
            vstd::slice::axiom_spec_len(slice);
        }
        ByteBufferSlice {
            buf: vstd::slice::slice_subrange(slice, start_pos, start_pos + length),
            bit_offset: 0,
        }
    }

    /// Return the current byte offset into the buffer
    fn byte_offset(&self) -> (r: usize)
        ensures
            r == byte_pos(self.bits()),
    {
        self.bit_offset / 8
    }

    /// Return the current bit position within the current byte
    fn bit_position(&self) -> (r: usize)
        ensures
            r == bit_pos(self.bits()),
    {
        self.bit_offset % 8
    }

    /// Move the current position forward by `num_bits` bits
    fn advance_bits(&mut self, num_bits: usize)
        requires
            old(self).bits() + num_bits <= usize::MAX,
        ensures
            final(self).bytes() == old(self).bytes(),
            final(self).bits() == old(self).bits() + num_bits,
    {
        self.bit_offset += num_bits;
    }

    /// Move the current position forward by `num_bytes` bytes
    fn advance_bytes(&mut self, num_bytes: usize)
        requires
            old(self).bits() + 8 * num_bytes <= usize::MAX,
        ensures
            final(self).bytes() == old(self).bytes(),
            final(self).bits() == old(self).bits() + 8 * num_bytes,
    {
        self.bit_offset += num_bytes * 8;
    }
}

impl ReadableBuf for ByteBufferSlice<'_> {
    open spec fn bytes(&self) -> Seq<u8> {
        self.spec_bytes()
    }

    open spec fn bits(&self) -> nat {
        self.spec_bits()
    }

    fn bytes_remaining(&self) -> (r: usize) {
        self.buf.len() - self.byte_offset()
    }

    fn read_bit(&mut self) -> (r: BitBufferResult<Bit>) {
        let o = self.byte_offset();
        let p = self.bit_position();
        match crate::helpers::read_bit_as(self.buf, o, p) {
            Ok(v) => {
                proof {
                    lemma_bit_value_le_one(self.buf@[o as int], p as nat);
                }
                let b = Bit::from_u8(v);
                self.advance_bits(1);
                Ok(b)
            },
            Err(e) => Err(e),
        }
    }

    fn read_bits_as_u8(&mut self, num_bits: usize) -> (r: BitBufferResult<u8>) {
        let o = self.byte_offset();
        let p = self.bit_position();
        match crate::helpers::read_bits_as(self.buf, o, p, num_bits) {
            Ok(v) => {
                self.advance_bits(num_bits);
                Ok(v)
            },
            Err(e) => Err(e),
        }
    }

    fn peek_u8(&self) -> (r: BitBufferResult<u8>) {
        crate::helpers::read_byte(self.buf, self.byte_offset())
    }

    fn read_u8(&mut self) -> (r: BitBufferResult<u8>) {
        let o = self.byte_offset();
        match crate::helpers::read_byte(self.buf, o) {
            Ok(b) => {
                self.advance_bytes(1);
                Ok(b)
            },
            Err(e) => Err(e),
        }
    }

    fn read_bytes(&mut self, num_bytes: usize) -> (r: BitBufferResult<&[u8]>) {
        let o = self.byte_offset();
        if o <= self.buf.len() && num_bytes <= self.buf.len() - o {
            self.advance_bytes(num_bytes);
            Ok(vstd::slice::slice_subrange(self.buf, o, o + num_bytes))
        } else {
            Err(
                BitBufferError::BufferTooShort {
                    start_pos: o,
                    num_bytes,
                    buffer_size: self.buf.len(),
                },
            )
        }
    }

    fn sub_buffer(&mut self, length: usize) -> (r: BitBufferResult<SomeReadableBuf<'_>>) {
        let o = self.byte_offset();
        if o <= self.buf.len() && length <= self.buf.len() - o {
            self.advance_bytes(length);
            let slice = vstd::slice::slice_subrange(self.buf, o, o + length);
            Ok(SomeReadableBuf::ByteBufferSlice(ByteBufferSlice { buf: slice, bit_offset: 0 }))
        } else {
            Err(
                BitBufferError::BufferTooShort {
                    start_pos: o,
                    num_bytes: length,
                    buffer_size: self.buf.len(),
                },
            )
        }
    }
}

} // verus!
