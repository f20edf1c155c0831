use vstd::prelude::*;

use crate::bit::Bit;
use crate::error::BitBufferResult;
use crate::model::cursor_inv;
use crate::model::peek_model;
use crate::model::read_bit_model;
use crate::model::read_bits_model;
use crate::model::read_bool_model;
use crate::model::read_u16_model;
use crate::model::read_u24_model;
use crate::model::read_u32_model;
use crate::model::read_u8_model;
use crate::model::remaining_bytes;
use crate::model::take_bytes_model;
use crate::some_readable_buf::SomeReadableBuf;

verus! {

/// The one uniform read surface over every concrete cursor shape.
///
/// A cursor pairs an immutable byte sequence, `bytes()`, with a position in
/// bits from the start, `bits()`, that never decreases. Every read operation
/// is specified against the models of `crate::model`: on success it advances
/// the position by exactly the amount consumed, and on failure it leaves the
/// position unchanged — except the multi-byte reads, which keep the bytes
/// already consumed when a later byte read fails.
pub trait ReadableBuf {
    /// The bytes this cursor reads; fixed for the cursor's whole lifetime.
    spec fn bytes(&self) -> Seq<u8>;

    /// The cursor's position, in bits from the start of the data.
    spec fn bits(&self) -> nat;

    /// How many bytes are remaining in this buffer. A partially read byte
    /// counts as a whole remaining byte until the byte offset crosses it.
    fn bytes_remaining(&self) -> (r: usize)
        requires
            cursor_inv(self.bytes(), self.bits()),
        ensures
            r == remaining_bytes(self.bytes(), self.bits()),
    ;

    /// Consume the next bit.
    fn read_bit(&mut self) -> (r: BitBufferResult<Bit>)
        requires
            cursor_inv(old(self).bytes(), old(self).bits()),
        ensures
            final(self).bytes() == old(self).bytes(),
            cursor_inv(final(self).bytes(), final(self).bits()),
            r == read_bit_model(old(self).bytes(), old(self).bits()).0,
            final(self).bits() == read_bit_model(old(self).bytes(), old(self).bits()).1,
    ;

    /// Consume the next bit and return it as a bool.
    fn read_bit_as_bool(&mut self) -> (r: BitBufferResult<bool>)
        requires
            cursor_inv(old(self).bytes(), old(self).bits()),
        ensures
            final(self).bytes() == old(self).bytes(),
            cursor_inv(final(self).bytes(), final(self).bits()),
            r == read_bool_model(old(self).bytes(), old(self).bits()).0,
            final(self).bits() == read_bool_model(old(self).bytes(), old(self).bits()).1,
    {
        match self.read_bit() {
            Ok(b) => Ok(b.as_bool()),
            Err(e) => Err(e),
        }
    }

    /// Consume the next `num_bits` bits, which must lie within the current
    /// byte, and return them aligned to the low bits of the result.
    fn read_bits_as_u8(&mut self, num_bits: usize) -> (r: BitBufferResult<u8>)
        requires
            cursor_inv(old(self).bytes(), old(self).bits()),
        ensures
            final(self).bytes() == old(self).bytes(),
            cursor_inv(final(self).bytes(), final(self).bits()),
            r == read_bits_model(old(self).bytes(), old(self).bits(), num_bits as nat).0,
            final(self).bits() == read_bits_model(
                old(self).bytes(),
                old(self).bits(),
                num_bits as nat,
            ).1,
    ;

    /// Peek at the next byte without advancing the position.
    fn peek_u8(&self) -> (r: BitBufferResult<u8>)
        requires
            cursor_inv(self.bytes(), self.bits()),
        ensures
            r == peek_model(self.bytes(), self.bits()),
    ;

    /// Consume and return the next byte as a u8. The byte at the current
    /// byte offset is returned whole, whatever the bit position, and the
    /// position advances by a full byte.
    fn read_u8(&mut self) -> (r: BitBufferResult<u8>)
        requires
            cursor_inv(old(self).bytes(), old(self).bits()),
        ensures
            final(self).bytes() == old(self).bytes(),
            cursor_inv(final(self).bytes(), final(self).bits()),
            r == read_u8_model(old(self).bytes(), old(self).bits()).0,
            final(self).bits() == read_u8_model(old(self).bytes(), old(self).bits()).1,
    ;

    /// Consume and return the next 2 bytes as a u16, assembled big-endian.
    fn read_u16(&mut self) -> (r: BitBufferResult<u16>)
        requires
            cursor_inv(old(self).bytes(), old(self).bits()),
        ensures
            final(self).bytes() == old(self).bytes(),
            cursor_inv(final(self).bytes(), final(self).bits()),
            r == read_u16_model(old(self).bytes(), old(self).bits()).0,
            final(self).bits() == read_u16_model(old(self).bytes(), old(self).bits()).1,
    {
        let b0 = match self.read_u8() {
            Ok(b) => b,
            Err(e) => {
                return Err(e);
            },
        };
        let b1 = match self.read_u8() {
            Ok(b) => b,
            Err(e) => {
                return Err(e);
            },
        };
        let mut value: u16 = b0 as u16;
        value = (value << 8) | (b1 as u16);
        proof {
            crate::model::lemma_shl8_or_u16(b0 as u16, b1 as u16);
        }
        Ok(value)
    }

    /// Consume and return the next 3 bytes as a u32, assembled big-endian.
    fn read_u24(&mut self) -> (r: BitBufferResult<u32>)
        requires
            cursor_inv(old(self).bytes(), old(self).bits()),
        ensures
            final(self).bytes() == old(self).bytes(),
            cursor_inv(final(self).bytes(), final(self).bits()),
            r == read_u24_model(old(self).bytes(), old(self).bits()).0,
            final(self).bits() == read_u24_model(old(self).bytes(), old(self).bits()).1,
    {
        let hi = match self.read_u16() {
            Ok(v) => v,
            Err(e) => {
                return Err(e);
            },
        };
        let b2 = match self.read_u8() {
            Ok(b) => b,
            Err(e) => {
                return Err(e);
            },
        };
        let mut value: u32 = hi as u32;
        value = (value << 8) | (b2 as u32);
        proof {
            crate::model::lemma_shl8_or_u32(hi as u32, b2 as u32);
        }
        Ok(value)
    }

    /// Consume and return the next 4 bytes as a u32, assembled big-endian.
    fn read_u32(&mut self) -> (r: BitBufferResult<u32>)
        requires
            cursor_inv(old(self).bytes(), old(self).bits()),
        ensures
            final(self).bytes() == old(self).bytes(),
            cursor_inv(final(self).bytes(), final(self).bits()),
            r == read_u32_model(old(self).bytes(), old(self).bits()).0,
            final(self).bits() == read_u32_model(old(self).bytes(), old(self).bits()).1,
    {
        let hi = match self.read_u24() {
            Ok(v) => v,
            Err(e) => {
                return Err(e);
            },
        };
        let b3 = match self.read_u8() {
            Ok(b) => b,
            Err(e) => {
                return Err(e);
            },
        };
        let mut value: u32 = hi;
        value = (value << 8) | (b3 as u32);
        proof {
            crate::model::lemma_shl8_or_u32(hi, b3 as u32);
        }
        Ok(value)
    }

    /// Consume the next `num_bytes` bytes and borrow them as a slice:
    /// all-or-nothing, with `BufferTooShort` and an unchanged position when
    /// the full span does not fit.
    fn read_bytes(&mut self, num_bytes: usize) -> (r: BitBufferResult<&[u8]>)
        requires
            cursor_inv(old(self).bytes(), old(self).bits()),
        ensures
            final(self).bytes() == old(self).bytes(),
            cursor_inv(final(self).bytes(), final(self).bits()),
            final(self).bits() == take_bytes_model(
                old(self).bytes(),
                old(self).bits(),
                num_bytes as nat,
            ).1,
            match r {
                Ok(s) => take_bytes_model(old(self).bytes(), old(self).bits(), num_bytes as nat).0
                    == Ok::<Seq<u8>, crate::error::BitBufferError>(s@),
                Err(e) => take_bytes_model(old(self).bytes(), old(self).bits(), num_bytes as nat).0
                    == Err::<Seq<u8>, crate::error::BitBufferError>(e),
            },
    ;

    /// Create a 'sub buffer' scoped to the next `length` bytes of this
    /// buffer, zero-copy, with its own position starting at 0. Carving the
    /// sub-buffer advances this buffer's position past those bytes, so
    /// sequential field decoding can continue behind it.
    fn sub_buffer(&mut self, length: usize) -> (r: BitBufferResult<SomeReadableBuf<'_>>)
        requires
            cursor_inv(old(self).bytes(), old(self).bits()),
        ensures
            final(self).bytes() == old(self).bytes(),
            cursor_inv(final(self).bytes(), final(self).bits()),
            final(self).bits() == take_bytes_model(
                old(self).bytes(),
                old(self).bits(),
                length as nat,
            ).1,
            match r {
                Ok(sub) => take_bytes_model(old(self).bytes(), old(self).bits(), length as nat).0
                    == Ok::<Seq<u8>, crate::error::BitBufferError>(sub.spec_bytes())
                    && sub.spec_bits() == 0 && cursor_inv(sub.spec_bytes(), sub.spec_bits()),
                Err(e) => take_bytes_model(old(self).bytes(), old(self).bits(), length as nat).0
                    == Err::<Seq<u8>, crate::error::BitBufferError>(e),
            },
    ;
}

} // verus!
