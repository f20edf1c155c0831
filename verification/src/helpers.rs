use vstd::prelude::*;

use crate::error::BitBufferError;
use crate::error::BitBufferResult;
use crate::model::bit_value;
use crate::model::field_value;
use crate::model::lemma_bit_value_le_one;
use crate::model::lemma_field_value_zero_width;
use crate::model::lemma_low_mask_literals;
use crate::model::lemma_mask_then_shift;
use crate::model::lemma_shl_zero;
use crate::model::low_mask;
use crate::model::mask_value;
use crate::model::read_bit_at;
use crate::model::read_bit_field_at;
use crate::model::read_byte_at;
use crate::model::read_byte_range;

verus! {

/// Retrieve the bit at position `bit_offset` of the byte at `byte_offset`
/// in `buf`: `OutOfBounds` when the byte index is at or past the end, and the
/// bit's value, 0 or 1, otherwise. `bit_offset` is a position within a byte:
/// whenever the byte index is in bounds it must be at most 7.
pub fn read_bit_as(buf: &[u8], byte_offset: usize, bit_offset: usize) -> (r: BitBufferResult<u8>)
    requires
        bit_offset < 8 || byte_offset >= buf@.len(),
    ensures
        r == read_bit_at(buf@, byte_offset as nat, bit_offset as nat),
{
    if byte_offset < buf.len() {
        let byte = buf[byte_offset];
        // Shift right until the bit pointed to by bit_offset is the LSB
        let shift_amount: u8 = 7 - (bit_offset as u8);
        let v = (byte >> shift_amount) & 0x1;
        proof {
            assert(v == bit_value(buf@[byte_offset as int], bit_offset as nat));
        }
        Ok(v)
    } else {
        Err(BitBufferError::OutOfBounds { attempted_index: byte_offset, buffer_size: buf.len() })
    }
}

/// The mask of width `num_bits` covering the bit positions
/// `[start_position, start_position + num_bits)` of a byte, counted from the
/// most significant end; `None` when that range does not fit in one byte.
pub fn get_u8_mask(start_position: usize, num_bits: usize) -> (r: Option<u8>)
    ensures
        start_position + num_bits <= 8 ==> r == Some(
            mask_value(start_position as nat, num_bits as nat),
        ),
        start_position + num_bits > 8 ==> r is None,
{
    if start_position > 8 || num_bits > 8 - start_position {
        return None;
    }
    proof {
        lemma_low_mask_literals();
    }
    let mut mask: u8 = match num_bits {
        0 => {
            proof {
                lemma_shl_zero(((8 - start_position) as nat) as u8);
            }
            return Some(0u8);
        },
        1 => 0b1,
        2 => 0b11,
        3 => 0b111,
        4 => 0b1111,
        5 => 0b11111,
        6 => 0b111111,
        7 => 0b1111111,
        8 => 0b11111111,
        _ => {
            return None;
        },
    };

    let shift: usize = 8 - start_position - num_bits;
    mask <<= shift;
    Some(mask)
}

/// Retrieve the `num_bits`-bit field that starts at `bit_offset` of the byte
/// at `byte_offset`, aligned to the low bits of the result. The field must
/// lie within that one byte: a span that would cross the byte boundary fails,
/// whatever the buffer holds. Reading zero bits yields 0.
///
/// `bit_offset` is a position within a byte, so it is at most 7 — except in
/// the one degenerate shape the bounds rule still admits, a zero-width read
/// at position 8; anything further is ruled out up front.
pub fn read_bits_as(
    buf: &[u8],
    byte_offset: usize,
    bit_offset: usize,
    num_bits: usize,
) -> (r: BitBufferResult<u8>)
    requires
        bit_offset <= 7 || bit_offset + num_bits <= 8,
    ensures
        r == read_bit_field_at(buf@, byte_offset as nat, bit_offset as nat, num_bits as nat),
{
    if bit_offset <= 7 && num_bits > 8 - bit_offset {
        return Err(
            BitBufferError::OutOfBounds {
                attempted_index: num_bits,
                buffer_size: 7 - bit_offset,
            },
        );
    }
    let mask = match get_u8_mask(bit_offset, num_bits) {
        Some(m) => m,
        None => {
            return Err(
                BitBufferError::OutOfBounds {
                    attempted_index: num_bits,
                    buffer_size: 7 - bit_offset,
                },
            );
        },
    };
    if byte_offset >= buf.len() {
        return Err(
            BitBufferError::OutOfBounds { attempted_index: byte_offset, buffer_size: buf.len() },
        );
    }
    let byte = buf[byte_offset];
    if num_bits == 0 {
        proof {
            lemma_field_value_zero_width(byte, bit_offset as nat);
        }
        return Ok(0u8);
    }
    let mut result = byte & mask;

    // Now shift the result back so the masked values are all the way to the right
    let shift: usize = 8 - num_bits - bit_offset;
    result >>= shift;

    proof {
        lemma_mask_then_shift(byte, low_mask(num_bits as nat), shift as u8);
        assert(result == field_value(byte, bit_offset as nat, num_bits as nat));
    }
    Ok(result)
}

/// Retrieve the byte at `byte_offset` of `buf`, or `OutOfBounds` when that
/// index is at or past the end.
pub fn read_byte(buf: &[u8], byte_offset: usize) -> (r: BitBufferResult<u8>)
    ensures
        r == read_byte_at(buf@, byte_offset as nat),
{
    if byte_offset < buf.len() {
        Ok(buf[byte_offset])
    } else {
        Err(BitBufferError::OutOfBounds { attempted_index: byte_offset, buffer_size: buf.len() })
    }
}

/// Borrow the `num_bytes` bytes of `source` that start at `start_pos`:
/// exactly that range when it lies within the buffer, and `BufferTooShort`
/// when the full extent would run past the end, in which case nothing is
/// read.
pub fn read_bytes<'a>(source: &'a [u8], start_pos: usize, num_bytes: usize) -> (r: BitBufferResult<
    &'a [u8],
>)
    requires
        start_pos + num_bytes <= usize::MAX,
    ensures
        match r {
            Ok(s) => read_byte_range(source@, start_pos as nat, num_bytes as nat) == Ok::<
                Seq<u8>,
                BitBufferError,
            >(s@),
            Err(e) => read_byte_range(source@, start_pos as nat, num_bytes as nat) == Err::<
                Seq<u8>,
                BitBufferError,
            >(e),
        },
{
    if start_pos <= source.len() && num_bytes <= source.len() - start_pos {
        Ok(vstd::slice::slice_subrange(source, start_pos, start_pos + num_bytes))
    } else {
        Err(
            BitBufferError::BufferTooShort {
                start_pos,
                num_bytes,
                buffer_size: source.len(),
            },
        )
    }
}

} // verus!
