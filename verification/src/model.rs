use vstd::prelude::*;

use crate::bit::Bit;
use crate::error::BitBufferError;

verus! {

// ---------------------------------------------------------------------------
// Position arithmetic
//
// A cursor's whole position is one bit offset; the byte it points into and
// the bit within that byte are its decomposition by 8.
// ---------------------------------------------------------------------------

/// The byte index addressed by an absolute bit position.
pub open spec fn byte_pos(bits: nat) -> nat {
    bits / 8
}

/// The position within the current byte (0 is the most significant bit).
pub open spec fn bit_pos(bits: nat) -> nat {
    bits % 8
}

/// Well-formedness of a cursor state: the byte offset never passes the end of
/// the data, and the data is short enough that every bit position the cursor
/// can reach fits in a `usize`.
pub open spec fn cursor_inv(data: Seq<u8>, bits: nat) -> bool {
    &&& byte_pos(bits) <= data.len()
    &&& 8 * data.len() + 7 <= usize::MAX
}

/// How many bytes are still readable: the total length minus the byte offset.
/// A partially consumed byte still counts as remaining until the byte offset
/// crosses it.
pub open spec fn remaining_bytes(data: Seq<u8>, bits: nat) -> nat
    recommends
        byte_pos(bits) <= data.len(),
{
    (data.len() - byte_pos(bits)) as nat
}

// ---------------------------------------------------------------------------
// Bit-level values
// ---------------------------------------------------------------------------

/// The bit of `byte` at position `p` from the most significant end.
pub open spec fn bit_value(byte: u8, p: nat) -> u8
    recommends
        p < 8,
{
    (byte >> ((7 - p) as u8)) & 1
}

/// A mask with the low `n` bits set.
pub open spec fn low_mask(n: nat) -> u8
    recommends
        n <= 8,
{
    ((1u16 << (n as u16)) - 1) as u8
}

/// A mask of width `n` covering the bit positions `[start, start + n)`,
/// counted from the most significant end.
pub open spec fn mask_value(start: nat, n: nat) -> u8
    recommends
        start + n <= 8,
{
    low_mask(n) << ((8 - start - n) as u8)
}

/// The unsigned value of the `n`-bit field of `byte` that starts at bit
/// position `p` from the most significant end. An empty field is 0.
pub open spec fn field_value(byte: u8, p: nat, n: nat) -> u8
    recommends
        p + n <= 8,
{
    (byte >> ((8 - p - n) as u8)) & low_mask(n)
}

/// The bit value 0 or 1 as a `Bit`.
pub open spec fn bit_from(v: u8) -> Bit
    recommends
        v == 0 || v == 1,
{
    if v == 1 {
        Bit::One
    } else {
        Bit::Zero
    }
}

// ---------------------------------------------------------------------------
// Error values
// ---------------------------------------------------------------------------

/// The error for a single-unit access at or beyond the end of the buffer.
pub open spec fn out_of_bounds(attempted: nat, size: nat) -> BitBufferError
    recommends
        attempted <= usize::MAX,
        size <= usize::MAX,
{
    BitBufferError::OutOfBounds {
        attempted_index: attempted as usize,
        buffer_size: size as usize,
    }
}

/// The error for a multi-unit access whose extent runs past the end.
pub open spec fn buffer_too_short(start: nat, num: nat, size: nat) -> BitBufferError
    recommends
        start <= usize::MAX,
        num <= usize::MAX,
        size <= usize::MAX,
{
    BitBufferError::BufferTooShort {
        start_pos: start as usize,
        num_bytes: num as usize,
        buffer_size: size as usize,
    }
}

// ---------------------------------------------------------------------------
// The decode kernel, as mathematics: what each stateless read returns,
// byte offset and bit offset given explicitly.
// ---------------------------------------------------------------------------

/// What reading the byte at index `o` returns.
pub open spec fn read_byte_at(data: Seq<u8>, o: nat) -> Result<u8, BitBufferError> {
    if o < data.len() {
        Ok(data[o as int])
    } else {
        Err(out_of_bounds(o, data.len()))
    }
}

/// What reading the single bit at byte `o`, bit `p` returns.
pub open spec fn read_bit_at(data: Seq<u8>, o: nat, p: nat) -> Result<u8, BitBufferError>
    recommends
        p < 8,
{
    if o < data.len() {
        Ok(bit_value(data[o as int], p))
    } else {
        Err(out_of_bounds(o, data.len()))
    }
}

/// What reading the `n`-bit field at byte `o`, starting bit `p` returns.
/// The field must lie within one byte: a span that would cross the byte
/// boundary is rejected, whatever the contents.
pub open spec fn read_bit_field_at(data: Seq<u8>, o: nat, p: nat, n: nat) -> Result<
    u8,
    BitBufferError,
>
    recommends
        p < 8 || p + n <= 8,
{
    if p + n > 8 {
        Err(out_of_bounds(n, (7 - p) as nat))
    } else if o >= data.len() {
        Err(out_of_bounds(o, data.len()))
    } else {
        Ok(field_value(data[o as int], p, n))
    }
}

/// What reading the `n` bytes starting at index `start` returns: exactly that
/// range on success, and `BufferTooShort` when the full extent does not fit,
/// with nothing read in that case.
pub open spec fn read_byte_range(data: Seq<u8>, start: nat, n: nat) -> Result<
    Seq<u8>,
    BitBufferError,
> {
    if start + n <= data.len() {
        Ok(data.subrange(start as int, (start + n) as int))
    } else {
        Err(buffer_too_short(start, n, data.len()))
    }
}

// ---------------------------------------------------------------------------
// The cursor, as mathematics: each operation maps the state (data, bits) to
// its result and the next bit position. The data itself never changes, and a
// failed operation leaves the position where it was; a multi-byte read that
// fails midway keeps the bytes already consumed (no rollback).
// ---------------------------------------------------------------------------

/// Outcome of consuming one bit.
pub open spec fn read_bit_model(data: Seq<u8>, bits: nat) -> (Result<Bit, BitBufferError>, nat) {
    match read_bit_at(data, byte_pos(bits), bit_pos(bits)) {
        Ok(v) => (Ok(bit_from(v)), bits + 1),
        Err(e) => (Err(e), bits),
    }
}

/// Outcome of consuming one bit as a boolean.
pub open spec fn read_bool_model(data: Seq<u8>, bits: nat) -> (Result<bool, BitBufferError>, nat) {
    match read_bit_model(data, bits) {
        (Ok(b), nb) => (Ok(b == Bit::One), nb),
        (Err(e), nb) => (Err(e), nb),
    }
}

/// Outcome of consuming an `n`-bit field from the current byte.
pub open spec fn read_bits_model(data: Seq<u8>, bits: nat, n: nat) -> (Result<
    u8,
    BitBufferError,
>, nat) {
    match read_bit_field_at(data, byte_pos(bits), bit_pos(bits), n) {
        Ok(v) => (Ok(v), bits + n),
        Err(e) => (Err(e), bits),
    }
}

/// Outcome of looking at the next byte without consuming it.
pub open spec fn peek_model(data: Seq<u8>, bits: nat) -> Result<u8, BitBufferError> {
    read_byte_at(data, byte_pos(bits))
}

/// Outcome of consuming the next byte. The byte at the current byte offset is
/// returned whole, whatever the bit position, and the position advances by a
/// full byte.
pub open spec fn read_u8_model(data: Seq<u8>, bits: nat) -> (Result<u8, BitBufferError>, nat) {
    match read_byte_at(data, byte_pos(bits)) {
        Ok(b) => (Ok(b), bits + 8),
        Err(e) => (Err(e), bits),
    }
}

/// Outcome of consuming two bytes assembled big-endian. If the second byte
/// read fails, the first stays consumed.
pub open spec fn read_u16_model(data: Seq<u8>, bits: nat) -> (Result<u16, BitBufferError>, nat) {
    let (r0, b0) = read_u8_model(data, bits);
    match r0 {
        Ok(x0) => {
            let (r1, b1) = read_u8_model(data, b0);
            match r1 {
                Ok(x1) => (Ok((x0 * 256 + x1) as u16), b1),
                Err(e) => (Err(e), b1),
            }
        },
        Err(e) => (Err(e), b0),
    }
}

/// Outcome of consuming three bytes assembled big-endian.
pub open spec fn read_u24_model(data: Seq<u8>, bits: nat) -> (Result<u32, BitBufferError>, nat) {
    let (r0, b0) = read_u16_model(data, bits);
    match r0 {
        Ok(x0) => {
            let (r1, b1) = read_u8_model(data, b0);
            match r1 {
                Ok(x1) => (Ok((x0 * 256 + x1) as u32), b1),
                Err(e) => (Err(e), b1),
            }
        },
        Err(e) => (Err(e), b0),
    }
}

/// Outcome of consuming four bytes assembled big-endian.
pub open spec fn read_u32_model(data: Seq<u8>, bits: nat) -> (Result<u32, BitBufferError>, nat) {
    let (r0, b0) = read_u24_model(data, bits);
    match r0 {
        Ok(x0) => {
            let (r1, b1) = read_u8_model(data, b0);
            match r1 {
                Ok(x1) => (Ok((x0 * 256 + x1) as u32), b1),
                Err(e) => (Err(e), b1),
            }
        },
        Err(e) => (Err(e), b0),
    }
}

/// Outcome of carving the next `n` bytes off the cursor, shared by the span
/// read and by sub-buffer creation: on success exactly those bytes, and the
/// position moves past them; on failure `BufferTooShort` and the position is
/// unchanged.
pub open spec fn take_bytes_model(data: Seq<u8>, bits: nat, n: nat) -> (Result<
    Seq<u8>,
    BitBufferError,
>, nat) {
    match read_byte_range(data, byte_pos(bits), n) {
        Ok(s) => (Ok(s), bits + 8 * n),
        Err(e) => (Err(e), bits),
    }
}

// ---------------------------------------------------------------------------
// Facts about the bit-level values, proved once for the executable code.
// ---------------------------------------------------------------------------

/// The value of the low-mask at each of its nine meaningful widths.
pub proof fn lemma_low_mask_literals()
    ensures
        low_mask(0) == 0u8,
        low_mask(1) == 0b1u8,
        low_mask(2) == 0b11u8,
        low_mask(3) == 0b111u8,
        low_mask(4) == 0b1111u8,
        low_mask(5) == 0b11111u8,
        low_mask(6) == 0b111111u8,
        low_mask(7) == 0b1111111u8,
        low_mask(8) == 0b11111111u8,
{
    assert(((1u16 << 0u16) - 1) as u8 == 0u8 && ((1u16 << 1u16) - 1) as u8 == 0b1u8 && ((1u16
        << 2u16) - 1) as u8 == 0b11u8 && ((1u16 << 3u16) - 1) as u8 == 0b111u8 && ((1u16 << 4u16)
        - 1) as u8 == 0b1111u8 && ((1u16 << 5u16) - 1) as u8 == 0b11111u8 && ((1u16 << 6u16)
        - 1) as u8 == 0b111111u8 && ((1u16 << 7u16) - 1) as u8 == 0b1111111u8 && ((1u16 << 8u16)
        - 1) as u8 == 0b11111111u8) by (bit_vector);
}

/// A single extracted bit is 0 or 1.
pub proof fn lemma_bit_value_le_one(byte: u8, p: nat)
    requires
        p < 8,
    ensures
        bit_value(byte, p) == 0 || bit_value(byte, p) == 1,
{
    let sh = (7 - p) as u8;
    assert((byte >> sh) & 1 == 0 || (byte >> sh) & 1 == 1) by (bit_vector);
}

/// Shifting zero gives zero.
pub proof fn lemma_shl_zero(sh: u8)
    ensures
        0u8 << sh == 0u8,
{
    assert(0u8 << sh == 0u8) by (bit_vector);
}

/// An empty bit field has value zero.
pub proof fn lemma_field_value_zero_width(byte: u8, p: nat)
    requires
        p <= 8,
    ensures
        field_value(byte, p, 0) == 0,
{
    lemma_low_mask_literals();
    let sh = (8 - p) as u8;
    assert((byte >> sh) & 0u8 == 0u8) by (bit_vector);
}

/// Shifting a value one byte left and or-ing the next byte in is the
/// big-endian assembly step `value * 256 + byte`.
pub proof fn lemma_shl8_or_u16(x: u16, y: u16)
    requires
        x < 256,
        y < 256,
    ensures
        (x << 8u16) | y == x * 256 + y,
{
    assert(x < 256 && y < 256 ==> ((x << 8u16) | y) == ((x * 256 + y) as u16)) by (bit_vector);
}

/// The same big-endian assembly step, one byte into a 32-bit accumulator.
pub proof fn lemma_shl8_or_u32(x: u32, y: u32)
    requires
        x < 0x1000000,
        y < 256,
    ensures
        (x << 8u32) | y == x * 256 + y,
{
    assert(x < 0x1000000 && y < 256 ==> ((x << 8u32) | y) == ((x * 256 + y) as u32)) by (
    bit_vector);
}

/// Masking the field in place and then aligning it right extracts the same
/// value as shifting first and masking with the low mask.
pub proof fn lemma_mask_then_shift(b: u8, m: u8, sh: u8)
    ensures
        (b & (m << sh)) >> sh == (b >> sh) & m,
{
    assert((b & (m << sh)) >> sh == (b >> sh) & m) by (bit_vector);
}

} // verus!
