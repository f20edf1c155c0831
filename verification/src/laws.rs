use vstd::prelude::*;

use crate::bit::Bit;
use crate::error::BitBufferError;
use crate::model::bit_pos;
use crate::model::buffer_too_short;
use crate::model::byte_pos;
use crate::model::cursor_inv;
use crate::model::out_of_bounds;
use crate::model::peek_model;
use crate::model::read_bit_model;
use crate::model::read_bits_model;
use crate::model::read_u16_model;
use crate::model::read_u24_model;
use crate::model::read_u32_model;
use crate::model::read_u8_model;
use crate::model::remaining_bytes;
use crate::model::take_bytes_model;

verus! {

/// Law: a single-unit read — one bit or one byte — addressed at or past the
/// end of the buffer fails with `OutOfBounds` and leaves the position
/// unchanged, whatever the buffer holds.
pub proof fn lemma_single_unit_read_out_of_bounds(data: Seq<u8>, bits: nat)
    requires
        byte_pos(bits) >= data.len(),
    ensures
        read_bit_model(data, bits) == (
            Err::<Bit, BitBufferError>(out_of_bounds(byte_pos(bits), data.len())),
            bits,
        ),
        read_u8_model(data, bits) == (
            Err::<u8, BitBufferError>(out_of_bounds(byte_pos(bits), data.len())),
            bits,
        ),
        peek_model(data, bits) == Err::<u8, BitBufferError>(
            out_of_bounds(byte_pos(bits), data.len()),
        ),
{
}

/// Law: a multi-unit read of `n` bytes from the current byte offset — a byte
/// span or a sub-buffer — succeeds exactly when the whole span lies within
/// the buffer, and then yields exactly those bytes; otherwise it fails with
/// `BufferTooShort`, all or nothing, never truncated, with the position
/// unchanged.
pub proof fn lemma_range_read_all_or_nothing(data: Seq<u8>, bits: nat, n: nat)
    ensures
        byte_pos(bits) + n <= data.len() ==> take_bytes_model(data, bits, n) == (
            Ok::<Seq<u8>, BitBufferError>(
                data.subrange(byte_pos(bits) as int, (byte_pos(bits) + n) as int),
            ),
            bits + 8 * n,
        ),
        byte_pos(bits) + n > data.len() ==> take_bytes_model(data, bits, n) == (
            Err::<Seq<u8>, BitBufferError>(buffer_too_short(byte_pos(bits), n, data.len())),
            bits,
        ),
{
}

/// Law: a sub-byte field read fails whenever the requested bits do not lie
/// within the current byte — that is, whenever `bit_offset + num_bits > 8` —
/// regardless of the buffer's contents, and the position stays unchanged.
pub proof fn lemma_bit_span_must_fit_current_byte(data: Seq<u8>, bits: nat, n: nat)
    requires
        bit_pos(bits) + n > 8,
    ensures
        read_bits_model(data, bits, n).0 is Err,
        read_bits_model(data, bits, n).1 == bits,
{
}

/// Law: after consuming exactly `k` bytes' worth of bits from an `n`-byte
/// buffer, `bytes_remaining` reports `n - k`.
pub proof fn lemma_bytes_remaining_after_k_bytes(data: Seq<u8>, k: nat)
    requires
        k <= data.len(),
    ensures
        remaining_bytes(data, (8 * k) as nat) == data.len() - k,
{
}

/// Law: the sub-region carved by `sub_buffer` starts in exactly the state of
/// a fresh top-level cursor over the carved bytes — the same byte sequence,
/// well-formed, at position 0. Every read operation's outcome is a function
/// of that state alone, so the sub-region behaves exactly as a top-level
/// cursor over those bytes would.
pub proof fn lemma_sub_region_is_fresh_cursor(data: Seq<u8>, bits: nat, length: nat)
    requires
        cursor_inv(data, bits),
        byte_pos(bits) + length <= data.len(),
    ensures
        take_bytes_model(data, bits, length).0 == Ok::<Seq<u8>, BitBufferError>(
            data.subrange(byte_pos(bits) as int, (byte_pos(bits) + length) as int),
        ),
        cursor_inv(data.subrange(byte_pos(bits) as int, (byte_pos(bits) + length) as int), 0),
{
}

/// Law: carving `k` bytes from a sub-region yields the same bytes as carving
/// them directly from the parent at the corresponding offset, so
/// sub-buffering nests to any depth without changing what is read.
pub proof fn lemma_nested_sub_buffer(data: Seq<u8>, bits: nat, length: nat, k: nat)
    requires
        cursor_inv(data, bits),
        byte_pos(bits) + length <= data.len(),
        k <= length,
    ensures
        ({
            let sub = data.subrange(byte_pos(bits) as int, (byte_pos(bits) + length) as int);
            take_bytes_model(sub, 0, k).0 == take_bytes_model(data, bits, k).0
        }),
{
    let o = byte_pos(bits) as int;
    let sub = data.subrange(o, o + length);
    assert(sub.subrange(0, k as int) =~= data.subrange(o, o + k));
}

/// Law: on a buffer with at least two bytes left at the current byte offset,
/// `read_u16` returns those bytes assembled big-endian — first byte most
/// significant — and advances the position by two whole bytes.
pub proof fn lemma_read_u16_big_endian(data: Seq<u8>, bits: nat)
    requires
        byte_pos(bits) + 2 <= data.len(),
    ensures
        read_u16_model(data, bits).0 == Ok::<u16, BitBufferError>(
            (data[byte_pos(bits) as int] * 256 + data[byte_pos(bits) as int + 1]) as u16,
        ),
        read_u16_model(data, bits).1 == bits + 16,
{
}

/// Law: `read_u24` assembles three bytes big-endian and advances the
/// position by three whole bytes.
pub proof fn lemma_read_u24_big_endian(data: Seq<u8>, bits: nat)
    requires
        byte_pos(bits) + 3 <= data.len(),
    ensures
        read_u24_model(data, bits).0 == Ok::<u32, BitBufferError>(
            ((data[byte_pos(bits) as int] * 256 + data[byte_pos(bits) as int + 1]) * 256 + data[byte_pos(bits) as int + 2]) as u32,
        ),
        read_u24_model(data, bits).1 == bits + 24,
{
}

/// Law: `read_u32` assembles four bytes big-endian and advances the
/// position by four whole bytes.
pub proof fn lemma_read_u32_big_endian(data: Seq<u8>, bits: nat)
    requires
        byte_pos(bits) + 4 <= data.len(),
    ensures
        read_u32_model(data, bits).0 == Ok::<u32, BitBufferError>(
            (((data[byte_pos(bits) as int] * 256 + data[byte_pos(bits) as int + 1]) * 256 + data[byte_pos(bits) as int + 2]) * 256 + data[byte_pos(bits) as int + 3]) as u32,
        ),
        read_u32_model(data, bits).1 == bits + 32,
{
}

} // verus!
