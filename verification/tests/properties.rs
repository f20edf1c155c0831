use bitbuffer::byte_buffer::ByteBuffer;
use bitbuffer::byte_buffer_slice::ByteBufferSlice;
use bitbuffer::error::BitBufferError;
use bitbuffer::helpers::get_u8_mask;
use bitbuffer::helpers::read_bits_as;
use bitbuffer::helpers::read_byte;
use bitbuffer::helpers::read_bytes;
use bitbuffer::readable_buf::ReadableBuf;

#[test]
fn single_unit_reads_past_end_are_out_of_bounds() {
    let buf: Vec<u8> = vec![10, 20];
    assert_eq!(
        read_byte(&buf, 2),
        Err(BitBufferError::OutOfBounds { attempted_index: 2, buffer_size: 2 })
    );
    assert_eq!(
        read_byte(&buf, 100),
        Err(BitBufferError::OutOfBounds { attempted_index: 100, buffer_size: 2 })
    );

    let mut bb = ByteBuffer::new(vec![7]);
    assert_eq!(bb.read_u8().unwrap(), 7);
    // At the end: both single-unit reads fail and the position stays put.
    assert_eq!(
        bb.read_u8(),
        Err(BitBufferError::OutOfBounds { attempted_index: 1, buffer_size: 1 })
    );
    assert_eq!(
        bb.read_bit(),
        Err(BitBufferError::OutOfBounds { attempted_index: 1, buffer_size: 1 })
    );
    assert_eq!(bb.bytes_remaining(), 0);
}

#[test]
fn range_reads_are_all_or_nothing() {
    let buf: Vec<u8> = vec![1, 2, 3, 4];
    assert_eq!(read_bytes(&buf, 0, 4).unwrap(), [1, 2, 3, 4]);
    assert_eq!(read_bytes(&buf, 2, 2).unwrap(), [3, 4]);
    assert_eq!(read_bytes(&buf, 4, 0).unwrap(), []);
    // A partial overlap is rejected wholesale, never truncated.
    assert_eq!(
        read_bytes(&buf, 2, 3),
        Err(BitBufferError::BufferTooShort { start_pos: 2, num_bytes: 3, buffer_size: 4 })
    );

    let mut bb = ByteBuffer::new(vec![1, 2, 3]);
    assert_eq!(
        bb.read_bytes(4),
        Err(BitBufferError::BufferTooShort { start_pos: 0, num_bytes: 4, buffer_size: 3 })
    );
    // The failed span read left the position unchanged.
    assert_eq!(bb.bytes_remaining(), 3);
    assert_eq!(bb.read_bytes(3).unwrap(), [1, 2, 3]);

    let mut bb = ByteBuffer::new(vec![1, 2, 3]);
    assert!(matches!(
        bb.sub_buffer(5),
        Err(BitBufferError::BufferTooShort { start_pos: 0, num_bytes: 5, buffer_size: 3 })
    ));
    assert_eq!(bb.bytes_remaining(), 3);
}

#[test]
fn bit_spans_fail_beyond_the_current_byte() {
    // Whatever the contents, a span crossing the byte boundary fails.
    for contents in [0x00u8, 0xffu8, 0b10101010u8] {
        let data = vec![contents, contents];
        assert!(read_bits_as(&data, 0, 5, 4).is_err());
        assert!(read_bits_as(&data, 0, 1, 8).is_err());
        assert!(read_bits_as(&data, 0, 7, 2).is_err());

        let mut bb = ByteBuffer::new(data);
        assert!(bb.read_bits_as_u8(9).is_err());
        assert_eq!(bb.bytes_remaining(), 2);
        assert_eq!(bb.read_bits_as_u8(3).unwrap(), contents >> 5);
        // Only 5 bits left in this byte now.
        assert!(bb.read_bits_as_u8(6).is_err());
    }
}

#[test]
fn zero_width_bit_span_reads_zero() {
    let data = vec![0xffu8];
    assert_eq!(read_bits_as(&data, 0, 0, 0).unwrap(), 0);
    assert_eq!(read_bits_as(&data, 0, 7, 0).unwrap(), 0);
    assert_eq!(get_u8_mask(0, 0), Some(0));

    let mut bb = ByteBuffer::new(data);
    assert_eq!(bb.read_bits_as_u8(0).unwrap(), 0);
    assert_eq!(bb.bytes_remaining(), 1);
    assert_eq!(bb.read_u8().unwrap(), 0xff);
}

#[test]
fn bytes_remaining_counts_whole_bytes() {
    let mut bb = ByteBuffer::new(vec![1, 2, 3, 4, 5]);
    assert_eq!(bb.bytes_remaining(), 5);
    // Consume two bytes' worth of bits, one bit at a time.
    for _ in 0..16 {
        bb.read_bit().unwrap();
    }
    assert_eq!(bb.bytes_remaining(), 3);
    bb.read_u8().unwrap();
    assert_eq!(bb.bytes_remaining(), 2);
    bb.read_bytes(2).unwrap();
    assert_eq!(bb.bytes_remaining(), 0);
}

#[test]
fn read_u16_then_u8() {
    let mut bb = ByteBuffer::new(vec![1, 2, 3]);
    assert_eq!(bb.read_u16().unwrap(), 0x0102);
    assert_eq!(bb.read_u8().unwrap(), 3);
}

#[test]
fn read_u24_and_u32_assemble_big_endian() {
    let mut bb = ByteBuffer::new(vec![0x12, 0x34, 0x56, 0x78]);
    assert_eq!(bb.read_u24().unwrap(), 0x123456);
    assert_eq!(bb.read_u8().unwrap(), 0x78);

    let mut bb = ByteBuffer::new(vec![0x12, 0x34, 0x56, 0x78]);
    assert_eq!(bb.read_u32().unwrap(), 0x12345678);
    assert_eq!(bb.bytes_remaining(), 0);
}

#[test]
fn multi_byte_read_keeps_partial_consumption_on_failure() {
    let mut bb = ByteBuffer::new(vec![9]);
    assert_eq!(
        bb.read_u16(),
        Err(BitBufferError::OutOfBounds { attempted_index: 1, buffer_size: 1 })
    );
    // The first byte stays consumed: no rollback.
    assert_eq!(bb.bytes_remaining(), 0);
}

#[test]
fn peek_does_not_advance() {
    let mut bb = ByteBuffer::new(vec![0xab, 0xcd]);
    assert_eq!(bb.peek_u8().unwrap(), 0xab);
    assert_eq!(bb.peek_u8().unwrap(), 0xab);
    assert_eq!(bb.read_u8().unwrap(), 0xab);
    assert_eq!(bb.peek_u8().unwrap(), 0xcd);
}

#[test]
fn read_u8_returns_the_whole_current_byte_when_misaligned() {
    let mut bb = ByteBuffer::new(vec![0xab, 0xcd]);
    bb.read_bit().unwrap();
    // The byte offset is still 0, so the whole first byte comes back.
    assert_eq!(bb.read_u8().unwrap(), 0xab);
    assert_eq!(bb.bytes_remaining(), 1);
    assert_eq!(bb.read_u8().unwrap(), 0xcd);
}

#[test]
fn sub_buffer_is_independent_of_the_parent() {
    let mut bb = ByteBuffer::new(vec![1, 2, 3]);
    let mut sub = bb.sub_buffer(2).unwrap();
    // The sub-region advances through its own two bytes on its own.
    assert_eq!(sub.bytes_remaining(), 2);
    assert_eq!(sub.read_u8().unwrap(), 1);
    assert_eq!(sub.read_u8().unwrap(), 2);
    assert_eq!(sub.bytes_remaining(), 0);
    // Draining the sub-region did not move the parent: its position is
    // exactly one carve past where it was, with the third byte still there.
    assert_eq!(bb.bytes_remaining(), 1);
    assert_eq!(bb.read_u8().unwrap(), 3);
}

#[test]
fn nested_sub_buffers_behave_like_top_level_cursors() {
    let mut top = ByteBuffer::new(vec![0xde, 0xad, 0xbe, 0xef, 0x01]);
    let mut sub = top.sub_buffer(4).unwrap();
    let mut subsub = sub.sub_buffer(2).unwrap();

    // A fresh top-level cursor over the same two bytes, driven through the
    // same calls, returns the same results at every step.
    let mut fresh = ByteBuffer::new(vec![0xde, 0xad]);
    assert_eq!(subsub.bytes_remaining(), fresh.bytes_remaining());

    let mut subsubsub = subsub.sub_buffer(1).unwrap();
    let mut fresh_sub = fresh.sub_buffer(1).unwrap();
    assert_eq!(subsubsub.read_u8().unwrap(), 0xde);
    assert_eq!(fresh_sub.read_u8().unwrap(), 0xde);
    assert!(subsubsub.read_u8().is_err());
    assert!(fresh_sub.read_u8().is_err());

    assert_eq!(subsub.read_u8().unwrap(), 0xad);
    assert_eq!(fresh.read_u8().unwrap(), 0xad);
    assert_eq!(subsub.bytes_remaining(), 0);
    assert_eq!(fresh.bytes_remaining(), 0);

    // The outer regions continue exactly where their carves left them.
    assert_eq!(sub.read_u16().unwrap(), 0xbeef);
    assert_eq!(top.read_u8().unwrap(), 0x01);
}

#[test]
fn from_slice_carves_a_middle_range() {
    let storage: Vec<u8> = vec![9, 8, 7, 6, 5];
    let mut slice_buf = ByteBufferSlice::from_slice(&storage, 1, 3);
    assert_eq!(slice_buf.bytes_remaining(), 3);
    assert_eq!(slice_buf.read_u8().unwrap(), 8);
    assert_eq!(slice_buf.read_u16().unwrap(), 0x0706);
    assert_eq!(slice_buf.bytes_remaining(), 0);
}

#[test]
fn empty_buffer_rejects_every_read() {
    let mut bb = ByteBuffer::new(vec![]);
    assert_eq!(bb.bytes_remaining(), 0);
    assert!(bb.read_bit().is_err());
    assert!(bb.read_u8().is_err());
    assert!(bb.peek_u8().is_err());
    // Zero-length range reads still succeed on an empty buffer.
    assert_eq!(bb.read_bytes(0).unwrap(), []);
    let mut sub = bb.sub_buffer(0).unwrap();
    assert_eq!(sub.bytes_remaining(), 0);
}
