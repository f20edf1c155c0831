use bitbuffer::bit::Bit;
use bitbuffer::byte_buffer::ByteBuffer;
use bitbuffer::readable_buf::ReadableBuf;

#[test]
fn test_bytes_remaining() {
    let data: Vec<u8> = vec![1, 2, 3];
    let mut bb = ByteBuffer::new(data);

    assert_eq!(bb.bytes_remaining(), 3);
    let _ = bb.read_bit();
    assert_eq!(bb.bytes_remaining(), 3);
    let _ = bb.read_bits_as_u8(7);
    assert_eq!(bb.bytes_remaining(), 2);

    let _ = bb.read_u8();
    assert_eq!(bb.bytes_remaining(), 1);
}

#[test]
fn test_read_bit_as_bool() {
    let data: Vec<u8> = vec![0b11110000];
    let mut bb = ByteBuffer::new(data);

    assert_eq!(bb.read_bit_as_bool().unwrap(), true);
    assert_eq!(bb.read_bit_as_bool().unwrap(), true);
    assert_eq!(bb.read_bit_as_bool().unwrap(), true);
    assert_eq!(bb.read_bit_as_bool().unwrap(), true);
    assert_eq!(bb.read_bit_as_bool().unwrap(), false);
    assert_eq!(bb.read_bit_as_bool().unwrap(), false);
    assert_eq!(bb.read_bit_as_bool().unwrap(), false);
    assert_eq!(bb.read_bit_as_bool().unwrap(), false);
}

#[test]
fn test_read_bit() {
    let data: Vec<u8> = vec![0b11110000];
    let mut bb = ByteBuffer::new(data);

    assert_eq!(bb.read_bit().unwrap(), Bit::One);
    assert_eq!(bb.read_bit().unwrap(), Bit::One);
    assert_eq!(bb.read_bit().unwrap(), Bit::One);
    assert_eq!(bb.read_bit().unwrap(), Bit::One);
    assert_eq!(bb.read_bit().unwrap(), Bit::Zero);
    assert_eq!(bb.read_bit().unwrap(), Bit::Zero);
    assert_eq!(bb.read_bit().unwrap(), Bit::Zero);
    assert_eq!(bb.read_bit().unwrap(), Bit::Zero);
}

#[test]
fn test_read_u8() {
    let data: Vec<u8> = vec![1, 2, 3];
    let mut bb = ByteBuffer::new(data);

    assert_eq!(bb.read_u8().unwrap(), 1u8);
    assert_eq!(bb.read_u8().unwrap(), 2u8);
    assert_eq!(bb.read_u8().unwrap(), 3u8);
}

#[test]
fn test_sub_buffer() {
    let data: Vec<u8> = vec![1, 2, 3];
    let mut bb = ByteBuffer::new(data);

    let mut sb = bb.sub_buffer(2).unwrap();
    assert_eq!(sb.read_u8().unwrap(), 1u8);
    assert_eq!(sb.read_u8().unwrap(), 2u8);

    let mut sb = bb.sub_buffer(1).unwrap();
    assert_eq!(sb.read_u8().unwrap(), 3u8);
}
