use bitbuffer::helpers::get_u8_mask;
use bitbuffer::helpers::read_bit_as;
use bitbuffer::helpers::read_bits_as;
use bitbuffer::helpers::read_bytes;

#[test]
fn test_get_mask() {
    assert_eq!(0b00011100, get_u8_mask(3, 3).unwrap());
    assert_eq!(0b11100000, get_u8_mask(0, 3).unwrap());
    assert_eq!(0b00000111, get_u8_mask(5, 3).unwrap());
    assert_eq!(0b11111111, get_u8_mask(0, 8).unwrap());
    assert_eq!(0b00000000, get_u8_mask(7, 0).unwrap());
    assert_eq!(0b00000001, get_u8_mask(7, 1).unwrap());
    assert_eq!(None, get_u8_mask(7, 3));
}

#[test]
fn test_read_bits_as() {
    let data = vec![0b00110011, 0b00001111];
    assert_eq!(0b0011u8, read_bits_as(&data, 0, 0, 4).unwrap());
    assert_eq!(0b0011u16, read_bits_as(&data, 0, 0, 4).unwrap() as u16);
    assert_eq!(0b0011u8, read_bits_as(&data, 0, 4, 4).unwrap());
    assert_eq!(0b0000u8, read_bits_as(&data, 1, 0, 4).unwrap());
    assert_eq!(0b1111u8, read_bits_as(&data, 1, 4, 4).unwrap());
    assert_eq!(0b0110011u8, read_bits_as(&data, 0, 1, 7).unwrap());
}

#[test]
fn test_read_bit_as() {
    let buf = vec![0b00001111];
    let bit = read_bit_as(&buf, 0, 5).unwrap();
    assert_eq!(1, bit);
}

#[test]
fn test_read_bit_as_error() {
    let buf = vec![0b00001111];
    assert!(read_bit_as(&buf, 1, 5).err().is_some());
}

#[test]
fn test_read_bytes() {
    let buf: Vec<u8> = vec![1, 2, 3, 4];

    let bytes = read_bytes(&buf, 1, 2).unwrap();
    assert_eq!([2, 3], bytes);

    assert!(read_bytes(&buf, 5, 1).err().is_some());
}
