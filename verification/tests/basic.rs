use bitbuffer::bit::Bit;

#[test]
fn it_works() {
    assert_eq!(2 + 2, 4);
}

#[test]
fn bit_conversions() {
    assert_eq!(Bit::from_u8(0), Bit::Zero);
    assert_eq!(Bit::from_u8(1), Bit::One);
    assert_eq!(Bit::Zero.as_bool(), false);
    assert_eq!(Bit::One.as_bool(), true);
    assert_eq!(Bit::Zero.as_u8(), 0);
    assert_eq!(Bit::One.as_u8(), 1);
}
