use vstd::prelude::*;

verus! {

/// A single bit, as its own two-valued type rather than a raw integer, so
/// that callers can match on the result of a bit read exhaustively and no
/// value outside {0, 1} can ever be constructed.
#[derive(Debug, Clone, Copy, PartialEq, Eq, Structural, PartialOrd)]
pub enum Bit {
    Zero,
    One,
}

impl Bit {
    /// The numeric value this bit stands for: 0 or 1.
    pub open spec fn spec_as_u8(self) -> u8 {
        match self {
            Bit::Zero => 0,
            Bit::One => 1,
        }
    }

    /// Builds the bit for a numeric value, which must lie in {0, 1}.
    pub fn from_u8(value: u8) -> (r: Bit)
        requires
            value == 0 || value == 1,
        ensures
            r.spec_as_u8() == value,
            r == (if value == 1 { Bit::One } else { Bit::Zero }),
    {
        if value == 1 {
            Bit::One
        } else {
            Bit::Zero
        }
    }

    /// This bit as a boolean: `One` is true, `Zero` is false.
    pub fn as_bool(self) -> (r: bool)
        ensures
            r == (self == Bit::One),
    {
        match self {
            Bit::Zero => false,
            Bit::One => true,
        }
    }

    /// This bit as an unsigned integer: `One` is 1, `Zero` is 0.
    pub fn as_u8(self) -> (r: u8)
        ensures
            r == self.spec_as_u8(),
    {
        match self {
            Bit::Zero => 0,
            Bit::One => 1,
        }
    }
}

} // verus!
