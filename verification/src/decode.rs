//! Raw-byte decoding: little-endian assembly of signed 16- and 24-bit
//! register words, and the exact fixed-point representation used for
//! physical readings.

use vstd::prelude::*;

verus! {

/// An exact fixed-point quantity: the physical value is `num / den` in the
/// unit documented by whichever function produced it (gauss, Pa or
/// degrees Celsius).  `den` is always positive.
#[derive(Clone, Copy, Debug, PartialEq, Eq, Structural)]
pub struct Scaled {
    pub num: i64,
    pub den: u64,
}

impl Scaled {
    pub open spec fn wf(self) -> bool {
        self.den > 0
    }
}

/// The signed 16-bit two's-complement value encoded by two little-endian
/// bytes (`lo` first, then `hi`).
pub open spec fn to_i16(lo: u8, hi: u8) -> int {
    if hi >= 128 {
        hi * 256 + lo - 65536
    } else {
        hi * 256 + lo
    }
}

/// The signed 24-bit two's-complement value encoded by three little-endian
/// bytes (`b0` least significant, `b2` most significant).
pub open spec fn to_i24(b0: u8, b1: u8, b2: u8) -> int {
    if b2 >= 128 {
        b2 * 65536 + b1 * 256 + b0 - 16777216
    } else {
        b2 * 65536 + b1 * 256 + b0
    }
}

/// Assembles a signed 16-bit word from its two little-endian bytes,
/// sign-extending from bit 15.
pub fn i16_from_le(lo: u8, hi: u8) -> (r: i16)
    ensures
        r as int == to_i16(lo, hi),
{
    let v: u16 = (hi as u16) * 256 + (lo as u16);
    if v >= 0x8000 {
        ((v as i32) - 0x1_0000) as i16
    } else {
        v as i16
    }
}

/// Assembles a signed 24-bit word from its three little-endian bytes,
/// sign-extending from bit 23.
pub fn i24_from_le(b0: u8, b1: u8, b2: u8) -> (r: i32)
    ensures
        r as int == to_i24(b0, b1, b2),
{
    let v: u32 = (b2 as u32) * 65536 + (b1 as u32) * 256 + (b0 as u32);
    if v >= 0x80_0000 {
        (v as i32) - 0x100_0000
    } else {
        v as i32
    }
}

} // verus!
