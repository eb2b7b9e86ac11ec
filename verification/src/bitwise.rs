//! Pure bit-packing helpers: composing two bytes into a 16-bit word,
//! splitting a word into its halves, and single-bit masks.

use vstd::prelude::*;

verus! {

/// One bit position of a byte, as a named mask.
#[derive(Clone, Copy, PartialEq, Eq, Structural, Debug)]
pub enum Bit {
    Bit0,
    Bit1,
    Bit2,
    Bit3,
    Bit4,
    Bit5,
    Bit6,
    Bit7,
}

/// The mask a bit position stands for: bit `n` is `2^n`.
pub open spec fn spec_mask(b: Bit) -> u8 {
    match b {
        Bit::Bit0 => 0x01,
        Bit::Bit1 => 0x02,
        Bit::Bit2 => 0x04,
        Bit::Bit3 => 0x08,
        Bit::Bit4 => 0x10,
        Bit::Bit5 => 0x20,
        Bit::Bit6 => 0x40,
        Bit::Bit7 => 0x80,
    }
}

impl Bit {
    /// The byte mask with exactly this bit set.
    pub fn mask(self) -> (r: u8)
        ensures
            r == spec_mask(self),
    {
        match self {
            Bit::Bit0 => 0x01,
            Bit::Bit1 => 0x02,
            Bit::Bit2 => 0x04,
            Bit::Bit3 => 0x08,
            Bit::Bit4 => 0x10,
            Bit::Bit5 => 0x20,
            Bit::Bit6 => 0x40,
            Bit::Bit7 => 0x80,
        }
    }
}

/// The 16-bit word whose high byte is `hi` and low byte is `lo`.
pub open spec fn concat16(hi: u8, lo: u8) -> u16 {
    (hi * 256 + lo) as u16
}

/// The high byte of a 16-bit word.
pub open spec fn high8(w: u16) -> u8 {
    (w / 256) as u8
}

/// The low byte of a 16-bit word.
pub open spec fn low8(w: u16) -> u8 {
    (w % 256) as u8
}

/// Combining two bytes and splitting the result gives the bytes back,
/// and splitting a word and recombining gives the word back.
pub proof fn lemma_concat_split(hi: u8, lo: u8, w: u16)
    ensures
        high8(concat16(hi, lo)) == hi,
        low8(concat16(hi, lo)) == lo,
        concat16(high8(w), low8(w)) == w,
{
    assert((hi * 256 + lo) / 256 == hi) by (nonlinear_arith);
    assert((hi * 256 + lo) % 256 == lo) by (nonlinear_arith);
    assert((w / 256) * 256 + (w % 256) == w) by (nonlinear_arith);
}

/// 16-bit addition that wraps at the 16-bit boundary.
pub open spec fn wrap_add16(x: u16, y: u16) -> u16 {
    if x + y > 0xFFFF {
        (x + y - 0x10000) as u16
    } else {
        (x + y) as u16
    }
}

/// 16-bit subtraction that wraps at the 16-bit boundary.
pub open spec fn wrap_sub16(x: u16, y: u16) -> u16 {
    if x - y < 0 {
        (x - y + 0x10000) as u16
    } else {
        (x - y) as u16
    }
}

/// Combine a high byte and a low byte into one 16-bit word.
pub fn combine(hi: u8, lo: u8) -> (r: u16)
    ensures
        r == concat16(hi, lo),
{
    (hi as u16) * 256 + (lo as u16)
}

/// The high byte of a 16-bit word.
pub fn high(w: u16) -> (r: u8)
    ensures
        r == high8(w),
{
    (w / 256) as u8
}

/// The low byte of a 16-bit word.
pub fn low(w: u16) -> (r: u8)
    ensures
        r == low8(w),
{
    (w % 256) as u8
}

} // verus!
