//! The register file: eight 8-bit registers, the stack pointer and the
//! program counter, with 16-bit pair views `af`, `bc`, `de` and `hl`.
//!
//! The flag register `f` keeps the four status flags in its high nibble;
//! its low nibble is architecturally always zero, so every write of a
//! 16-bit value into the `af` pair clears the low nibble of the resulting
//! flag byte before storing it.

use vstd::prelude::*;

use crate::bitwise::{combine, concat16, high, high8, lemma_concat_split, low, low8, wrap_add16,
    wrap_sub16};

verus! {

/// The eight general-purpose 8-bit registers, the stack pointer and the
/// program counter.
#[derive(Clone, Copy, PartialEq, Eq, Structural, Debug)]
pub struct Registers {
    /// Accumulator: high half of the `af` pair.
    pub a: u8,
    /// Flag byte: low half of the `af` pair; low nibble always zero.
    pub f: u8,
    /// High half of the `bc` pair.
    pub b: u8,
    /// Low half of the `bc` pair.
    pub c: u8,
    /// High half of the `de` pair.
    pub d: u8,
    /// Low half of the `de` pair.
    pub e: u8,
    /// High half of the `hl` pair.
    pub h: u8,
    /// Low half of the `hl` pair.
    pub l: u8,
    /// Stack pointer.
    pub sp: u16,
    /// Program counter.
    pub pc: u16,
}

/// The 16-bit `af` view: accumulator high, flag byte low.
pub open spec fn af16(r: Registers) -> u16 {
    concat16(r.a, r.f)
}

/// The 16-bit `bc` view.
pub open spec fn bc16(r: Registers) -> u16 {
    concat16(r.b, r.c)
}

/// The 16-bit `de` view.
pub open spec fn de16(r: Registers) -> u16 {
    concat16(r.d, r.e)
}

/// The 16-bit `hl` view.
pub open spec fn hl16(r: Registers) -> u16 {
    concat16(r.h, r.l)
}

/// The register file after a 16-bit write into the `af` pair: the low
/// nibble of the flag byte is cleared before storing.
pub open spec fn spec_set_af(r: Registers, value: u16) -> Registers {
    Registers { a: high8(value), f: low8(value) & 0xF0, ..r }
}

/// The register file after a 16-bit write into the `bc` pair.
pub open spec fn spec_set_bc(r: Registers, value: u16) -> Registers {
    Registers { b: high8(value), c: low8(value), ..r }
}

/// The register file after a 16-bit write into the `de` pair.
pub open spec fn spec_set_de(r: Registers, value: u16) -> Registers {
    Registers { d: high8(value), e: low8(value), ..r }
}

/// The register file after a 16-bit write into the `hl` pair.
pub open spec fn spec_set_hl(r: Registers, value: u16) -> Registers {
    Registers { h: high8(value), l: low8(value), ..r }
}

/// The flag byte's low nibble is zero.
pub open spec fn flags_wf(r: Registers) -> bool {
    r.f & 0x0F == 0
}

impl Registers {
    /// The register file at power-on: the fixed values the console's boot
    /// sequence leaves behind.
    pub fn new() -> (r: Registers)
        ensures
            r.a == 0x01,
            r.f == 0xB0,
            r.b == 0x00,
            r.c == 0x13,
            r.d == 0x00,
            r.e == 0xD8,
            r.h == 0x01,
            r.l == 0x4D,
            r.sp == 0xFFFE,
            r.pc == 0x0100,
            flags_wf(r),
    {
        let r = Registers {
            a: 0x01,
            f: 0xB0,
            b: 0x00,
            c: 0x13,
            d: 0x00,
            e: 0xD8,
            h: 0x01,
            l: 0x4D,
            sp: 0xFFFE,
            pc: 0x0100,
        };
        proof {
            assert(0xB0u8 & 0x0F == 0) by (bit_vector);
        }
        r
    }

    /// The combined accumulator-and-flags view.
    pub fn af(&self) -> (r: u16)
        ensures
            r == af16(*self),
    {
        combine(self.a, self.f)
    }

    /// The combined `bc` view.
    pub fn bc(&self) -> (r: u16)
        ensures
            r == bc16(*self),
    {
        combine(self.b, self.c)
    }

    /// The combined `de` view.
    pub fn de(&self) -> (r: u16)
        ensures
            r == de16(*self),
    {
        combine(self.d, self.e)
    }

    /// The combined `hl` view.
    pub fn hl(&self) -> (r: u16)
        ensures
            r == hl16(*self),
    {
        combine(self.h, self.l)
    }

    /// Store a 16-bit value into the `af` pair, high byte into the
    /// accumulator; the low nibble of the flag byte is cleared.
    pub fn set_af(&mut self, value: u16)
        ensures
            *final(self) == spec_set_af(*old(self), value),
            flags_wf(*final(self)),
    {
        self.a = high(value);
        self.f = low(value) & 0xF0;
        proof {
            let lo = low8(value);
            assert((lo & 0xF0) & 0x0F == 0) by (bit_vector);
        }
    }

    /// Store a 16-bit value into the `bc` pair, high byte first.
    pub fn set_bc(&mut self, value: u16)
        ensures
            *final(self) == spec_set_bc(*old(self), value),
    {
        self.b = high(value);
        self.c = low(value);
    }

    /// Store a 16-bit value into the `de` pair, high byte first.
    pub fn set_de(&mut self, value: u16)
        ensures
            *final(self) == spec_set_de(*old(self), value),
    {
        self.d = high(value);
        self.e = low(value);
    }

    /// Store a 16-bit value into the `hl` pair, high byte first.
    pub fn set_hl(&mut self, value: u16)
        ensures
            *final(self) == spec_set_hl(*old(self), value),
    {
        self.h = high(value);
        self.l = low(value);
    }

    /// Add 1 to the `hl` view, wrapping at the 16-bit boundary.
    pub fn hli(&mut self)
        ensures
            *final(self) == spec_set_hl(*old(self), wrap_add16(hl16(*old(self)), 1)),
            hl16(*final(self)) == wrap_add16(hl16(*old(self)), 1),
    {
        let new = self.hl().wrapping_add(1);
        self.set_hl(new);
        proof {
            lemma_concat_split(high8(new), low8(new), new);
        }
    }

    /// Subtract 1 from the `hl` view, wrapping at the 16-bit boundary.
    pub fn hld(&mut self)
        ensures
            *final(self) == spec_set_hl(*old(self), wrap_sub16(hl16(*old(self)), 1)),
            hl16(*final(self)) == wrap_sub16(hl16(*old(self)), 1),
    {
        let new = self.hl().wrapping_sub(1);
        self.set_hl(new);
        proof {
            lemma_concat_split(high8(new), low8(new), new);
        }
    }
}

/// Setting a register pair to `v` and reading the pair back returns `v`;
/// the flag pair returns `v` with the low nibble cleared, `v & 0xFFF0`.
pub proof fn lemma_pair_round_trip(r: Registers, v: u16)
    ensures
        bc16(spec_set_bc(r, v)) == v,
        de16(spec_set_de(r, v)) == v,
        hl16(spec_set_hl(r, v)) == v,
        af16(spec_set_af(r, v)) == v & 0xFFF0,
{
    lemma_concat_split(high8(v), low8(v), v);
    assert(((v / 256) as u8 * 256 + ((v % 256) as u8 & 0xF0)) as u16 == v & 0xFFF0)
        by (bit_vector);
}

} // verus!
