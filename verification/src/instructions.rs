//! The instruction table: each supported opcode byte decodes to one
//! described operation, so partial coverage of the instruction set is
//! explicit and every opcode can be tested on its own.

use vstd::prelude::*;

use crate::registers::Registers;

verus! {

/// One of the eight-bit registers an instruction can name.
#[derive(Clone, Copy, PartialEq, Eq, Structural, Debug)]
pub enum R8 {
    /// The accumulator.
    A,
    /// Register `b`.
    B,
    /// Register `c`.
    C,
    /// Register `d`.
    D,
    /// Register `e`.
    E,
    /// Register `h`.
    H,
    /// Register `l`.
    L,
}

/// The value of the named 8-bit register.
pub open spec fn spec_get8(regs: Registers, r: R8) -> u8 {
    match r {
        R8::A => regs.a,
        R8::B => regs.b,
        R8::C => regs.c,
        R8::D => regs.d,
        R8::E => regs.e,
        R8::H => regs.h,
        R8::L => regs.l,
    }
}

/// The register file with the named 8-bit register replaced.
pub open spec fn spec_set8(regs: Registers, r: R8, v: u8) -> Registers {
    match r {
        R8::A => Registers { a: v, ..regs },
        R8::B => Registers { b: v, ..regs },
        R8::C => Registers { c: v, ..regs },
        R8::D => Registers { d: v, ..regs },
        R8::E => Registers { e: v, ..regs },
        R8::H => Registers { h: v, ..regs },
        R8::L => Registers { l: v, ..regs },
    }
}

/// Read the named 8-bit register.
pub fn reg_get(regs: &Registers, r: R8) -> (v: u8)
    ensures
        v == spec_get8(*regs, r),
{
    match r {
        R8::A => regs.a,
        R8::B => regs.b,
        R8::C => regs.c,
        R8::D => regs.d,
        R8::E => regs.e,
        R8::H => regs.h,
        R8::L => regs.l,
    }
}

/// Write the named 8-bit register.
pub fn reg_set(regs: &mut Registers, r: R8, v: u8)
    ensures
        *final(regs) == spec_set8(*old(regs), r, v),
{
    match r {
        R8::A => regs.a = v,
        R8::B => regs.b = v,
        R8::C => regs.c = v,
        R8::D => regs.d = v,
        R8::E => regs.e = v,
        R8::H => regs.h = v,
        R8::L => regs.l = v,
    }
}

/// One operation of the supported instruction subset, as decoded from an
/// opcode byte.
#[derive(Clone, Copy, PartialEq, Eq, Structural, Debug)]
pub enum Instr {
    /// No operation.
    Nop,
    /// Stop: consumes the opcode only, like a no-operation for this core.
    Stop,
    /// Copy one 8-bit register into another: destination, then source.
    LdRR(R8, R8),
    /// Load the following immediate byte into a register.
    LdRN(R8),
    /// Load a register from memory at the `hl` address.
    LdRHl(R8),
    /// Store a register into memory at the `hl` address.
    LdHlR(R8),
    /// Store the following immediate byte into memory at the `hl` address.
    LdHlN,
    /// Load the accumulator from memory at the `bc` address.
    LdABc,
    /// Load the accumulator from memory at the `de` address.
    LdADe,
    /// Store the accumulator into memory at the `bc` address.
    LdBcA,
    /// Store the accumulator into memory at the `de` address.
    LdDeA,
    /// Load the accumulator from memory at a fetched 16-bit pointer.
    LdANn,
    /// Store the accumulator into memory at a fetched 16-bit pointer.
    LdNnA,
    /// Port-style load: accumulator from `0xFF00` plus register `c`.
    LdhAC,
    /// Port-style store: accumulator to `0xFF00` plus register `c`.
    LdhCA,
    /// Port-style load: accumulator from `0xFF00` plus a fetched byte.
    LdhAN,
    /// Port-style store: accumulator to `0xFF00` plus a fetched byte.
    LdhNA,
    /// Load the accumulator from memory at `hl`, then decrement `hl`.
    LdAHld,
    /// Store the accumulator into memory at `hl`, then decrement `hl`.
    LdHldA,
    /// Load the accumulator from memory at `hl`, then increment `hl`.
    LdAHli,
    /// Store the accumulator into memory at `hl`, then increment `hl`.
    LdHliA,
    /// Load a fetched 16-bit immediate into the `bc` pair.
    LdBcNn,
    /// Load a fetched 16-bit immediate into the `de` pair.
    LdDeNn,
    /// Load a fetched 16-bit immediate into the `hl` pair.
    LdHlNn,
    /// Load a fetched 16-bit immediate into the stack pointer.
    LdSpNn,
    /// Store the stack pointer, low byte first, at a fetched pointer.
    LdNnSp,
    /// Transfer `hl` into the stack pointer.
    LdSpHl,
    /// Push the `bc` pair onto the stack.
    PushBc,
    /// Push the `de` pair onto the stack.
    PushDe,
    /// Push the `hl` pair onto the stack.
    PushHl,
    /// Push the `af` pair onto the stack.
    PushAf,
    /// Pop from the stack into the `bc` pair.
    PopBc,
    /// Pop from the stack into the `de` pair.
    PopDe,
    /// Pop from the stack into the `hl` pair.
    PopHl,
    /// Pop from the stack into the `af` pair, clearing the low nibble of
    /// the flag byte.
    PopAf,
}

/// The instruction table: the operation an opcode byte stands for, or
/// nothing for an opcode outside the supported subset.
pub open spec fn decode_spec(op: u8) -> Option<Instr> {
    if op == 0x00 {
        Some(Instr::Nop)
    } else if op == 0x10 {
        Some(Instr::Stop)
    } else if op == 0x78 {
        Some(Instr::LdRR(R8::A, R8::B))
    } else if op == 0x79 {
        Some(Instr::LdRR(R8::A, R8::C))
    } else if op == 0x7A {
        Some(Instr::LdRR(R8::A, R8::D))
    } else if op == 0x7B {
        Some(Instr::LdRR(R8::A, R8::E))
    } else if op == 0x7C {
        Some(Instr::LdRR(R8::A, R8::H))
    } else if op == 0x7D {
        Some(Instr::LdRR(R8::A, R8::L))
    } else if op == 0x7F {
        Some(Instr::LdRR(R8::A, R8::A))
    } else if op == 0x47 {
        Some(Instr::LdRR(R8::B, R8::A))
    } else if op == 0x40 {
        Some(Instr::LdRR(R8::B, R8::B))
    } else if op == 0x41 {
        Some(Instr::LdRR(R8::B, R8::C))
    } else if op == 0x42 {
        Some(Instr::LdRR(R8::B, R8::D))
    } else if op == 0x43 {
        Some(Instr::LdRR(R8::B, R8::E))
    } else if op == 0x44 {
        Some(Instr::LdRR(R8::B, R8::H))
    } else if op == 0x45 {
        Some(Instr::LdRR(R8::B, R8::L))
    } else if op == 0x4F {
        Some(Instr::LdRR(R8::C, R8::A))
    } else if op == 0x48 {
        Some(Instr::LdRR(R8::C, R8::B))
    } else if op == 0x49 {
        Some(Instr::LdRR(R8::C, R8::C))
    } else if op == 0x4A {
        Some(Instr::LdRR(R8::C, R8::D))
    } else if op == 0x4B {
        Some(Instr::LdRR(R8::C, R8::E))
    } else if op == 0x4C {
        Some(Instr::LdRR(R8::C, R8::H))
    } else if op == 0x4D {
        Some(Instr::LdRR(R8::C, R8::L))
    } else if op == 0x57 {
        Some(Instr::LdRR(R8::D, R8::A))
    } else if op == 0x50 {
        Some(Instr::LdRR(R8::D, R8::B))
    } else if op == 0x51 {
        Some(Instr::LdRR(R8::D, R8::C))
    } else if op == 0x52 {
        Some(Instr::LdRR(R8::D, R8::D))
    } else if op == 0x53 {
        Some(Instr::LdRR(R8::D, R8::E))
    } else if op == 0x54 {
        Some(Instr::LdRR(R8::D, R8::H))
    } else if op == 0x55 {
        Some(Instr::LdRR(R8::D, R8::L))
    } else if op == 0x5F {
        Some(Instr::LdRR(R8::E, R8::A))
    } else if op == 0x58 {
        Some(Instr::LdRR(R8::E, R8::B))
    } else if op == 0x59 {
        Some(Instr::LdRR(R8::E, R8::C))
    } else if op == 0x5A {
        Some(Instr::LdRR(R8::E, R8::D))
    } else if op == 0x5B {
        Some(Instr::LdRR(R8::E, R8::E))
    } else if op == 0x5C {
        Some(Instr::LdRR(R8::E, R8::H))
    } else if op == 0x5D {
        Some(Instr::LdRR(R8::E, R8::L))
    } else if op == 0x67 {
        Some(Instr::LdRR(R8::H, R8::A))
    } else if op == 0x60 {
        Some(Instr::LdRR(R8::H, R8::B))
    } else if op == 0x61 {
        Some(Instr::LdRR(R8::H, R8::C))
    } else if op == 0x62 {
        Some(Instr::LdRR(R8::H, R8::D))
    } else if op == 0x63 {
        Some(Instr::LdRR(R8::H, R8::E))
    } else if op == 0x64 {
        Some(Instr::LdRR(R8::H, R8::H))
    } else if op == 0x65 {
        Some(Instr::LdRR(R8::H, R8::L))
    } else if op == 0x6F {
        Some(Instr::LdRR(R8::L, R8::A))
    } else if op == 0x68 {
        Some(Instr::LdRR(R8::L, R8::B))
    } else if op == 0x69 {
        Some(Instr::LdRR(R8::L, R8::C))
    } else if op == 0x6A {
        Some(Instr::LdRR(R8::L, R8::D))
    } else if op == 0x6B {
        Some(Instr::LdRR(R8::L, R8::E))
    } else if op == 0x6C {
        Some(Instr::LdRR(R8::L, R8::H))
    } else if op == 0x6D {
        Some(Instr::LdRR(R8::L, R8::L))
    } else if op == 0x3E {
        Some(Instr::LdRN(R8::A))
    } else if op == 0x06 {
        Some(Instr::LdRN(R8::B))
    } else if op == 0x0E {
        Some(Instr::LdRN(R8::C))
    } else if op == 0x16 {
        Some(Instr::LdRN(R8::D))
    } else if op == 0x1E {
        Some(Instr::LdRN(R8::E))
    } else if op == 0x26 {
        Some(Instr::LdRN(R8::H))
    } else if op == 0x2E {
        Some(Instr::LdRN(R8::L))
    } else if op == 0x7E {
        Some(Instr::LdRHl(R8::A))
    } else if op == 0x46 {
        Some(Instr::LdRHl(R8::B))
    } else if op == 0x4E {
        Some(Instr::LdRHl(R8::C))
    } else if op == 0x56 {
        Some(Instr::LdRHl(R8::D))
    } else if op == 0x5E {
        Some(Instr::LdRHl(R8::E))
    } else if op == 0x66 {
        Some(Instr::LdRHl(R8::H))
    } else if op == 0x6E {
        Some(Instr::LdRHl(R8::L))
    } else if op == 0x77 {
        Some(Instr::LdHlR(R8::A))
    } else if op == 0x70 {
        Some(Instr::LdHlR(R8::B))
    } else if op == 0x71 {
        Some(Instr::LdHlR(R8::C))
    } else if op == 0x72 {
        Some(Instr::LdHlR(R8::D))
    } else if op == 0x73 {
        Some(Instr::LdHlR(R8::E))
    } else if op == 0x74 {
        Some(Instr::LdHlR(R8::H))
    } else if op == 0x75 {
        Some(Instr::LdHlR(R8::L))
    } else if op == 0x36 {
        Some(Instr::LdHlN)
    } else if op == 0x0A {
        Some(Instr::LdABc)
    } else if op == 0x1A {
        Some(Instr::LdADe)
    } else if op == 0x02 {
        Some(Instr::LdBcA)
    } else if op == 0x12 {
        Some(Instr::LdDeA)
    } else if op == 0xFA {
        Some(Instr::LdANn)
    } else if op == 0xEA {
        Some(Instr::LdNnA)
    } else if op == 0xF2 {
        Some(Instr::LdhAC)
    } else if op == 0xE2 {
        Some(Instr::LdhCA)
    } else if op == 0xF0 {
        Some(Instr::LdhAN)
    } else if op == 0xE0 {
        Some(Instr::LdhNA)
    } else if op == 0x3A {
        Some(Instr::LdAHld)
    } else if op == 0x32 {
        Some(Instr::LdHldA)
    } else if op == 0x2A {
        Some(Instr::LdAHli)
    } else if op == 0x22 {
        Some(Instr::LdHliA)
    } else if op == 0x01 {
        Some(Instr::LdBcNn)
    } else if op == 0x11 {
        Some(Instr::LdDeNn)
    } else if op == 0x21 {
        Some(Instr::LdHlNn)
    } else if op == 0x31 {
        Some(Instr::LdSpNn)
    } else if op == 0x08 {
        Some(Instr::LdNnSp)
    } else if op == 0xF9 {
        Some(Instr::LdSpHl)
    } else if op == 0xC5 {
        Some(Instr::PushBc)
    } else if op == 0xD5 {
        Some(Instr::PushDe)
    } else if op == 0xE5 {
        Some(Instr::PushHl)
    } else if op == 0xF5 {
        Some(Instr::PushAf)
    } else if op == 0xC1 {
        Some(Instr::PopBc)
    } else if op == 0xD1 {
        Some(Instr::PopDe)
    } else if op == 0xE1 {
        Some(Instr::PopHl)
    } else if op == 0xF1 {
        Some(Instr::PopAf)
    } else {
        None
    }
}

/// Look an opcode byte up in the instruction table.
pub fn decode(op: u8) -> (r: Option<Instr>)
    ensures
        r == decode_spec(op),
{
    match op {
        0x00 => Some(Instr::Nop),
        0x10 => Some(Instr::Stop),
        0x78 => Some(Instr::LdRR(R8::A, R8::B)),
        0x79 => Some(Instr::LdRR(R8::A, R8::C)),
        0x7A => Some(Instr::LdRR(R8::A, R8::D)),
        0x7B => Some(Instr::LdRR(R8::A, R8::E)),
        0x7C => Some(Instr::LdRR(R8::A, R8::H)),
        0x7D => Some(Instr::LdRR(R8::A, R8::L)),
        0x7F => Some(Instr::LdRR(R8::A, R8::A)),
        0x47 => Some(Instr::LdRR(R8::B, R8::A)),
        0x40 => Some(Instr::LdRR(R8::B, R8::B)),
        0x41 => Some(Instr::LdRR(R8::B, R8::C)),
        0x42 => Some(Instr::LdRR(R8::B, R8::D)),
        0x43 => Some(Instr::LdRR(R8::B, R8::E)),
        0x44 => Some(Instr::LdRR(R8::B, R8::H)),
        0x45 => Some(Instr::LdRR(R8::B, R8::L)),
        0x4F => Some(Instr::LdRR(R8::C, R8::A)),
        0x48 => Some(Instr::LdRR(R8::C, R8::B)),
        0x49 => Some(Instr::LdRR(R8::C, R8::C)),
        0x4A => Some(Instr::LdRR(R8::C, R8::D)),
        0x4B => Some(Instr::LdRR(R8::C, R8::E)),
        0x4C => Some(Instr::LdRR(R8::C, R8::H)),
        0x4D => Some(Instr::LdRR(R8::C, R8::L)),
        0x57 => Some(Instr::LdRR(R8::D, R8::A)),
        0x50 => Some(Instr::LdRR(R8::D, R8::B)),
        0x51 => Some(Instr::LdRR(R8::D, R8::C)),
        0x52 => Some(Instr::LdRR(R8::D, R8::D)),
        0x53 => Some(Instr::LdRR(R8::D, R8::E)),
        0x54 => Some(Instr::LdRR(R8::D, R8::H)),
        0x55 => Some(Instr::LdRR(R8::D, R8::L)),
        0x5F => Some(Instr::LdRR(R8::E, R8::A)),
        0x58 => Some(Instr::LdRR(R8::E, R8::B)),
        0x59 => Some(Instr::LdRR(R8::E, R8::C)),
        0x5A => Some(Instr::LdRR(R8::E, R8::D)),
        0x5B => Some(Instr::LdRR(R8::E, R8::E)),
        0x5C => Some(Instr::LdRR(R8::E, R8::H)),
        0x5D => Some(Instr::LdRR(R8::E, R8::L)),
        0x67 => Some(Instr::LdRR(R8::H, R8::A)),
        0x60 => Some(Instr::LdRR(R8::H, R8::B)),
        0x61 => Some(Instr::LdRR(R8::H, R8::C)),
        0x62 => Some(Instr::LdRR(R8::H, R8::D)),
        0x63 => Some(Instr::LdRR(R8::H, R8::E)),
        0x64 => Some(Instr::LdRR(R8::H, R8::H)),
        0x65 => Some(Instr::LdRR(R8::H, R8::L)),
        0x6F => Some(Instr::LdRR(R8::L, R8::A)),
        0x68 => Some(Instr::LdRR(R8::L, R8::B)),
        0x69 => Some(Instr::LdRR(R8::L, R8::C)),
        0x6A => Some(Instr::LdRR(R8::L, R8::D)),
        0x6B => Some(Instr::LdRR(R8::L, R8::E)),
        0x6C => Some(Instr::LdRR(R8::L, R8::H)),
        0x6D => Some(Instr::LdRR(R8::L, R8::L)),
        0x3E => Some(Instr::LdRN(R8::A)),
        0x06 => Some(Instr::LdRN(R8::B)),
        0x0E => Some(Instr::LdRN(R8::C)),
        0x16 => Some(Instr::LdRN(R8::D)),
        0x1E => Some(Instr::LdRN(R8::E)),
        0x26 => Some(Instr::LdRN(R8::H)),
        0x2E => Some(Instr::LdRN(R8::L)),
        0x7E => Some(Instr::LdRHl(R8::A)),
        0x46 => Some(Instr::LdRHl(R8::B)),
        0x4E => Some(Instr::LdRHl(R8::C)),
        0x56 => Some(Instr::LdRHl(R8::D)),
        0x5E => Some(Instr::LdRHl(R8::E)),
        0x66 => Some(Instr::LdRHl(R8::H)),
        0x6E => Some(Instr::LdRHl(R8::L)),
        0x77 => Some(Instr::LdHlR(R8::A)),
        0x70 => Some(Instr::LdHlR(R8::B)),
        0x71 => Some(Instr::LdHlR(R8::C)),
        0x72 => Some(Instr::LdHlR(R8::D)),
        0x73 => Some(Instr::LdHlR(R8::E)),
        0x74 => Some(Instr::LdHlR(R8::H)),
        0x75 => Some(Instr::LdHlR(R8::L)),
        0x36 => Some(Instr::LdHlN),
        0x0A => Some(Instr::LdABc),
        0x1A => Some(Instr::LdADe),
        0x02 => Some(Instr::LdBcA),
        0x12 => Some(Instr::LdDeA),
        0xFA => Some(Instr::LdANn),
        0xEA => Some(Instr::LdNnA),
        0xF2 => Some(Instr::LdhAC),
        0xE2 => Some(Instr::LdhCA),
        0xF0 => Some(Instr::LdhAN),
        0xE0 => Some(Instr::LdhNA),
        0x3A => Some(Instr::LdAHld),
        0x32 => Some(Instr::LdHldA),
        0x2A => Some(Instr::LdAHli),
        0x22 => Some(Instr::LdHliA),
        0x01 => Some(Instr::LdBcNn),
        0x11 => Some(Instr::LdDeNn),
        0x21 => Some(Instr::LdHlNn),
        0x31 => Some(Instr::LdSpNn),
        0x08 => Some(Instr::LdNnSp),
        0xF9 => Some(Instr::LdSpHl),
        0xC5 => Some(Instr::PushBc),
        0xD5 => Some(Instr::PushDe),
        0xE5 => Some(Instr::PushHl),
        0xF5 => Some(Instr::PushAf),
        0xC1 => Some(Instr::PopBc),
        0xD1 => Some(Instr::PopDe),
        0xE1 => Some(Instr::PopHl),
        0xF1 => Some(Instr::PopAf),
        _ => None,
    }
}

} // verus!
