//! The machine: the backing stores behind the memory bus, the register
//! file, and the instruction execution engine driving one
//! fetch-decode-execute step per invocation.
//!
//! Every failure is surfaced as an explicit fault value rather than
//! aborting, so a host can report a halted core and keep running.

use vstd::prelude::*;

use crate::bitwise::{combine, concat16, high, high8, lemma_concat_split, low, low8, wrap_add16,
    wrap_sub16};
use crate::gpu::Gpu;
use crate::instructions::{decode, decode_spec, reg_get, reg_set, spec_get8, spec_set8, Instr, R8};
use crate::memory_map::{in_echo, lemma_writable_distinct, mapped, offset_of, same_cell, store_of,
    writable, Store, CART_STORE_SIZE, ECHO_START, HRAM_SIZE, HRAM_START, OAM_SIZE, OAM_START,
    VRAM_SIZE, VRAM_START, WRAM_SIZE, WRAM_START};
use crate::registers::{af16, bc16, de16, hl16, spec_set_af, spec_set_bc, spec_set_de, spec_set_hl,
    Registers};
use crate::rom::Rom;

verus! {

/// A condition that stops execution: each is surfaced to the host as an
/// error value instead of aborting the process.
#[derive(Clone, Copy, PartialEq, Eq, Structural, Debug)]
pub enum Fault {
    /// A read or write outside every defined address region.
    InvalidAddress,
    /// A decode failure: the opcode byte has no defined behaviour in the
    /// supported subset. Carries the opcode.
    UnsupportedOpcode(u8),
    /// A write into the echo region, which is architecturally prohibited.
    /// The write is rejected cleanly, with no side effect.
    ProhibitedAccess,
}

/// The fault a rejected write raises: a prohibited echo-region write, or
/// an unmapped address.
pub open spec fn write_fault(a: u16) -> Fault
    recommends
        !writable(a),
{
    if in_echo(a) {
        Fault::ProhibitedAccess
    } else {
        Fault::InvalidAddress
    }
}

/// The machine: one backing store per hardware region, and the register
/// file. The bus itself holds no state.
pub struct GioBoyColor {
    /// The cartridge store.
    pub rom: Rom,
    /// The working-memory store.
    pub ram: Vec<u8>,
    /// The high-speed store.
    pub hram: Vec<u8>,
    /// The graphics collaborator: graphics memory and the sprite table.
    pub gpu: Gpu,
    /// The register file.
    pub registers: Registers,
}

/// What the machine holds: each backing store's bytes and the register
/// file.
#[verifier::ext_equal]
pub struct MachineView {
    /// The cartridge store's bytes, indexed with absolute addresses.
    pub cart: Seq<u8>,
    /// The graphics-memory bytes.
    pub vram: Seq<u8>,
    /// The sprite-table bytes.
    pub oam: Seq<u8>,
    /// The working-memory bytes.
    pub wram: Seq<u8>,
    /// The high-speed-memory bytes.
    pub hram: Seq<u8>,
    /// The register file.
    pub regs: Registers,
}

impl View for GioBoyColor {
    type V = MachineView;

    open spec fn view(&self) -> MachineView {
        MachineView {
            cart: self.rom@,
            vram: self.gpu@.vram,
            oam: self.gpu@.oam,
            wram: self.ram@,
            hram: self.hram@,
            regs: self.registers,
        }
    }
}

impl MachineView {
    /// Every store is sized exactly to its region.
    pub open spec fn wf(self) -> bool {
        &&& self.cart.len() == CART_STORE_SIZE
        &&& self.vram.len() == VRAM_SIZE
        &&& self.oam.len() == OAM_SIZE
        &&& self.wram.len() == WRAM_SIZE
        &&& self.hram.len() == HRAM_SIZE
    }
}

/// The byte a mapped address is routed to: the owning store, at the
/// address's offset within it. Echo-region reads mirror working memory.
pub open spec fn read_at(m: MachineView, a: u16) -> u8
    recommends
        m.wf(),
        mapped(a),
{
    match store_of(a) {
        Store::Cartridge => m.cart[offset_of(a)],
        Store::Vram => m.vram[offset_of(a)],
        Store::Wram => m.wram[offset_of(a)],
        Store::Oam => m.oam[offset_of(a)],
        Store::Hram => m.hram[offset_of(a)],
    }
}

/// The machine after a byte is stored at a writable address: only the
/// owning store changes, and only at the address's offset.
pub open spec fn write_at(m: MachineView, a: u16, v: u8) -> MachineView
    recommends
        m.wf(),
        writable(a),
{
    match store_of(a) {
        Store::Cartridge => MachineView { cart: m.cart.update(offset_of(a), v), ..m },
        Store::Vram => MachineView { vram: m.vram.update(offset_of(a), v), ..m },
        Store::Wram => MachineView { wram: m.wram.update(offset_of(a), v), ..m },
        Store::Oam => MachineView { oam: m.oam.update(offset_of(a), v), ..m },
        Store::Hram => MachineView { hram: m.hram.update(offset_of(a), v), ..m },
    }
}

/// The machine with its register file replaced.
pub open spec fn with_regs(m: MachineView, regs: Registers) -> MachineView {
    MachineView { regs, ..m }
}

/// The machine with its program counter advanced by `n`, wrapping at the
/// 16-bit boundary.
pub open spec fn advance_pc(m: MachineView, n: u16) -> MachineView {
    with_regs(m, Registers { pc: wrap_add16(m.regs.pc, n), ..m.regs })
}

/// The register file with the stack pointer replaced.
pub open spec fn spec_set_sp(regs: Registers, v: u16) -> Registers {
    Registers { sp: v, ..regs }
}

/// The register file with its program counter advanced by `n`, wrapping
/// at the 16-bit boundary.
pub open spec fn pc_plus(regs: Registers, n: u16) -> Registers {
    Registers { pc: wrap_add16(regs.pc, n), ..regs }
}

/// The first immediate byte can be fetched: the program counter is
/// mapped.
pub open spec fn imm8_ok(pre: MachineView) -> bool {
    mapped(pre.regs.pc)
}

/// The immediate byte following the opcode.
pub open spec fn imm8(pre: MachineView) -> u8 {
    read_at(pre, pre.regs.pc)
}

/// Both bytes of an immediate 16-bit pointer can be fetched.
pub open spec fn imm16_ok(pre: MachineView) -> bool {
    mapped(pre.regs.pc) && mapped(wrap_add16(pre.regs.pc, 1))
}

/// The immediate 16-bit pointer following the opcode, low byte first.
pub open spec fn imm16(pre: MachineView) -> u16 {
    concat16(read_at(pre, wrap_add16(pre.regs.pc, 1)), read_at(pre, pre.regs.pc))
}

/// The machine after a failing 16-bit immediate fetch: the counter stays
/// where the failing fetch found it.
pub open spec fn imm16_fail_post(pre: MachineView) -> MachineView {
    if mapped(pre.regs.pc) {
        advance_pc(pre, 1)
    } else {
        pre
    }
}

/// The outcome of loading the byte at `a` into register `d`: on a mapped
/// address the register is set and `cycles` is returned; an unmapped
/// address is an invalid-address fault that changes nothing.
pub open spec fn load_result(
    pre: MachineView,
    post: MachineView,
    a: u16,
    d: R8,
    cycles: usize,
    r: Result<usize, Fault>,
) -> bool {
    if mapped(a) {
        post == with_regs(pre, spec_set8(pre.regs, d, read_at(pre, a))) && r == Ok::<usize, Fault>(cycles)
    } else {
        post == pre && r == Err::<usize, Fault>(Fault::InvalidAddress)
    }
}

/// The outcome of storing byte `v` at `a`: on a writable address the
/// store's byte is replaced and `cycles` is returned; otherwise the
/// write's fault is raised and nothing changes.
pub open spec fn store_result(
    pre: MachineView,
    post: MachineView,
    a: u16,
    v: u8,
    cycles: usize,
    r: Result<usize, Fault>,
) -> bool {
    if writable(a) {
        post == write_at(pre, a, v) && r == Ok::<usize, Fault>(cycles)
    } else {
        post == pre && r == Err::<usize, Fault>(write_fault(a))
    }
}

/// The outcome of pushing the 16-bit value `v` onto the stack, costing 4
/// cycles on success.
pub open spec fn push_result(
    pre: MachineView,
    post: MachineView,
    v: u16,
    r: Result<usize, Fault>,
) -> bool {
    if GioBoyColor::push_ok(pre) {
        post == GioBoyColor::push_post(pre, v) && r == Ok::<usize, Fault>(4)
    } else {
        post == GioBoyColor::push_fail_post(pre, v) && r == Err::<usize, Fault>(GioBoyColor::push_fault(pre))
    }
}

/// The outcome of popping a 16-bit value into a register pair, given the
/// register file the pair write leaves behind on success.
pub open spec fn pop_result(
    pre: MachineView,
    post: MachineView,
    regs_on_success: Registers,
    r: Result<usize, Fault>,
) -> bool {
    if GioBoyColor::pop_ok(pre) {
        post == with_regs(pre, regs_on_success) && r == Ok::<usize, Fault>(3)
    } else {
        post == pre && r == Err::<usize, Fault>(Fault::InvalidAddress)
    }
}

/// The register file after a successful pop raised the stack pointer.
pub open spec fn popped_regs(pre: MachineView) -> Registers {
    spec_set_sp(pre.regs, wrap_add16(pre.regs.sp, 2))
}

/// What one decoded instruction does: how the machine after execution
/// and the returned cycle count or fault relate to the machine the
/// opcode fetch left behind. Immediate operands are fetched at the
/// program counter, and a fault from a fetch or a memory access leaves
/// every effect after the failing access unapplied.
pub open spec fn instr_effect(
    pre: MachineView,
    post: MachineView,
    i: Instr,
    r: Result<usize, Fault>,
) -> bool {
    match i {
        Instr::Nop => post == pre && r == Ok::<usize, Fault>(1),
        Instr::Stop => post == pre && r == Ok::<usize, Fault>(1),
        Instr::LdRR(d, s) => post == with_regs(pre, spec_set8(pre.regs, d, spec_get8(pre.regs, s)))
            && r == Ok::<usize, Fault>(1),
        Instr::LdRN(d) => if imm8_ok(pre) {
            post == with_regs(pre, spec_set8(pc_plus(pre.regs, 1), d, imm8(pre))) && r == Ok::<usize, Fault>(2)
        } else {
            post == pre && r == Err::<usize, Fault>(Fault::InvalidAddress)
        },
        Instr::LdRHl(d) => load_result(pre, post, hl16(pre.regs), d, 2, r),
        Instr::LdHlR(s) => store_result(pre, post, hl16(pre.regs), spec_get8(pre.regs, s), 2, r),
        Instr::LdHlN => if imm8_ok(pre) {
            store_result(advance_pc(pre, 1), post, hl16(pre.regs), imm8(pre), 3, r)
        } else {
            post == pre && r == Err::<usize, Fault>(Fault::InvalidAddress)
        },
        Instr::LdABc => load_result(pre, post, bc16(pre.regs), R8::A, 2, r),
        Instr::LdADe => load_result(pre, post, de16(pre.regs), R8::A, 2, r),
        Instr::LdBcA => store_result(pre, post, bc16(pre.regs), pre.regs.a, 2, r),
        Instr::LdDeA => store_result(pre, post, de16(pre.regs), pre.regs.a, 2, r),
        Instr::LdANn => if imm16_ok(pre) {
            load_result(advance_pc(pre, 2), post, imm16(pre), R8::A, 4, r)
        } else {
            post == imm16_fail_post(pre) && r == Err::<usize, Fault>(Fault::InvalidAddress)
        },
        Instr::LdNnA => if imm16_ok(pre) {
            store_result(advance_pc(pre, 2), post, imm16(pre), pre.regs.a, 4, r)
        } else {
            post == imm16_fail_post(pre) && r == Err::<usize, Fault>(Fault::InvalidAddress)
        },
        Instr::LdhAC => load_result(pre, post, concat16(0xFF, pre.regs.c), R8::A, 2, r),
        Instr::LdhCA => store_result(pre, post, concat16(0xFF, pre.regs.c), pre.regs.a, 2, r),
        Instr::LdhAN => if imm8_ok(pre) {
            load_result(advance_pc(pre, 1), post, concat16(0xFF, imm8(pre)), R8::A, 3, r)
        } else {
            post == pre && r == Err::<usize, Fault>(Fault::InvalidAddress)
        },
        Instr::LdhNA => if imm8_ok(pre) {
            store_result(advance_pc(pre, 1), post, concat16(0xFF, imm8(pre)), pre.regs.a, 3, r)
        } else {
            post == pre && r == Err::<usize, Fault>(Fault::InvalidAddress)
        },
        Instr::LdAHld => if mapped(hl16(pre.regs)) {
            post == with_regs(
                pre,
                spec_set_hl(
                    spec_set8(pre.regs, R8::A, read_at(pre, hl16(pre.regs))),
                    wrap_sub16(hl16(pre.regs), 1),
                ),
            ) && r == Ok::<usize, Fault>(2)
        } else {
            post == pre && r == Err::<usize, Fault>(Fault::InvalidAddress)
        },
        Instr::LdHldA => if writable(hl16(pre.regs)) {
            post == with_regs(
                write_at(pre, hl16(pre.regs), pre.regs.a),
                spec_set_hl(pre.regs, wrap_sub16(hl16(pre.regs), 1)),
            ) && r == Ok::<usize, Fault>(2)
        } else {
            post == pre && r == Err::<usize, Fault>(write_fault(hl16(pre.regs)))
        },
        Instr::LdAHli => if mapped(hl16(pre.regs)) {
            post == with_regs(
                pre,
                spec_set_hl(
                    spec_set8(pre.regs, R8::A, read_at(pre, hl16(pre.regs))),
                    wrap_add16(hl16(pre.regs), 1),
                ),
            ) && r == Ok::<usize, Fault>(2)
        } else {
            post == pre && r == Err::<usize, Fault>(Fault::InvalidAddress)
        },
        Instr::LdHliA => if writable(hl16(pre.regs)) {
            post == with_regs(
                write_at(pre, hl16(pre.regs), pre.regs.a),
                spec_set_hl(pre.regs, wrap_add16(hl16(pre.regs), 1)),
            ) && r == Ok::<usize, Fault>(2)
        } else {
            post == pre && r == Err::<usize, Fault>(write_fault(hl16(pre.regs)))
        },
        Instr::LdBcNn => if imm16_ok(pre) {
            post == with_regs(pre, spec_set_bc(pc_plus(pre.regs, 2), imm16(pre))) && r == Ok::<usize, Fault>(3)
        } else {
            post == imm16_fail_post(pre) && r == Err::<usize, Fault>(Fault::InvalidAddress)
        },
        Instr::LdDeNn => if imm16_ok(pre) {
            post == with_regs(pre, spec_set_de(pc_plus(pre.regs, 2), imm16(pre))) && r == Ok::<usize, Fault>(3)
        } else {
            post == imm16_fail_post(pre) && r == Err::<usize, Fault>(Fault::InvalidAddress)
        },
        Instr::LdHlNn => if imm16_ok(pre) {
            post == with_regs(pre, spec_set_hl(pc_plus(pre.regs, 2), imm16(pre))) && r == Ok::<usize, Fault>(3)
        } else {
            post == imm16_fail_post(pre) && r == Err::<usize, Fault>(Fault::InvalidAddress)
        },
        Instr::LdSpNn => if imm16_ok(pre) {
            post == with_regs(pre, spec_set_sp(pc_plus(pre.regs, 2), imm16(pre))) && r == Ok::<usize, Fault>(3)
        } else {
            post == imm16_fail_post(pre) && r == Err::<usize, Fault>(Fault::InvalidAddress)
        },
        Instr::LdNnSp => if imm16_ok(pre) {
            {
                let mid = advance_pc(pre, 2);
                let nn = imm16(pre);
                if !writable(nn) {
                    post == mid && r == Err::<usize, Fault>(write_fault(nn))
                } else {
                    let m1 = write_at(mid, nn, low8(pre.regs.sp));
                    let nn1 = (nn + 1) as u16;
                    if !writable(nn1) {
                        post == m1 && r == Err::<usize, Fault>(write_fault(nn1))
                    } else {
                        post == write_at(m1, nn1, high8(pre.regs.sp)) && r == Ok::<usize, Fault>(5)
                    }
                }
            }
        } else {
            post == imm16_fail_post(pre) && r == Err::<usize, Fault>(Fault::InvalidAddress)
        },
        Instr::LdSpHl => post == with_regs(pre, spec_set_sp(pre.regs, hl16(pre.regs))) && r == Ok::<usize, Fault>(2),
        Instr::PushBc => push_result(pre, post, bc16(pre.regs), r),
        Instr::PushDe => push_result(pre, post, de16(pre.regs), r),
        Instr::PushHl => push_result(pre, post, hl16(pre.regs), r),
        Instr::PushAf => push_result(pre, post, af16(pre.regs), r),
        Instr::PopBc => pop_result(
            pre,
            post,
            spec_set_bc(popped_regs(pre), GioBoyColor::pop_val(pre)),
            r,
        ),
        Instr::PopDe => pop_result(
            pre,
            post,
            spec_set_de(popped_regs(pre), GioBoyColor::pop_val(pre)),
            r,
        ),
        Instr::PopHl => pop_result(
            pre,
            post,
            spec_set_hl(popped_regs(pre), GioBoyColor::pop_val(pre)),
            r,
        ),
        Instr::PopAf => pop_result(
            pre,
            post,
            spec_set_af(popped_regs(pre), GioBoyColor::pop_val(pre) & 0xFFF0),
            r,
        ),
    }
}

/// One whole fetch-decode-execute step: how the machine after the step
/// and the returned cycle count or fault relate to the machine before
/// it. An unmapped program counter faults with nothing changed; an
/// opcode outside the instruction table faults with the opcode carried
/// and no mutation beyond the opcode fetch; a decoded instruction has
/// its own effect, starting from the machine the opcode fetch left.
pub open spec fn step_rel(pre: MachineView, post: MachineView, r: Result<usize, Fault>) -> bool {
    if !mapped(pre.regs.pc) {
        post == pre && r == Err::<usize, Fault>(Fault::InvalidAddress)
    } else {
        let op = read_at(pre, pre.regs.pc);
        match decode_spec(op) {
            None => post == advance_pc(pre, 1) && r == Err::<usize, Fault>(Fault::UnsupportedOpcode(op)),
            Some(i) => instr_effect(advance_pc(pre, 1), post, i, r),
        }
    }
}

/// Writing a byte at a writable address and reading any mapped address
/// back returns the written byte exactly at the same cell — the same
/// store at the same offset, which for distinct addresses happens only
/// through the echo region's mirror of working memory — and the original
/// content everywhere else: regions are isolated.
pub proof fn lemma_region_isolation(m: MachineView, a1: u16, v: u8, a2: u16)
    requires
        m.wf(),
        writable(a1),
        mapped(a2),
    ensures
        read_at(write_at(m, a1, v), a2) == if same_cell(a1, a2) {
            v
        } else {
            read_at(m, a2)
        },
        write_at(m, a1, v).wf(),
        write_at(m, a1, v).regs == m.regs,
{
}

/// Pushing a 16-bit value and then popping returns the value exactly,
/// with the stack pointer back where it started. Popping into the flag
/// pair additionally clears the low nibble, which the pair's own setter
/// states.
pub proof fn lemma_push_pop_round_trip(m: MachineView, v: u16)
    requires
        m.wf(),
        GioBoyColor::push_ok(m),
    ensures
        GioBoyColor::pop_ok(GioBoyColor::push_post(m, v)),
        GioBoyColor::pop_val(GioBoyColor::push_post(m, v)) == v,
        GioBoyColor::pop_post(GioBoyColor::push_post(m, v)).regs.sp == m.regs.sp,
{
    let sp1 = wrap_sub16(m.regs.sp, 1);
    let sp2 = wrap_sub16(m.regs.sp, 2);
    let m1 = write_at(m, sp1, high8(v));
    lemma_region_isolation(m, sp1, high8(v), sp1);
    lemma_writable_distinct(sp2, sp1);
    lemma_region_isolation(m1, sp2, low8(v), sp2);
    lemma_region_isolation(m1, sp2, low8(v), sp1);
    assert(wrap_add16(sp2, 1) == sp1);
    lemma_concat_split(high8(v), low8(v), v);
}

/// One step on the no-operation opcode costs one machine cycle and
/// leaves every register and every store unchanged except the program
/// counter, which advances by exactly one.
pub proof fn lemma_step_nop(pre: MachineView, post: MachineView, r: Result<usize, Fault>)
    requires
        pre.wf(),
        mapped(pre.regs.pc),
        read_at(pre, pre.regs.pc) == 0x00,
        step_rel(pre, post, r),
    ensures
        r == Ok::<usize, Fault>(1),
        post == advance_pc(pre, 1),
        post.regs.pc == wrap_add16(pre.regs.pc, 1),
        post.regs == (Registers { pc: post.regs.pc, ..pre.regs }),
        post.cart == pre.cart && post.vram == pre.vram && post.oam == pre.oam && post.wram
            == pre.wram && post.hram == pre.hram,
{
}

/// One step on the opcode loading an immediate byte into the
/// accumulator costs two machine cycles, advances the program counter by
/// exactly two, and sets the accumulator to the fetched immediate byte;
/// everything else is unchanged.
pub proof fn lemma_step_load_immediate(pre: MachineView, post: MachineView, r: Result<usize, Fault>)
    requires
        pre.wf(),
        mapped(pre.regs.pc),
        mapped(wrap_add16(pre.regs.pc, 1)),
        read_at(pre, pre.regs.pc) == 0x3E,
        step_rel(pre, post, r),
    ensures
        r == Ok::<usize, Fault>(2),
        post.regs.a == read_at(pre, wrap_add16(pre.regs.pc, 1)),
        post.regs.pc == wrap_add16(pre.regs.pc, 2),
        post.regs == (Registers { a: post.regs.a, pc: post.regs.pc, ..pre.regs }),
        post.cart == pre.cart && post.vram == pre.vram && post.oam == pre.oam && post.wram
            == pre.wram && post.hram == pre.hram,
{
    assert(wrap_add16(wrap_add16(pre.regs.pc, 1), 1) == wrap_add16(pre.regs.pc, 2));
}

/// One step on an opcode outside the instruction table deterministically
/// faults with the unsupported opcode carried, and mutates nothing
/// beyond the opcode fetch: only the program counter advances, by one.
pub proof fn lemma_step_unsupported(pre: MachineView, post: MachineView, r: Result<usize, Fault>)
    requires
        pre.wf(),
        mapped(pre.regs.pc),
        (decode_spec(read_at(pre, pre.regs.pc)) is None),
        step_rel(pre, post, r),
    ensures
        r == Err::<usize, Fault>(Fault::UnsupportedOpcode(read_at(pre, pre.regs.pc))),
        post == advance_pc(pre, 1),
        post.regs == (Registers { pc: wrap_add16(pre.regs.pc, 1), ..pre.regs }),
        post.cart == pre.cart && post.vram == pre.vram && post.oam == pre.oam && post.wram
            == pre.wram && post.hram == pre.hram,
{
}

impl GioBoyColor {
    /// Every store is sized exactly to its region.
    pub open spec fn wf(&self) -> bool {
        self@.wf()
    }

    /// A machine at power-on: zero-filled stores sized to their regions,
    /// no cartridge image loaded, and the register file holding the fixed
    /// boot values.
    pub fn new() -> (r: GioBoyColor)
        ensures
            r.wf(),
            !r.rom.loaded(),
            r@.regs.a == 0x01 && r@.regs.f == 0xB0 && r@.regs.b == 0x00 && r@.regs.c == 0x13,
            r@.regs.d == 0x00 && r@.regs.e == 0xD8 && r@.regs.h == 0x01 && r@.regs.l == 0x4D,
            r@.regs.sp == 0xFFFE,
            r@.regs.pc == 0x0100,
            forall|a: u16| mapped(a) ==> read_at(r@, a) == 0u8,
    {
        let r = GioBoyColor {
            rom: Rom::new(),
            ram: zero_store(WRAM_SIZE),
            hram: zero_store(HRAM_SIZE),
            gpu: Gpu::new(),
            registers: Registers::new(),
        };
        r
    }

    /// Replace the cartridge store's contents with a cartridge image; see
    /// the cartridge store's own contract for the resulting bytes.
    pub fn load_rom(&mut self, data: &[u8])
        requires
            old(self).wf(),
        ensures
            final(self).wf(),
            final(self).rom.loaded(),
            forall|i: int|
                0 <= i < CART_STORE_SIZE ==> final(self)@.cart[i] == (if i < data@.len() {
                    data@[i]
                } else {
                    0u8
                }),
            final(self)@.vram == old(self)@.vram,
            final(self)@.oam == old(self)@.oam,
            final(self)@.wram == old(self)@.wram,
            final(self)@.hram == old(self)@.hram,
            final(self)@.regs == old(self)@.regs,
    {
        self.rom.load(data);
    }

    /// Route a read to the store owning the address's region; an address
    /// outside every region is an invalid-address fault.
    pub fn read(&self, address: u16) -> (r: Result<u8, Fault>)
        requires
            self.wf(),
        ensures
            mapped(address) ==> r == Ok::<u8, Fault>(read_at(self@, address)),
            !mapped(address) ==> r == Err::<u8, Fault>(Fault::InvalidAddress),
    {
        if address <= 0x7FFF {
            Ok(self.rom.read(address))
        } else if address <= 0x9FFF {
            Ok(self.gpu.read(address - VRAM_START))
        } else if address <= 0xBFFF {
            Ok(self.rom.read(address))
        } else if address <= 0xDFFF {
            Ok(self.ram[(address - WRAM_START) as usize])
        } else if address <= 0xFDFF {
            Ok(self.ram[(address - ECHO_START) as usize])
        } else if 0xFE00 <= address && address <= 0xFE9F {
            Ok(self.gpu.read_oam(address - OAM_START))
        } else if 0xFF80 <= address && address <= 0xFFFE {
            Ok(self.hram[(address - HRAM_START) as usize])
        } else {
            Err(Fault::InvalidAddress)
        }
    }

    /// Route a write to the store owning the address's region. A write
    /// into the echo region is rejected cleanly with a prohibited-access
    /// fault and no side effect; an address outside every region is an
    /// invalid-address fault.
    pub fn write(&mut self, address: u16, data: u8) -> (r: Result<(), Fault>)
        requires
            old(self).wf(),
        ensures
            final(self).wf(),
            writable(address) ==> r == Ok::<(), Fault>(()) && final(self)@ == write_at(
                old(self)@,
                address,
                data,
            ),
            !writable(address) ==> r == Err::<(), Fault>(write_fault(address)) && final(self)@
                == old(self)@,
            final(self).rom.loaded() == old(self).rom.loaded(),
    {
        if address <= 0x7FFF {
            self.rom.write(address, data);
            proof {
                assert(self@ =~= write_at(old(self)@, address, data));
            }
            Ok(())
        } else if address <= 0x9FFF {
            self.gpu.write(address - VRAM_START, data);
            proof {
                assert(self@ =~= write_at(old(self)@, address, data));
            }
            Ok(())
        } else if address <= 0xBFFF {
            self.rom.write(address, data);
            proof {
                assert(self@ =~= write_at(old(self)@, address, data));
            }
            Ok(())
        } else if address <= 0xDFFF {
            self.ram.set((address - WRAM_START) as usize, data);
            proof {
                assert(self@ =~= write_at(old(self)@, address, data));
            }
            Ok(())
        } else if address <= 0xFDFF {
            Err(Fault::ProhibitedAccess)
        } else if 0xFE00 <= address && address <= 0xFE9F {
            self.gpu.write_oam(address - OAM_START, data);
            proof {
                assert(self@ =~= write_at(old(self)@, address, data));
            }
            Ok(())
        } else if 0xFF80 <= address && address <= 0xFFFE {
            self.hram.set((address - HRAM_START) as usize, data);
            proof {
                assert(self@ =~= write_at(old(self)@, address, data));
            }
            Ok(())
        } else {
            Err(Fault::InvalidAddress)
        }
    }

    /// Fetch the byte at the program counter and advance the counter by
    /// one, wrapping at the 16-bit boundary. An unmapped counter is an
    /// invalid-address fault that leaves the machine unchanged.
    pub fn next_byte(&mut self) -> (r: Result<u8, Fault>)
        requires
            old(self).wf(),
        ensures
            final(self).wf(),
            mapped(old(self)@.regs.pc) ==> r == Ok::<u8, Fault>(read_at(
                old(self)@,
                old(self)@.regs.pc,
            )) && final(self)@ == advance_pc(old(self)@, 1),
            !mapped(old(self)@.regs.pc) ==> r == Err::<u8, Fault>(Fault::InvalidAddress) && final(self)@ == old(self)@,
            final(self).rom.loaded() == old(self).rom.loaded(),
    {
        let byte = match self.read(self.registers.pc) {
            Ok(b) => b,
            Err(e) => {
                return Err(e);
            },
        };
        self.registers.pc = self.registers.pc.wrapping_add(1);
        proof {
            assert(self@ =~= advance_pc(old(self)@, 1));
        }
        Ok(byte)
    }

    /// Fetch the next two bytes, low byte first, and combine them into a
    /// 16-bit pointer: the console's little-endian immediate-pointer
    /// convention. A fault leaves the counter where the failing fetch
    /// found it.
    pub fn next_pointer(&mut self) -> (r: Result<u16, Fault>)
        requires
            old(self).wf(),
        ensures
            final(self).wf(),
            ({
                let pc = old(self)@.regs.pc;
                let pc1 = wrap_add16(pc, 1);
                &&& (mapped(pc) && mapped(pc1)) ==> r == Ok::<u16, Fault>(concat16(
                    read_at(old(self)@, pc1),
                    read_at(old(self)@, pc),
                )) && final(self)@ == advance_pc(old(self)@, 2)
                &&& (mapped(pc) && !mapped(pc1)) ==> r == Err::<u16, Fault>(Fault::InvalidAddress)
                    && final(self)@ == advance_pc(old(self)@, 1)
                &&& !mapped(pc) ==> r == Err::<u16, Fault>(Fault::InvalidAddress) && final(self)@
                    == old(self)@
            }),
            final(self).rom.loaded() == old(self).rom.loaded(),
    {
        let lo = match self.next_byte() {
            Ok(b) => b,
            Err(e) => {
                return Err(e);
            },
        };
        let hi = match self.next_byte() {
            Ok(b) => b,
            Err(e) => {
                return Err(e);
            },
        };
        proof {
            assert(self@ =~= advance_pc(old(self)@, 2));
        }
        Ok(combine(hi, lo))
    }

    /// The two stack slots a push would fill accept writes: the slot one
    /// and the slot two below the stack pointer, wrapping at the 16-bit
    /// boundary.
    pub open spec fn push_ok(pre: MachineView) -> bool {
        writable(wrap_sub16(pre.regs.sp, 1)) && writable(wrap_sub16(pre.regs.sp, 2))
    }

    /// The machine after a successful push of a 16-bit value: the stack
    /// grows downward, the high byte stored at the higher address, and
    /// the stack pointer ends two below where it started.
    pub open spec fn push_post(pre: MachineView, v: u16) -> MachineView {
        let sp1 = wrap_sub16(pre.regs.sp, 1);
        let sp2 = wrap_sub16(pre.regs.sp, 2);
        with_regs(
            write_at(write_at(pre, sp1, high8(v)), sp2, low8(v)),
            spec_set_sp(pre.regs, sp2),
        )
    }

    /// The fault a failing push raises: the first of its two slots that
    /// rejects the write decides.
    pub open spec fn push_fault(pre: MachineView) -> Fault {
        let sp1 = wrap_sub16(pre.regs.sp, 1);
        let sp2 = wrap_sub16(pre.regs.sp, 2);
        if !writable(sp1) {
            write_fault(sp1)
        } else {
            write_fault(sp2)
        }
    }

    /// The machine after a failing push: the stack pointer is untouched,
    /// and only a write that succeeded before the failing one is applied.
    pub open spec fn push_fail_post(pre: MachineView, v: u16) -> MachineView {
        let sp1 = wrap_sub16(pre.regs.sp, 1);
        if !writable(sp1) {
            pre
        } else {
            write_at(pre, sp1, high8(v))
        }
    }

    /// Push a 16-bit value onto the stack: write the high byte one below
    /// the stack pointer, the low byte two below, then lower the pointer
    /// by two. A rejected write leaves the stack pointer untouched.
    pub fn push(&mut self, data: u16) -> (r: Result<(), Fault>)
        requires
            old(self).wf(),
        ensures
            final(self).wf(),
            Self::push_ok(old(self)@) ==> r == Ok::<(), Fault>(()) && final(self)@
                == Self::push_post(old(self)@, data),
            !Self::push_ok(old(self)@) ==> r == Err::<(), Fault>(Self::push_fault(old(self)@))
                && final(self)@ == Self::push_fail_post(old(self)@, data),
            final(self).rom.loaded() == old(self).rom.loaded(),
    {
        let sp1 = self.registers.sp.wrapping_sub(1);
        let sp2 = self.registers.sp.wrapping_sub(2);
        match self.write(sp1, high(data)) {
            Ok(u) => u,
            Err(e) => {
                return Err(e);
            },
        };
        match self.write(sp2, low(data)) {
            Ok(u) => u,
            Err(e) => {
                return Err(e);
            },
        };
        self.registers.sp = sp2;
        proof {
            assert(self@ =~= Self::push_post(old(self)@, data));
        }
        Ok(())
    }

    /// The two stack slots a pop would read are mapped: the slot at the
    /// stack pointer and the slot above it, wrapping at the 16-bit
    /// boundary.
    pub open spec fn pop_ok(pre: MachineView) -> bool {
        mapped(pre.regs.sp) && mapped(wrap_add16(pre.regs.sp, 1))
    }

    /// The 16-bit value a pop returns: low byte at the stack pointer,
    /// high byte above it.
    pub open spec fn pop_val(pre: MachineView) -> u16 {
        concat16(read_at(pre, wrap_add16(pre.regs.sp, 1)), read_at(pre, pre.regs.sp))
    }

    /// The machine after a successful pop: memory untouched, the stack
    /// pointer two above where it started.
    pub open spec fn pop_post(pre: MachineView) -> MachineView {
        with_regs(pre, spec_set_sp(pre.regs, wrap_add16(pre.regs.sp, 2)))
    }

    /// Pop a 16-bit value from the stack: read the low byte at the stack
    /// pointer, the high byte above it, then raise the pointer by two. An
    /// unmapped slot is an invalid-address fault that leaves the machine
    /// unchanged.
    pub fn pop(&mut self) -> (r: Result<u16, Fault>)
        requires
            old(self).wf(),
        ensures
            final(self).wf(),
            Self::pop_ok(old(self)@) ==> r == Ok::<u16, Fault>(Self::pop_val(old(self)@)) && final(self)@ == Self::pop_post(old(self)@),
            !Self::pop_ok(old(self)@) ==> r == Err::<u16, Fault>(Fault::InvalidAddress) && final(self)@ == old(self)@,
            final(self).rom.loaded() == old(self).rom.loaded(),
    {
        let lo = match self.read(self.registers.sp) {
            Ok(b) => b,
            Err(e) => {
                return Err(e);
            },
        };
        let hi = match self.read(self.registers.sp.wrapping_add(1)) {
            Ok(b) => b,
            Err(e) => {
                return Err(e);
            },
        };
        self.registers.sp = self.registers.sp.wrapping_add(2);
        proof {
            assert(self@ =~= Self::pop_post(old(self)@));
        }
        Ok(combine(hi, lo))
    }

    /// Load the byte at `address` into register `d`, reporting `cycles`.
    fn load_into(&mut self, address: u16, d: R8, cycles: usize) -> (r: Result<usize, Fault>)
        requires
            old(self).wf(),
        ensures
            final(self).wf(),
            load_result(old(self)@, final(self)@, address, d, cycles, r),
            final(self).rom.loaded() == old(self).rom.loaded(),
    {
        let v = match self.read(address) {
            Ok(v) => v,
            Err(e) => {
                return Err(e);
            },
        };
        reg_set(&mut self.registers, d, v);
        proof {
            assert(self@ =~= with_regs(
                old(self)@,
                spec_set8(old(self)@.regs, d, read_at(old(self)@, address)),
            ));
        }
        Ok(cycles)
    }

    /// Store byte `v` at `address`, reporting `cycles`.
    fn store_to(&mut self, address: u16, v: u8, cycles: usize) -> (r: Result<usize, Fault>)
        requires
            old(self).wf(),
        ensures
            final(self).wf(),
            store_result(old(self)@, final(self)@, address, v, cycles, r),
            final(self).rom.loaded() == old(self).rom.loaded(),
    {
        match self.write(address, v) {
            Ok(u) => u,
            Err(e) => {
                return Err(e);
            },
        };
        Ok(cycles)
    }

    /// Execute one decoded instruction against the machine, returning the
    /// machine cycles it consumed or the fault that stopped it.
    #[verifier::rlimit(100)]
    #[verifier::spinoff_prover]
    pub fn execute(&mut self, i: Instr) -> (r: Result<usize, Fault>)
        requires
            old(self).wf(),
        ensures
            final(self).wf(),
            instr_effect(old(self)@, final(self)@, i, r),
            final(self).rom.loaded() == old(self).rom.loaded(),
    {
        match i {
            Instr::Nop => Ok(1),
            Instr::Stop => Ok(1),
            Instr::LdRR(d, s) => {
                let v = reg_get(&self.registers, s);
                reg_set(&mut self.registers, d, v);
                proof {
                    assert(self@ =~= with_regs(
                        old(self)@,
                        spec_set8(old(self)@.regs, d, spec_get8(old(self)@.regs, s)),
                    ));
                }
                Ok(1)
            },
            Instr::LdRN(d) => {
                let n = match self.next_byte() {
                    Ok(b) => b,
                    Err(e) => {
                        return Err(e);
                    },
                };
                reg_set(&mut self.registers, d, n);
                proof {
                    assert(self@ =~= with_regs(
                        old(self)@,
                        spec_set8(pc_plus(old(self)@.regs, 1), d, imm8(old(self)@)),
                    ));
                }
                Ok(2)
            },
            Instr::LdRHl(d) => {
                let a = self.registers.hl();
                self.load_into(a, d, 2)
            },
            Instr::LdHlR(s) => {
                let a = self.registers.hl();
                let v = reg_get(&self.registers, s);
                self.store_to(a, v, 2)
            },
            Instr::LdHlN => {
                let n = match self.next_byte() {
                    Ok(b) => b,
                    Err(e) => {
                        return Err(e);
                    },
                };
                let a = self.registers.hl();
                self.store_to(a, n, 3)
            },
            Instr::LdABc => {
                let a = self.registers.bc();
                self.load_into(a, R8::A, 2)
            },
            Instr::LdADe => {
                let a = self.registers.de();
                self.load_into(a, R8::A, 2)
            },
            Instr::LdBcA => {
                let a = self.registers.bc();
                let v = self.registers.a;
                self.store_to(a, v, 2)
            },
            Instr::LdDeA => {
                let a = self.registers.de();
                let v = self.registers.a;
                self.store_to(a, v, 2)
            },
            Instr::LdANn => {
                let nn = match self.next_pointer() {
                    Ok(w) => w,
                    Err(e) => {
                        return Err(e);
                    },
                };
                self.load_into(nn, R8::A, 4)
            },
            Instr::LdNnA => {
                let nn = match self.next_pointer() {
                    Ok(w) => w,
                    Err(e) => {
                        return Err(e);
                    },
                };
                let v = self.registers.a;
                self.store_to(nn, v, 4)
            },
            Instr::LdhAC => {
                let a = combine(0xFF, self.registers.c);
                self.load_into(a, R8::A, 2)
            },
            Instr::LdhCA => {
                let a = combine(0xFF, self.registers.c);
                let v = self.registers.a;
                self.store_to(a, v, 2)
            },
            Instr::LdhAN => {
                let n = match self.next_byte() {
                    Ok(b) => b,
                    Err(e) => {
                        return Err(e);
                    },
                };
                let a = combine(0xFF, n);
                self.load_into(a, R8::A, 3)
            },
            Instr::LdhNA => {
                let n = match self.next_byte() {
                    Ok(b) => b,
                    Err(e) => {
                        return Err(e);
                    },
                };
                let a = combine(0xFF, n);
                let v = self.registers.a;
                self.store_to(a, v, 3)
            },
            Instr::LdAHld => {
                let a = self.registers.hl();
                let cycles = match self.load_into(a, R8::A, 2) {
                    Ok(c) => c,
                    Err(e) => {
                        return Err(e);
                    },
                };
                self.registers.hld();
                Ok(cycles)
            },
            Instr::LdHldA => {
                let a = self.registers.hl();
                let v = self.registers.a;
                let cycles = match self.store_to(a, v, 2) {
                    Ok(c) => c,
                    Err(e) => {
                        return Err(e);
                    },
                };
                self.registers.hld();
                Ok(cycles)
            },
            Instr::LdAHli => {
                let a = self.registers.hl();
                let cycles = match self.load_into(a, R8::A, 2) {
                    Ok(c) => c,
                    Err(e) => {
                        return Err(e);
                    },
                };
                self.registers.hli();
                Ok(cycles)
            },
            Instr::LdHliA => {
                let a = self.registers.hl();
                let v = self.registers.a;
                let cycles = match self.store_to(a, v, 2) {
                    Ok(c) => c,
                    Err(e) => {
                        return Err(e);
                    },
                };
                self.registers.hli();
                Ok(cycles)
            },
            Instr::LdBcNn => {
                let nn = match self.next_pointer() {
                    Ok(w) => w,
                    Err(e) => {
                        return Err(e);
                    },
                };
                self.registers.set_bc(nn);
                Ok(3)
            },
            Instr::LdDeNn => {
                let nn = match self.next_pointer() {
                    Ok(w) => w,
                    Err(e) => {
                        return Err(e);
                    },
                };
                self.registers.set_de(nn);
                Ok(3)
            },
            Instr::LdHlNn => {
                let nn = match self.next_pointer() {
                    Ok(w) => w,
                    Err(e) => {
                        return Err(e);
                    },
                };
                self.registers.set_hl(nn);
                Ok(3)
            },
            Instr::LdSpNn => {
                let nn = match self.next_pointer() {
                    Ok(w) => w,
                    Err(e) => {
                        return Err(e);
                    },
                };
                self.registers.sp = nn;
                Ok(3)
            },
            Instr::LdNnSp => {
                let nn = match self.next_pointer() {
                    Ok(w) => w,
                    Err(e) => {
                        return Err(e);
                    },
                };
                let sp_low = low(self.registers.sp);
                match self.write(nn, sp_low) {
                    Ok(u) => u,
                    Err(e) => {
                        return Err(e);
                    },
                };
                let sp_high = high(self.registers.sp);
                match self.write(nn + 1, sp_high) {
                    Ok(u) => u,
                    Err(e) => {
                        return Err(e);
                    },
                };
                Ok(5)
            },
            Instr::LdSpHl => {
                self.registers.sp = self.registers.hl();
                Ok(2)
            },
            Instr::PushBc => {
                let v = self.registers.bc();
                match self.push(v) {
                    Ok(u) => u,
                    Err(e) => {
                        return Err(e);
                    },
                };
                Ok(4)
            },
            Instr::PushDe => {
                let v = self.registers.de();
                match self.push(v) {
                    Ok(u) => u,
                    Err(e) => {
                        return Err(e);
                    },
                };
                Ok(4)
            },
            Instr::PushHl => {
                let v = self.registers.hl();
                match self.push(v) {
                    Ok(u) => u,
                    Err(e) => {
                        return Err(e);
                    },
                };
                Ok(4)
            },
            Instr::PushAf => {
                let v = self.registers.af();
                match self.push(v) {
                    Ok(u) => u,
                    Err(e) => {
                        return Err(e);
                    },
                };
                Ok(4)
            },
            Instr::PopBc => {
                let v = match self.pop() {
                    Ok(w) => w,
                    Err(e) => {
                        return Err(e);
                    },
                };
                self.registers.set_bc(v);
                Ok(3)
            },
            Instr::PopDe => {
                let v = match self.pop() {
                    Ok(w) => w,
                    Err(e) => {
                        return Err(e);
                    },
                };
                self.registers.set_de(v);
                Ok(3)
            },
            Instr::PopHl => {
                let v = match self.pop() {
                    Ok(w) => w,
                    Err(e) => {
                        return Err(e);
                    },
                };
                self.registers.set_hl(v);
                Ok(3)
            },
            Instr::PopAf => {
                let v = match self.pop() {
                    Ok(w) => w,
                    Err(e) => {
                        return Err(e);
                    },
                };
                self.registers.set_af(v & 0xFFF0);
                Ok(3)
            },
        }
    }

    /// Dispatch one opcode byte through the instruction table and execute
    /// it. An opcode outside the table is an unsupported-opcode fault
    /// carrying the opcode value, with nothing changed.
    pub fn execute_instruction(&mut self, opcode: u8) -> (r: Result<usize, Fault>)
        requires
            old(self).wf(),
        ensures
            final(self).wf(),
            match decode_spec(opcode) {
                None => r == Err::<usize, Fault>(Fault::UnsupportedOpcode(opcode)) && final(self)@
                    == old(self)@,
                Some(i) => instr_effect(old(self)@, final(self)@, i, r),
            },
            final(self).rom.loaded() == old(self).rom.loaded(),
    {
        match decode(opcode) {
            Some(i) => self.execute(i),
            None => Err(Fault::UnsupportedOpcode(opcode)),
        }
    }

    /// Perform one fetch-decode-execute cycle: fetch the opcode byte at
    /// the program counter, advancing the counter past it, dispatch on
    /// the opcode, execute the operation, and return the machine cycles
    /// consumed.
    pub fn step(&mut self) -> (r: Result<usize, Fault>)
        requires
            old(self).wf(),
        ensures
            final(self).wf(),
            step_rel(old(self)@, final(self)@, r),
            final(self).rom.loaded() == old(self).rom.loaded(),
    {
        let opcode = match self.next_byte() {
            Ok(b) => b,
            Err(e) => {
                return Err(e);
            },
        };
        self.execute_instruction(opcode)
    }
}

/// A zero-filled byte store of the given size.
fn zero_store(size: usize) -> (r: Vec<u8>)
    ensures
        r@ == Seq::<u8>::new(size as nat, |i: int| 0u8),
{
    let mut bytes: Vec<u8> = Vec::new();
    let mut i: usize = 0;
    while i < size
        invariant
            i <= size,
            bytes@ =~= Seq::<u8>::new(i as nat, |j: int| 0u8),
        decreases size - i,
    {
        bytes.push(0);
        i = i + 1;
    }
    proof {
        assert(bytes@ =~= Seq::<u8>::new(size as nat, |j: int| 0u8));
    }
    bytes
}

} // verus!

