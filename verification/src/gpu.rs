//! The graphics collaborator: the graphics-memory store and the sprite
//! table. For this core both are passive byte storage consumed by the
//! memory bus; rendering is out of scope.

use vstd::prelude::*;

use crate::memory_map::{OAM_SIZE, VRAM_SIZE};

verus! {

/// The graphics store and the sprite table. The sprite table is a
/// dedicated 160-byte store, not part of the graphics-memory array.
pub struct Gpu {
    vram: Vec<u8>,
    oam: Vec<u8>,
}

/// What the graphics collaborator holds: the graphics-memory bytes and
/// the sprite-table bytes.
pub struct GpuView {
    /// The graphics-memory bytes.
    pub vram: Seq<u8>,
    /// The sprite-table bytes.
    pub oam: Seq<u8>,
}

impl View for Gpu {
    type V = GpuView;

    closed spec fn view(&self) -> GpuView {
        GpuView { vram: self.vram@, oam: self.oam@ }
    }
}

/// A zero-filled byte store of the given size.
fn zeroed(size: usize) -> (r: Vec<u8>)
    ensures
        r@ == Seq::<u8>::new(size as nat, |i: int| 0u8),
{
    let mut bytes: Vec<u8> = Vec::new();
    let mut i: usize = 0;
    while i < size
        invariant
            i <= size,
            bytes@ =~= Seq::<u8>::new(i as nat, |j: int| 0u8),
        decreases size - i,
    {
        bytes.push(0);
        i = i + 1;
    }
    proof {
        assert(bytes@ =~= Seq::<u8>::new(size as nat, |j: int| 0u8));
    }
    bytes
}

impl Gpu {
    /// Each store holds one byte per address of its region.
    pub open spec fn wf(&self) -> bool {
        self@.vram.len() == VRAM_SIZE && self@.oam.len() == OAM_SIZE
    }

    /// Zero-filled graphics memory and sprite table, each sized exactly
    /// to its region.
    pub fn new() -> (r: Gpu)
        ensures
            r.wf(),
            r@.vram == Seq::<u8>::new(VRAM_SIZE as nat, |i: int| 0u8),
            r@.oam == Seq::<u8>::new(OAM_SIZE as nat, |i: int| 0u8),
    {
        Gpu { vram: zeroed(VRAM_SIZE), oam: zeroed(OAM_SIZE) }
    }

    /// The graphics-memory byte at an offset within the region.
    pub fn read(&self, address: u16) -> (r: u8)
        requires
            (address as int) < self@.vram.len(),
        ensures
            r == self@.vram[address as int],
    {
        self.vram[address as usize]
    }

    /// Store a graphics-memory byte at an offset within the region.
    pub fn write(&mut self, address: u16, data: u8)
        requires
            (address as int) < old(self)@.vram.len(),
        ensures
            final(self)@.vram == old(self)@.vram.update(address as int, data),
            final(self)@.oam == old(self)@.oam,
    {
        self.vram.set(address as usize, data);
    }

    /// The sprite-table byte at an offset within the sprite region.
    pub fn read_oam(&self, address: u16) -> (r: u8)
        requires
            (address as int) < self@.oam.len(),
        ensures
            r == self@.oam[address as int],
    {
        self.oam[address as usize]
    }

    /// Store a sprite-table byte at an offset within the sprite region.
    pub fn write_oam(&mut self, address: u16, data: u8)
        requires
            (address as int) < old(self)@.oam.len(),
        ensures
            final(self)@.oam == old(self)@.oam.update(address as int, data),
            final(self)@.vram == old(self)@.vram,
    {
        self.oam.set(address as usize, data);
    }
}

} // verus!
