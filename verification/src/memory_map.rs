//! The 16-bit address space and its partition into hardware regions, each
//! owned by exactly one backing store.

use vstd::prelude::*;

verus! {

/// First address of the cartridge ROM region.
pub const ROM_START: u16 = 0x0000;

/// Last address of the cartridge ROM region.
pub const ROM_END: u16 = 0x7FFF;

/// First address of the graphics-memory region.
pub const VRAM_START: u16 = 0x8000;

/// Last address of the graphics-memory region.
pub const VRAM_END: u16 = 0x9FFF;

/// First address of the cartridge RAM region.
pub const ERAM_START: u16 = 0xA000;

/// Last address of the cartridge RAM region.
pub const ERAM_END: u16 = 0xBFFF;

/// First address of the working-memory region.
pub const WRAM_START: u16 = 0xC000;

/// Last address of the working-memory region.
pub const WRAM_END: u16 = 0xDFFF;

/// First address of the echo region, which mirrors working memory for
/// reads and rejects writes.
pub const ECHO_START: u16 = 0xE000;

/// Last address of the echo region.
pub const ECHO_END: u16 = 0xFDFF;

/// First address of the sprite-memory region.
pub const OAM_START: u16 = 0xFE00;

/// Last address of the sprite-memory region.
pub const OAM_END: u16 = 0xFE9F;

/// First address of the high-speed-memory region.
pub const HRAM_START: u16 = 0xFF80;

/// Last address of the high-speed-memory region.
pub const HRAM_END: u16 = 0xFFFE;

/// Size of the cartridge store: it is indexed with absolute addresses and
/// covers both cartridge regions, so it spans up to the end of cartridge
/// RAM.
pub const CART_STORE_SIZE: usize = 0xC000;

/// Size of the graphics store.
pub const VRAM_SIZE: usize = 0x2000;

/// Size of the working-memory store.
pub const WRAM_SIZE: usize = 0x2000;

/// Size of the sprite store.
pub const OAM_SIZE: usize = 0xA0;

/// Size of the high-speed store.
pub const HRAM_SIZE: usize = 0x7F;

/// The address lies in the cartridge ROM region.
pub open spec fn in_rom(a: u16) -> bool {
    a <= ROM_END
}

/// The address lies in the graphics-memory region.
pub open spec fn in_vram(a: u16) -> bool {
    VRAM_START <= a <= VRAM_END
}

/// The address lies in the cartridge RAM region.
pub open spec fn in_eram(a: u16) -> bool {
    ERAM_START <= a <= ERAM_END
}

/// The address lies in the working-memory region.
pub open spec fn in_wram(a: u16) -> bool {
    WRAM_START <= a <= WRAM_END
}

/// The address lies in the echo region.
pub open spec fn in_echo(a: u16) -> bool {
    ECHO_START <= a <= ECHO_END
}

/// The address lies in the sprite-memory region.
pub open spec fn in_oam(a: u16) -> bool {
    OAM_START <= a <= OAM_END
}

/// The address lies in the high-speed-memory region.
pub open spec fn in_hram(a: u16) -> bool {
    HRAM_START <= a <= HRAM_END
}

/// The address belongs to some defined region, so a read of it is routed
/// to a backing store.
pub open spec fn mapped(a: u16) -> bool {
    in_rom(a) || in_vram(a) || in_eram(a) || in_wram(a) || in_echo(a) || in_oam(a) || in_hram(a)
}

/// The address accepts writes: it is mapped and not in the echo region,
/// whose writes are architecturally prohibited.
pub open spec fn writable(a: u16) -> bool {
    mapped(a) && !in_echo(a)
}

/// The backing store a mapped address is routed to.
#[derive(Clone, Copy, PartialEq, Eq, Structural, Debug)]
pub enum Store {
    /// The cartridge store, owning both cartridge regions.
    Cartridge,
    /// The graphics store.
    Vram,
    /// The working-memory store, owning both its own region and, for
    /// reads, the echo region.
    Wram,
    /// The sprite store.
    Oam,
    /// The high-speed store.
    Hram,
}

/// The store that owns a mapped address.
pub open spec fn store_of(a: u16) -> Store
    recommends
        mapped(a),
{
    if in_rom(a) || in_eram(a) {
        Store::Cartridge
    } else if in_vram(a) {
        Store::Vram
    } else if in_wram(a) || in_echo(a) {
        Store::Wram
    } else if in_oam(a) {
        Store::Oam
    } else {
        Store::Hram
    }
}

/// The offset within its owning store that a mapped address is routed to.
/// The cartridge store is indexed with the absolute address; every other
/// store with the distance from its region's start, the echo region with
/// the distance from the echo region's start.
pub open spec fn offset_of(a: u16) -> int
    recommends
        mapped(a),
{
    if in_rom(a) || in_eram(a) {
        a as int
    } else if in_vram(a) {
        a - VRAM_START
    } else if in_wram(a) {
        a - WRAM_START
    } else if in_echo(a) {
        a - ECHO_START
    } else if in_oam(a) {
        a - OAM_START
    } else {
        a - HRAM_START
    }
}

/// Two mapped addresses reach the same byte cell: the same store at the
/// same offset. Distinct addresses can alias only through the echo
/// region, which shares the working-memory store.
pub open spec fn same_cell(a1: u16, a2: u16) -> bool {
    store_of(a1) == store_of(a2) && offset_of(a1) == offset_of(a2)
}

/// The regions are pairwise disjoint: every mapped address lies in
/// exactly one of them, so the bus routes it to exactly one store.
pub proof fn lemma_regions_disjoint(a: u16)
    ensures
        in_rom(a) ==> !in_vram(a) && !in_eram(a) && !in_wram(a) && !in_echo(a) && !in_oam(a)
            && !in_hram(a),
        in_vram(a) ==> !in_eram(a) && !in_wram(a) && !in_echo(a) && !in_oam(a) && !in_hram(a),
        in_eram(a) ==> !in_wram(a) && !in_echo(a) && !in_oam(a) && !in_hram(a),
        in_wram(a) ==> !in_echo(a) && !in_oam(a) && !in_hram(a),
        in_echo(a) ==> !in_oam(a) && !in_hram(a),
        in_oam(a) ==> !in_hram(a),
{
}

/// Distinct writable addresses never share a byte cell: aliasing exists
/// only between the echo region and working memory, and the echo region
/// is not writable.
pub proof fn lemma_writable_distinct(a1: u16, a2: u16)
    requires
        writable(a1),
        writable(a2),
        a1 != a2,
    ensures
        !same_cell(a1, a2),
{
}

} // verus!
