use gioboy_color::gbc::{Fault, GioBoyColor};

#[test]
fn wram_write_read_back() {
    let mut m = GioBoyColor::new();
    assert_eq!(m.write(0xC123, 0xAB), Ok(()));
    assert_eq!(m.read(0xC123), Ok(0xAB));
}

#[test]
fn vram_write_read_back() {
    let mut m = GioBoyColor::new();
    assert_eq!(m.write(0x8123, 0x55), Ok(()));
    assert_eq!(m.read(0x8123), Ok(0x55));
}

#[test]
fn cartridge_rom_write_read_back() {
    let mut m = GioBoyColor::new();
    assert_eq!(m.write(0x0123, 0x77), Ok(()));
    assert_eq!(m.read(0x0123), Ok(0x77));
}

#[test]
fn cartridge_ram_write_read_back() {
    let mut m = GioBoyColor::new();
    assert_eq!(m.write(0xA123, 0x99), Ok(()));
    assert_eq!(m.read(0xA123), Ok(0x99));
}

#[test]
fn oam_write_read_back() {
    let mut m = GioBoyColor::new();
    assert_eq!(m.write(0xFE10, 0x42), Ok(()));
    assert_eq!(m.read(0xFE10), Ok(0x42));
}

#[test]
fn hram_write_read_back() {
    let mut m = GioBoyColor::new();
    assert_eq!(m.write(0xFF85, 0x24), Ok(()));
    assert_eq!(m.read(0xFF85), Ok(0x24));
}

#[test]
fn regions_are_isolated() {
    // The same offset within other regions keeps its original content.
    let mut m = GioBoyColor::new();
    assert_eq!(m.write(0xC123, 0xAB), Ok(()));
    assert_eq!(m.read(0x8123), Ok(0x00));
    assert_eq!(m.read(0xFE10), Ok(0x00));
    assert_eq!(m.read(0xFF85), Ok(0x00));
    assert_eq!(m.read(0x0123), Ok(0x00));
    assert_eq!(m.read(0xA123), Ok(0x00));
}

#[test]
fn oam_is_not_vram() {
    let mut m = GioBoyColor::new();
    assert_eq!(m.write(0xFE05, 0x11), Ok(()));
    // Graphics memory at the same offset is untouched.
    assert_eq!(m.read(0x8005), Ok(0x00));
    assert_eq!(m.write(0x8005, 0x22), Ok(()));
    assert_eq!(m.read(0xFE05), Ok(0x11));
}

#[test]
fn echo_read_mirrors_wram() {
    let mut m = GioBoyColor::new();
    assert_eq!(m.write(0xC005, 0x5A), Ok(()));
    assert_eq!(m.read(0xE005), Ok(0x5A));
    assert_eq!(m.write(0xDDFF, 0xA5), Ok(()));
    assert_eq!(m.read(0xFDFF), Ok(0xA5));
}

#[test]
fn echo_write_is_rejected_cleanly() {
    let mut m = GioBoyColor::new();
    assert_eq!(m.write(0xC005, 0x5A), Ok(()));
    assert_eq!(m.write(0xE005, 0x77), Err(Fault::ProhibitedAccess));
    // No side effect: the mirrored working-memory byte is unchanged.
    assert_eq!(m.read(0xC005), Ok(0x5A));
    assert_eq!(m.read(0xE005), Ok(0x5A));
}

#[test]
fn unmapped_addresses_fault() {
    let mut m = GioBoyColor::new();
    assert_eq!(m.read(0xFEA0), Err(Fault::InvalidAddress));
    assert_eq!(m.read(0xFF00), Err(Fault::InvalidAddress));
    assert_eq!(m.read(0xFF7F), Err(Fault::InvalidAddress));
    assert_eq!(m.read(0xFFFF), Err(Fault::InvalidAddress));
    assert_eq!(m.write(0xFEA0, 0x01), Err(Fault::InvalidAddress));
    assert_eq!(m.write(0xFFFF, 0x01), Err(Fault::InvalidAddress));
}

#[test]
fn new_machine_memory_is_zeroed() {
    let m = GioBoyColor::new();
    assert_eq!(m.read(0x0000), Ok(0x00));
    assert_eq!(m.read(0x9FFF), Ok(0x00));
    assert_eq!(m.read(0xDFFF), Ok(0x00));
    assert_eq!(m.read(0xFE9F), Ok(0x00));
    assert_eq!(m.read(0xFFFE), Ok(0x00));
}

#[test]
fn push_pop_round_trips_raw_values() {
    let mut m = GioBoyColor::new();
    m.registers.sp = 0xD000;
    assert_eq!(m.push(0x1234), Ok(()));
    assert_eq!(m.registers.sp, 0xCFFE);
    assert_eq!(m.pop(), Ok(0x1234));
    assert_eq!(m.registers.sp, 0xD000);
}

#[test]
fn push_stores_high_byte_at_higher_address() {
    let mut m = GioBoyColor::new();
    m.registers.sp = 0xD000;
    assert_eq!(m.push(0x1234), Ok(()));
    assert_eq!(m.read(0xCFFF), Ok(0x12));
    assert_eq!(m.read(0xCFFE), Ok(0x34));
}

#[test]
fn push_into_echo_is_rejected() {
    let mut m = GioBoyColor::new();
    m.registers.sp = 0xF000;
    assert_eq!(m.push(0x1234), Err(Fault::ProhibitedAccess));
    assert_eq!(m.registers.sp, 0xF000);
}

#[test]
fn pop_from_unmapped_faults() {
    let mut m = GioBoyColor::new();
    m.registers.sp = 0xFFFF;
    assert_eq!(m.pop(), Err(Fault::InvalidAddress));
    assert_eq!(m.registers.sp, 0xFFFF);
}
