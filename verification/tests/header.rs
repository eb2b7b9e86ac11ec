use gioboy_color::gbc::GioBoyColor;
use gioboy_color::rom::{cartridge_type_text, cgb_flag_text, ram_size_text, rom_size_text,
    sgb_flag_text, Rom};

/// A cartridge image with the given title bytes placed in the header's
/// title window.
fn image_with_title(title: &[u8]) -> Vec<u8> {
    let mut image = vec![0u8; 0x200];
    for (i, &b) in title.iter().enumerate() {
        image[0x134 + i] = b;
    }
    image
}

#[test]
fn title_stops_at_first_zero_byte() {
    let mut rom = Rom::new();
    rom.load(&image_with_title(b"HELLO\0WORLD"));
    assert_eq!(rom.title(), "HELLO");
}

#[test]
fn title_stops_after_sixteen_bytes() {
    let mut rom = Rom::new();
    // Seventeen nonzero bytes: only the 16-byte window is consumed.
    rom.load(&image_with_title(b"ABCDEFGHIJKLMNOPQ"));
    assert_eq!(rom.title(), "ABCDEFGHIJKLMNOP");
}

#[test]
fn title_of_exactly_sixteen_bytes() {
    let mut rom = Rom::new();
    rom.load(&image_with_title(b"ABCDEFGHIJKLMNOP"));
    assert_eq!(rom.title(), "ABCDEFGHIJKLMNOP");
}

#[test]
fn title_empty_when_window_starts_with_zero() {
    let mut rom = Rom::new();
    rom.load(&image_with_title(b"\0HIDDEN"));
    assert_eq!(rom.title(), "");
}

#[test]
fn rom_starts_unloaded_and_loading_sets_the_flag() {
    let mut rom = Rom::new();
    assert!(!rom.is_loaded);
    rom.load(&[0x01, 0x02]);
    assert!(rom.is_loaded);
    assert_eq!(rom.read(0x0000), 0x01);
    assert_eq!(rom.read(0x0001), 0x02);
    assert_eq!(rom.read(0x0002), 0x00);
}

#[test]
fn loading_replaces_contents_wholesale() {
    let mut rom = Rom::new();
    rom.load(&[0xAA; 0x300]);
    assert_eq!(rom.read(0x02FF), 0xAA);
    rom.load(&[0xBB; 0x100]);
    assert_eq!(rom.read(0x00FF), 0xBB);
    assert_eq!(rom.read(0x02FF), 0x00);
}

#[test]
fn header_field_getters_read_fixed_offsets() {
    let mut image = vec![0u8; 0x200];
    image[0x143] = 0x80;
    image[0x146] = 0x03;
    image[0x147] = 0x19;
    image[0x148] = 0x52;
    image[0x149] = 0x03;
    let mut rom = Rom::new();
    rom.load(&image);
    assert_eq!(rom.cgb_flag(), 0x80);
    assert_eq!(rom.sgb_flag(), 0x03);
    assert_eq!(rom.cartridge_type(), 0x19);
    assert_eq!(rom.rom_size(), 0x52);
    assert_eq!(rom.ram_size(), 0x03);
}

#[test]
fn flag_descriptions() {
    assert_eq!(
        cgb_flag_text(0x80),
        "The game supports CGB enhancements, but is backwards compatible with monochrome Game Boys"
    );
    assert_eq!(
        cgb_flag_text(0xC0),
        "The game works on CGB only (the hardware ignores bit 6, so this really functions the same as $80)"
    );
    assert_eq!(cgb_flag_text(0x00), "UNKNOWN CGB FLAG");
    assert_eq!(sgb_flag_text(0x03), "The game supports SGB functions");
    assert_eq!(sgb_flag_text(0x00), "The game doesn't support SGB functions");
}

#[test]
fn cartridge_type_descriptions() {
    assert_eq!(cartridge_type_text(0x00), "ROM ONLY");
    assert_eq!(cartridge_type_text(0x01), "MBC1");
    assert_eq!(cartridge_type_text(0x19), "MBC5");
    assert_eq!(cartridge_type_text(0xFF), "HuC1+RAM+BATTERY");
    assert_eq!(cartridge_type_text(0x42), "UNKNOWN CARTRIDGE TYPE");
}

#[test]
fn size_descriptions() {
    assert_eq!(rom_size_text(0x00), "32 KiB (no banking)");
    assert_eq!(rom_size_text(0x52), "1.1 MiB (72 banks)");
    assert_eq!(rom_size_text(0x60), "UNKNOWN ROM SIZE");
    assert_eq!(ram_size_text(0x00), "0 (No RAM)");
    assert_eq!(ram_size_text(0x03), "32 KiB (4 banks of 8 KiB each)");
    assert_eq!(ram_size_text(0x06), "UNKNOWN RAM SIZE");
}

#[test]
fn header_text_assembles_the_diagnostic_block() {
    let mut image = image_with_title(b"POCKET TEST");
    image[0x143] = 0xC0;
    image[0x146] = 0x03;
    image[0x147] = 0x00;
    image[0x148] = 0x01;
    image[0x149] = 0x02;
    let mut rom = Rom::new();
    rom.load(&image);
    let expected = "*~~ ROM Header ~~*\n\
                    Title: POCKET TEST\n\
                    CGB Flag: The game works on CGB only (the hardware ignores bit 6, so this really functions the same as $80)\n\
                    SGB Flag: The game supports SGB functions\n\
                    Cartridge Type: ROM ONLY\n\
                    ROM Size: 64 KiB (4 banks)\n\
                    RAM Size: 8 KiB (1 bank)\n";
    assert_eq!(rom.header_text(), expected);
}

#[test]
fn machine_load_rom_fills_the_cartridge_store() {
    let mut m = GioBoyColor::new();
    assert!(!m.rom.is_loaded);
    let mut image = vec![0u8; 0x200];
    image[0x000] = 0x31;
    image[0x1FF] = 0x99;
    m.load_rom(&image);
    assert!(m.rom.is_loaded);
    assert_eq!(m.read(0x0000), Ok(0x31));
    assert_eq!(m.read(0x01FF), Ok(0x99));
    assert_eq!(m.read(0x0200), Ok(0x00));
}
