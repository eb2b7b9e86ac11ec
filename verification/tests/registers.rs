use gioboy_color::bitwise::{combine, high, low, Bit};
use gioboy_color::registers::Registers;

#[test]
fn boot_values() {
    let r = Registers::new();
    assert_eq!(r.a, 0x01);
    assert_eq!(r.f, 0xB0);
    assert_eq!(r.b, 0x00);
    assert_eq!(r.c, 0x13);
    assert_eq!(r.d, 0x00);
    assert_eq!(r.e, 0xD8);
    assert_eq!(r.h, 0x01);
    assert_eq!(r.l, 0x4D);
    assert_eq!(r.sp, 0xFFFE);
    assert_eq!(r.pc, 0x0100);
}

#[test]
fn pair_round_trip_bc_de_hl() {
    for &v in &[0x0000u16, 0xFFFF, 0x1234, 0x00FF, 0xFF00, 0x8001] {
        let mut r = Registers::new();
        r.set_bc(v);
        assert_eq!(r.bc(), v);
        r.set_de(v);
        assert_eq!(r.de(), v);
        r.set_hl(v);
        assert_eq!(r.hl(), v);
    }
}

#[test]
fn pair_round_trip_af_masks_low_nibble() {
    for &v in &[0x0000u16, 0xFFFF, 0x1234, 0xABCD] {
        let mut r = Registers::new();
        r.set_af(v);
        assert_eq!(r.af(), v & 0xFFF0);
    }
}

#[test]
fn set_pair_splits_high_byte_first() {
    let mut r = Registers::new();
    r.set_bc(0x1234);
    assert_eq!(r.b, 0x12);
    assert_eq!(r.c, 0x34);
    r.set_af(0xABCD);
    assert_eq!(r.a, 0xAB);
    assert_eq!(r.f, 0xC0);
}

#[test]
fn hli_wraps_at_top() {
    let mut r = Registers::new();
    r.set_hl(0xFFFF);
    r.hli();
    assert_eq!(r.hl(), 0x0000);
}

#[test]
fn hld_wraps_at_bottom() {
    let mut r = Registers::new();
    r.set_hl(0x0000);
    r.hld();
    assert_eq!(r.hl(), 0xFFFF);
}

#[test]
fn hli_hld_ordinary_values() {
    let mut r = Registers::new();
    r.set_hl(0x1234);
    r.hli();
    assert_eq!(r.hl(), 0x1235);
    r.hld();
    r.hld();
    assert_eq!(r.hl(), 0x1233);
}

#[test]
fn combine_high_low_boundaries() {
    assert_eq!(combine(0x00, 0x00), 0x0000);
    assert_eq!(combine(0xFF, 0xFF), 0xFFFF);
    assert_eq!(combine(0x12, 0x34), 0x1234);
    assert_eq!(high(0x0000), 0x00);
    assert_eq!(high(0xFFFF), 0xFF);
    assert_eq!(high(0x12FF), 0x12);
    assert_eq!(low(0x0000), 0x00);
    assert_eq!(low(0xFFFF), 0xFF);
    assert_eq!(low(0xFF34), 0x34);
}

#[test]
fn bit_masks() {
    assert_eq!(Bit::Bit0.mask(), 0x01);
    assert_eq!(Bit::Bit1.mask(), 0x02);
    assert_eq!(Bit::Bit2.mask(), 0x04);
    assert_eq!(Bit::Bit3.mask(), 0x08);
    assert_eq!(Bit::Bit4.mask(), 0x10);
    assert_eq!(Bit::Bit5.mask(), 0x20);
    assert_eq!(Bit::Bit6.mask(), 0x40);
    assert_eq!(Bit::Bit7.mask(), 0x80);
}
