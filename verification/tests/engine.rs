use gioboy_color::gbc::{Fault, GioBoyColor};
use gioboy_color::instructions::{decode, Instr, R8};

/// A machine whose cartridge holds the given bytes starting at the boot
/// program counter.
fn boot_with(program: &[u8]) -> GioBoyColor {
    let mut image = vec![0u8; 0x200];
    for (i, &b) in program.iter().enumerate() {
        image[0x100 + i] = b;
    }
    let mut m = GioBoyColor::new();
    m.load_rom(&image);
    m
}

#[test]
fn nop_costs_one_cycle_and_only_advances_pc() {
    let mut m = boot_with(&[0x00]);
    let before = m.registers;
    assert_eq!(m.step(), Ok(1));
    assert_eq!(m.registers.pc, before.pc + 1);
    assert_eq!(m.registers.a, before.a);
    assert_eq!(m.registers.f, before.f);
    assert_eq!(m.registers.b, before.b);
    assert_eq!(m.registers.c, before.c);
    assert_eq!(m.registers.d, before.d);
    assert_eq!(m.registers.e, before.e);
    assert_eq!(m.registers.h, before.h);
    assert_eq!(m.registers.l, before.l);
    assert_eq!(m.registers.sp, before.sp);
}

#[test]
fn stop_costs_one_cycle() {
    let mut m = boot_with(&[0x10]);
    assert_eq!(m.step(), Ok(1));
    assert_eq!(m.registers.pc, 0x0101);
}

#[test]
fn load_immediate_into_a() {
    let mut m = boot_with(&[0x3E, 0x42]);
    assert_eq!(m.step(), Ok(2));
    assert_eq!(m.registers.pc, 0x0102);
    assert_eq!(m.registers.a, 0x42);
}

#[test]
fn load_immediate_into_each_register() {
    let cases: [(u8, fn(&GioBoyColor) -> u8); 7] = [
        (0x3E, |m| m.registers.a),
        (0x06, |m| m.registers.b),
        (0x0E, |m| m.registers.c),
        (0x16, |m| m.registers.d),
        (0x1E, |m| m.registers.e),
        (0x26, |m| m.registers.h),
        (0x2E, |m| m.registers.l),
    ];
    for (op, get) in cases {
        let mut m = boot_with(&[op, 0x99]);
        assert_eq!(m.step(), Ok(2));
        assert_eq!(get(&m), 0x99);
        assert_eq!(m.registers.pc, 0x0102);
    }
}

#[test]
fn unsupported_opcode_faults_deterministically() {
    let mut m = boot_with(&[0xD3]);
    let before = m.registers;
    assert_eq!(m.step(), Err(Fault::UnsupportedOpcode(0xD3)));
    // No mutation beyond the opcode fetch.
    assert_eq!(m.registers.pc, before.pc + 1);
    assert_eq!(m.registers.sp, before.sp);
    assert_eq!(m.registers.a, before.a);
    // The same opcode faults the same way every time.
    m.registers.pc = 0x0100;
    assert_eq!(m.step(), Err(Fault::UnsupportedOpcode(0xD3)));
    assert_eq!(m.registers.pc, 0x0101);
}

#[test]
fn register_to_register_move() {
    let mut m = boot_with(&[0x78]);
    m.registers.b = 0x7C;
    assert_eq!(m.step(), Ok(1));
    assert_eq!(m.registers.a, 0x7C);
    assert_eq!(m.registers.b, 0x7C);
}

#[test]
fn register_moved_into_itself_still_costs_one_cycle() {
    let mut m = boot_with(&[0x40]);
    m.registers.b = 0x33;
    assert_eq!(m.step(), Ok(1));
    assert_eq!(m.registers.b, 0x33);
    assert_eq!(m.registers.pc, 0x0101);
}

#[test]
fn load_register_from_hl_memory() {
    let mut m = boot_with(&[0x7E]);
    m.registers.set_hl(0xC200);
    assert_eq!(m.write(0xC200, 0x5D), Ok(()));
    assert_eq!(m.step(), Ok(2));
    assert_eq!(m.registers.a, 0x5D);
}

#[test]
fn store_register_to_hl_memory() {
    let mut m = boot_with(&[0x70]);
    m.registers.set_hl(0xC200);
    m.registers.b = 0x9E;
    assert_eq!(m.step(), Ok(2));
    assert_eq!(m.read(0xC200), Ok(0x9E));
}

#[test]
fn store_immediate_to_hl_memory() {
    let mut m = boot_with(&[0x36, 0x6B]);
    m.registers.set_hl(0xC200);
    assert_eq!(m.step(), Ok(3));
    assert_eq!(m.read(0xC200), Ok(0x6B));
    assert_eq!(m.registers.pc, 0x0102);
}

#[test]
fn indirect_loads_via_bc_and_de() {
    let mut m = boot_with(&[0x0A, 0x1A]);
    m.registers.set_bc(0xC300);
    m.registers.set_de(0xC301);
    assert_eq!(m.write(0xC300, 0x11), Ok(()));
    assert_eq!(m.write(0xC301, 0x22), Ok(()));
    assert_eq!(m.step(), Ok(2));
    assert_eq!(m.registers.a, 0x11);
    assert_eq!(m.step(), Ok(2));
    assert_eq!(m.registers.a, 0x22);
}

#[test]
fn indirect_stores_via_bc_and_de() {
    let mut m = boot_with(&[0x02, 0x12]);
    m.registers.set_bc(0xC300);
    m.registers.set_de(0xC301);
    m.registers.a = 0xEE;
    assert_eq!(m.step(), Ok(2));
    m.registers.a = 0xDD;
    assert_eq!(m.step(), Ok(2));
    assert_eq!(m.read(0xC300), Ok(0xEE));
    assert_eq!(m.read(0xC301), Ok(0xDD));
}

#[test]
fn absolute_load_and_store_use_little_endian_pointers() {
    let mut m = boot_with(&[0xFA, 0x00, 0xC4, 0xEA, 0x01, 0xC4]);
    assert_eq!(m.write(0xC400, 0x8F), Ok(()));
    assert_eq!(m.step(), Ok(4));
    assert_eq!(m.registers.a, 0x8F);
    assert_eq!(m.registers.pc, 0x0103);
    assert_eq!(m.step(), Ok(4));
    assert_eq!(m.read(0xC401), Ok(0x8F));
    assert_eq!(m.registers.pc, 0x0106);
}

#[test]
fn port_style_forms_reach_high_speed_memory() {
    let mut m = boot_with(&[0xE2, 0xF2, 0xE0, 0x90, 0xF0, 0x90]);
    m.registers.c = 0x85;
    m.registers.a = 0x3C;
    // Register-relative store, then load back: 2 cycles each.
    assert_eq!(m.step(), Ok(2));
    assert_eq!(m.read(0xFF85), Ok(0x3C));
    m.registers.a = 0x00;
    assert_eq!(m.step(), Ok(2));
    assert_eq!(m.registers.a, 0x3C);
    // Immediate-relative store, then load back: 3 cycles each.
    m.registers.a = 0x7B;
    assert_eq!(m.step(), Ok(3));
    assert_eq!(m.read(0xFF90), Ok(0x7B));
    m.registers.a = 0x00;
    assert_eq!(m.step(), Ok(3));
    assert_eq!(m.registers.a, 0x7B);
}

#[test]
fn port_style_load_outside_high_speed_memory_faults() {
    let mut m = boot_with(&[0xF2]);
    m.registers.c = 0x00;
    assert_eq!(m.step(), Err(Fault::InvalidAddress));
}

#[test]
fn auto_increment_and_decrement_hl_forms() {
    let mut m = boot_with(&[0x22, 0x32, 0x2A, 0x3A]);
    m.registers.set_hl(0xC500);
    m.registers.a = 0x41;
    assert_eq!(m.step(), Ok(2));
    assert_eq!(m.read(0xC500), Ok(0x41));
    assert_eq!(m.registers.hl(), 0xC501);
    m.registers.a = 0x52;
    assert_eq!(m.step(), Ok(2));
    assert_eq!(m.read(0xC501), Ok(0x52));
    assert_eq!(m.registers.hl(), 0xC500);
    assert_eq!(m.step(), Ok(2));
    assert_eq!(m.registers.a, 0x41);
    assert_eq!(m.registers.hl(), 0xC501);
    assert_eq!(m.step(), Ok(2));
    assert_eq!(m.registers.a, 0x52);
    assert_eq!(m.registers.hl(), 0xC500);
}

#[test]
fn sixteen_bit_immediate_loads() {
    let mut m = boot_with(&[0x01, 0x34, 0x12, 0x11, 0x78, 0x56, 0x21, 0xBC, 0x9A, 0x31, 0xF0,
        0xDE]);
    assert_eq!(m.step(), Ok(3));
    assert_eq!(m.registers.bc(), 0x1234);
    assert_eq!(m.step(), Ok(3));
    assert_eq!(m.registers.de(), 0x5678);
    assert_eq!(m.step(), Ok(3));
    assert_eq!(m.registers.hl(), 0x9ABC);
    assert_eq!(m.step(), Ok(3));
    assert_eq!(m.registers.sp, 0xDEF0);
    assert_eq!(m.registers.pc, 0x010C);
}

#[test]
fn absolute_store_of_sp_writes_low_byte_first() {
    let mut m = boot_with(&[0x08, 0x00, 0xC6]);
    m.registers.sp = 0xABCD;
    assert_eq!(m.step(), Ok(5));
    assert_eq!(m.read(0xC600), Ok(0xCD));
    assert_eq!(m.read(0xC601), Ok(0xAB));
    assert_eq!(m.registers.sp, 0xABCD);
}

#[test]
fn transfer_hl_into_sp() {
    let mut m = boot_with(&[0xF9]);
    m.registers.set_hl(0xC777);
    assert_eq!(m.step(), Ok(2));
    assert_eq!(m.registers.sp, 0xC777);
}

#[test]
fn push_pop_round_trips_bc_de_hl() {
    for (push_op, pop_op) in [(0xC5u8, 0xD1u8), (0xD5, 0xE1), (0xE5, 0xC1)] {
        let mut m = boot_with(&[push_op, pop_op]);
        m.registers.sp = 0xD000;
        m.registers.set_bc(0x1234);
        m.registers.set_de(0x5678);
        m.registers.set_hl(0x9ABC);
        assert_eq!(m.step(), Ok(4));
        assert_eq!(m.step(), Ok(3));
        let pushed = match push_op {
            0xC5 => 0x1234,
            0xD5 => 0x5678,
            _ => 0x9ABC,
        };
        let popped = match pop_op {
            0xC1 => m.registers.bc(),
            0xD1 => m.registers.de(),
            _ => m.registers.hl(),
        };
        assert_eq!(popped, pushed);
        assert_eq!(m.registers.sp, 0xD000);
    }
}

#[test]
fn push_af_then_pop_af_masks_low_nibble() {
    let mut m = boot_with(&[0xF5, 0xF1]);
    m.registers.sp = 0xD000;
    m.registers.a = 0xAB;
    m.registers.f = 0xCD;
    assert_eq!(m.step(), Ok(4));
    m.registers.a = 0x00;
    m.registers.f = 0x00;
    assert_eq!(m.step(), Ok(3));
    assert_eq!(m.registers.af(), 0xABC0);
    assert_eq!(m.registers.sp, 0xD000);
}

#[test]
fn store_into_echo_region_faults_with_prohibited_access() {
    let mut m = boot_with(&[0x77]);
    m.registers.set_hl(0xE100);
    m.registers.a = 0x13;
    assert_eq!(m.step(), Err(Fault::ProhibitedAccess));
    // No side effect on the mirrored byte.
    assert_eq!(m.read(0xC100), Ok(0x00));
}

#[test]
fn decode_covers_table_and_rejects_gaps() {
    assert_eq!(decode(0x00), Some(Instr::Nop));
    assert_eq!(decode(0x78), Some(Instr::LdRR(R8::A, R8::B)));
    assert_eq!(decode(0x65), Some(Instr::LdRR(R8::H, R8::L)));
    assert_eq!(decode(0x36), Some(Instr::LdHlN));
    assert_eq!(decode(0xF1), Some(Instr::PopAf));
    assert_eq!(decode(0xD3), None);
    assert_eq!(decode(0xCB), None);
    assert_eq!(decode(0x76), None);
}

#[test]
fn execute_instruction_reports_the_unsupported_opcode() {
    let mut m = boot_with(&[]);
    assert_eq!(m.execute_instruction(0xED), Err(Fault::UnsupportedOpcode(0xED)));
    assert_eq!(m.execute_instruction(0x00), Ok(1));
}

#[test]
fn step_with_unmapped_pc_faults_without_moving() {
    let mut m = boot_with(&[]);
    m.registers.pc = 0xFF00;
    assert_eq!(m.step(), Err(Fault::InvalidAddress));
    assert_eq!(m.registers.pc, 0xFF00);
}
