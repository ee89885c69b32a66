use gb_core::cpu::Cpu;
use gb_core::mbc::Cartridge;
use gb_core::register::{Flag, Register};

fn fresh_cpu() -> Cpu {
    let cart = Cartridge::new(vec![0u8; 0x150]);
    Cpu::new(cart.header())
}

#[test]
fn register_pairs_are_derived_views() {
    let mut r = Register::new();
    r.set_bc(0x1234);
    assert_eq!(r.get_b(), 0x12);
    assert_eq!(r.get_c(), 0x34);
    assert_eq!(r.get_bc(), 0x1234);
    r.set_de(0xabcd);
    assert_eq!(r.get_d(), 0xab);
    assert_eq!(r.get_e(), 0xcd);
    assert_eq!(r.get_de(), 0xabcd);
    r.set_hl(0xfffe);
    assert_eq!(r.get_hl(), 0xfffe);
    r.set_af(0x12f7);
    assert_eq!(r.get_a(), 0x12);
    assert_eq!(r.get_f(), 0xf0, "low nibble of F reads as zero");
    assert_eq!(r.get_af(), 0x12f0);
}

#[test]
fn power_on_register_values() {
    let r = Register::new();
    assert_eq!(r.get_pc(), 0x100);
    assert_eq!(r.get_sp(), 0xfffe);
    assert_eq!(r.get_a(), 0);
    assert_eq!(r.get_f(), 0);
}

#[test]
fn pc_inc_wraps_at_0x10000() {
    let mut r = Register::new();
    r.pc = 0xffff;
    r.pc_inc(2);
    assert_eq!(r.get_pc(), 1);
}

#[test]
fn add8_matches_flag_table_for_all_operands() {
    let mut cpu = fresh_cpu();
    for a in 0..=255u16 {
        for b in 0..=255u16 {
            cpu.register.set_a(a as u8);
            cpu.register.set_flags(false, false, false, false);
            cpu.add8(b as u8);
            let sum = a + b;
            assert_eq!(cpu.register.get_a(), (sum % 256) as u8);
            assert_eq!(cpu.register.get_flag(Flag::Z), sum % 256 == 0);
            assert!(!cpu.register.get_flag(Flag::N));
            assert_eq!(cpu.register.get_flag(Flag::H), (a % 16) + (b % 16) > 15);
            assert_eq!(cpu.register.get_flag(Flag::C), sum > 255);
        }
    }
}

#[test]
fn sub8_and_cp8_match_flag_table_for_all_operands() {
    let mut cpu = fresh_cpu();
    for a in 0..=255u16 {
        for b in 0..=255u16 {
            cpu.register.set_a(a as u8);
            cpu.sub8(b as u8);
            assert_eq!(cpu.register.get_a(), ((a + 256 - b) % 256) as u8);
            assert_eq!(cpu.register.get_flag(Flag::Z), a == b);
            assert!(cpu.register.get_flag(Flag::N));
            assert_eq!(cpu.register.get_flag(Flag::H), a % 16 < b % 16);
            assert_eq!(cpu.register.get_flag(Flag::C), a < b);

            cpu.register.set_a(a as u8);
            cpu.cp8(b as u8);
            assert_eq!(cpu.register.get_a(), a as u8, "CP leaves A alone");
            assert_eq!(cpu.register.get_flag(Flag::Z), a == b);
            assert!(cpu.register.get_flag(Flag::N));
            assert_eq!(cpu.register.get_flag(Flag::H), a % 16 < b % 16);
            assert_eq!(cpu.register.get_flag(Flag::C), a < b);
        }
    }
}

#[test]
fn adc8_and_sbc8_honor_carry_in() {
    let mut cpu = fresh_cpu();
    for carry_in in [false, true] {
        for a in (0..=255u16).step_by(7) {
            for b in (0..=255u16).step_by(5) {
                let cin = if carry_in { 1 } else { 0 };
                cpu.register.set_a(a as u8);
                cpu.register.set_flags(false, false, false, carry_in);
                cpu.adc8(b as u8);
                let sum = a + b + cin;
                assert_eq!(cpu.register.get_a(), (sum % 256) as u8);
                assert_eq!(cpu.register.get_flag(Flag::Z), sum % 256 == 0);
                assert!(!cpu.register.get_flag(Flag::N));
                assert_eq!(cpu.register.get_flag(Flag::H), a % 16 + b % 16 + cin > 15);
                assert_eq!(cpu.register.get_flag(Flag::C), sum > 255);

                cpu.register.set_a(a as u8);
                cpu.register.set_flags(false, false, false, carry_in);
                cpu.sbc8(b as u8);
                let res = (a + 512 - b - cin) % 256;
                assert_eq!(cpu.register.get_a(), res as u8);
                assert_eq!(cpu.register.get_flag(Flag::Z), res == 0);
                assert!(cpu.register.get_flag(Flag::N));
                assert_eq!(cpu.register.get_flag(Flag::H), a % 16 < b % 16 + cin);
                assert_eq!(cpu.register.get_flag(Flag::C), a < b + cin);
            }
        }
    }
}

#[test]
fn add8_edge_cases() {
    let mut cpu = fresh_cpu();
    cpu.register.set_a(0);
    cpu.add8(0);
    assert!(cpu.register.get_flag(Flag::Z));
    assert!(!cpu.register.get_flag(Flag::H));
    assert!(!cpu.register.get_flag(Flag::C));
    cpu.register.set_a(0xff);
    cpu.add8(0x01);
    assert_eq!(cpu.register.get_a(), 0);
    assert!(cpu.register.get_flag(Flag::Z));
    assert!(cpu.register.get_flag(Flag::H));
    assert!(cpu.register.get_flag(Flag::C));
}

#[test]
fn logic_ops_force_their_flags() {
    let mut cpu = fresh_cpu();
    cpu.register.set_a(0b1100);
    cpu.register.set_flags(false, true, false, true);
    cpu.and8(0b1010);
    assert_eq!(cpu.register.get_a(), 0b1000);
    assert!(!cpu.register.get_flag(Flag::Z));
    assert!(!cpu.register.get_flag(Flag::N));
    assert!(cpu.register.get_flag(Flag::H), "AND forces H");
    assert!(!cpu.register.get_flag(Flag::C), "AND clears C");

    cpu.register.set_a(0b1100);
    cpu.or8(0b0011);
    assert_eq!(cpu.register.get_a(), 0b1111);
    assert!(!cpu.register.get_flag(Flag::H));
    assert!(!cpu.register.get_flag(Flag::C));

    cpu.register.set_a(0xaa);
    cpu.xor8(0xaa);
    assert_eq!(cpu.register.get_a(), 0);
    assert!(cpu.register.get_flag(Flag::Z));
}

#[test]
fn inc8_and_dec8_keep_carry() {
    let mut cpu = fresh_cpu();
    cpu.register.set_a(0xff);
    cpu.register.set_flags(false, false, false, true);
    cpu.inc8(0x3c);
    assert_eq!(cpu.register.get_a(), 0);
    assert!(cpu.register.get_flag(Flag::Z));
    assert!(cpu.register.get_flag(Flag::H));
    assert!(cpu.register.get_flag(Flag::C), "INC never touches C");

    cpu.register.set_b(0x10);
    cpu.dec8(0x05);
    assert_eq!(cpu.register.get_b(), 0x0f);
    assert!(!cpu.register.get_flag(Flag::Z));
    assert!(cpu.register.get_flag(Flag::N));
    assert!(cpu.register.get_flag(Flag::H), "borrow out of bit 4");
    assert!(cpu.register.get_flag(Flag::C));
}

#[test]
fn add16_flags_from_bits_11_and_15() {
    let mut cpu = fresh_cpu();
    cpu.register.set_hl(0x0fff);
    cpu.register.set_flags(true, true, false, false);
    cpu.add16(0x0001);
    assert_eq!(cpu.register.get_hl(), 0x1000);
    assert!(cpu.register.get_flag(Flag::Z), "Z unaffected by ADD HL");
    assert!(!cpu.register.get_flag(Flag::N));
    assert!(cpu.register.get_flag(Flag::H));
    assert!(!cpu.register.get_flag(Flag::C));

    cpu.register.set_hl(0xffff);
    cpu.add16(0x0001);
    assert_eq!(cpu.register.get_hl(), 0x0000);
    assert!(cpu.register.get_flag(Flag::H));
    assert!(cpu.register.get_flag(Flag::C));
}

#[test]
fn daa_adjusts_bcd_addition() {
    let mut cpu = fresh_cpu();
    // 0x15 + 0x27 = 0x3c, BCD answer 42.
    cpu.register.set_a(0x15);
    cpu.add8(0x27);
    assert_eq!(cpu.register.get_a(), 0x3c);
    cpu.daa();
    assert_eq!(cpu.register.get_a(), 0x42);
    assert!(!cpu.register.get_flag(Flag::C));
    assert!(!cpu.register.get_flag(Flag::H), "DAA always clears H");

    // 0x90 + 0x90 = 0x20 carry; BCD answer 180.
    cpu.register.set_a(0x90);
    cpu.add8(0x90);
    cpu.daa();
    assert_eq!(cpu.register.get_a(), 0x80);
    assert!(cpu.register.get_flag(Flag::C));
}

#[test]
fn swap_exchanges_nibbles() {
    let mut cpu = fresh_cpu();
    let r = cpu.swap(0xf3);
    assert_eq!(r, 0x3f);
    assert!(!cpu.register.get_flag(Flag::Z));
    let r0 = cpu.swap(0x00);
    assert_eq!(r0, 0x00);
    assert!(cpu.register.get_flag(Flag::Z));
}

#[test]
fn rotates_and_shifts() {
    let mut cpu = fresh_cpu();
    assert_eq!(cpu.rlc(0x80), 0x01);
    assert!(cpu.register.get_flag(Flag::C));
    assert_eq!(cpu.rrc(0x01), 0x80);
    assert!(cpu.register.get_flag(Flag::C));
    cpu.register.set_flags(false, false, false, true);
    assert_eq!(cpu.rl(0x00), 0x01, "RL shifts the old carry in");
    cpu.register.set_flags(false, false, false, true);
    assert_eq!(cpu.rr(0x00), 0x80);
    assert_eq!(cpu.sl(0xc0), 0x80);
    assert!(cpu.register.get_flag(Flag::C));
    assert_eq!(cpu.sr(0x81), 0xc0, "SRA keeps the sign bit");
    assert!(cpu.register.get_flag(Flag::C));
    assert_eq!(cpu.srl(0x81), 0x40);
    assert!(cpu.register.get_flag(Flag::C));
}

#[test]
fn bit_set_reset() {
    let mut cpu = fresh_cpu();
    cpu.register.set_flags(false, true, false, true);
    cpu.bit(0b0100, 2);
    assert!(!cpu.register.get_flag(Flag::Z));
    assert!(!cpu.register.get_flag(Flag::N));
    assert!(cpu.register.get_flag(Flag::H));
    assert!(cpu.register.get_flag(Flag::C), "BIT leaves C alone");
    cpu.bit(0b0100, 0);
    assert!(cpu.register.get_flag(Flag::Z));
    assert_eq!(cpu.set(0b0100, 0), 0b0101);
    assert_eq!(cpu.set(0b0101, 0), 0b0101);
    assert_eq!(cpu.reset(0b0101, 2), 0b0001);
    assert_eq!(cpu.reset(0b0001, 2), 0b0001);
}

#[test]
fn push_pop_restores_pairs() {
    let mut cpu = fresh_cpu();
    cpu.register.set_sp(0xfffe);
    cpu.register.set_bc(0xbeef);
    cpu.push(cpu.register.get_bc());
    assert_eq!(cpu.register.get_sp(), 0xfffc);
    cpu.register.set_bc(0);
    cpu.pop(0xc1);
    assert_eq!(cpu.register.get_bc(), 0xbeef);
    assert_eq!(cpu.register.get_sp(), 0xfffe);
}

#[test]
fn push_pop_af_masks_low_nibble() {
    let mut cpu = fresh_cpu();
    cpu.register.set_sp(0xd000);
    cpu.register.set_a(0x12);
    cpu.register.set_flags(true, true, true, true);
    cpu.ld(0xf5);
    cpu.register.set_a(0);
    cpu.register.set_flags(false, false, false, false);
    cpu.ld(0xf1);
    assert_eq!(cpu.register.get_a(), 0x12);
    assert_eq!(cpu.register.get_f(), 0xf0);
    assert_eq!(cpu.register.get_sp(), 0xd000);
}

#[test]
fn ld_hl_sp_e_uses_unsigned_low_byte_flags() {
    let mut cpu = fresh_cpu();
    // LD HL,SP+e with e = 0x01 at PC.
    cpu.register.pc = 0xc000;
    cpu.memory.set8(0xc000, 0x01);
    cpu.register.set_sp(0x00ff);
    cpu.ld(0xf8);
    assert_eq!(cpu.register.get_hl(), 0x0100);
    assert!(!cpu.register.get_flag(Flag::Z));
    assert!(!cpu.register.get_flag(Flag::N));
    assert!(cpu.register.get_flag(Flag::H));
    assert!(cpu.register.get_flag(Flag::C));

    // Negative displacement: flags still from the unsigned low byte.
    cpu.register.pc = 0xc001;
    cpu.memory.set8(0xc001, 0xff);
    cpu.register.set_sp(0x0001);
    cpu.ld(0xf8);
    assert_eq!(cpu.register.get_hl(), 0x0000);
    assert!(cpu.register.get_flag(Flag::H));
    assert!(cpu.register.get_flag(Flag::C));
}

#[test]
fn a_rotates_force_z_clear() {
    let mut cpu = fresh_cpu();
    cpu.register.set_a(0x00);
    cpu.register.set_flags(true, true, true, false);
    cpu.ld(0x07);
    assert_eq!(cpu.register.get_a(), 0x00);
    assert!(
        !cpu.register.get_flag(Flag::Z),
        "RLCA forces Z clear even for a zero result"
    );
    let mut cpu2 = fresh_cpu();
    cpu2.register.set_a(0x00);
    cpu2.ld_cb(0x07);
    assert!(
        cpu2.register.get_flag(Flag::Z),
        "CB RLC A sets Z from the zero result"
    );
}

#[test]
fn scf_and_ccf() {
    let mut cpu = fresh_cpu();
    cpu.register.set_flags(true, true, true, false);
    cpu.ld(0x37);
    assert!(cpu.register.get_flag(Flag::Z));
    assert!(!cpu.register.get_flag(Flag::N));
    assert!(!cpu.register.get_flag(Flag::H));
    assert!(cpu.register.get_flag(Flag::C));
    cpu.ld(0x3f);
    assert!(!cpu.register.get_flag(Flag::C));
    cpu.ld(0x3f);
    assert!(cpu.register.get_flag(Flag::C));
}

#[test]
fn cpl_complements_a() {
    let mut cpu = fresh_cpu();
    cpu.register.set_a(0x35);
    cpu.ld(0x2f);
    assert_eq!(cpu.register.get_a(), 0xca);
}
