use gb_core::clock::Clock;
use gb_core::gameboy::GameBoy;
use gb_core::interrupt::{IntFlag, Interrupt};
use gb_core::mbc::{Cartridge, Mbc};
use gb_core::mbc1::{BankingMode, MBC1};
use gb_core::memory::Memory;
use gb_core::nombc::NoMBC;
use gb_core::register::Flag;

fn boot() -> GameBoy {
    let cart = Cartridge::new(vec![0u8; 0x150]);
    GameBoy::new(cart.header())
}

fn boot_with_program(program: &[u8]) -> GameBoy {
    let mut gb = boot();
    for (i, b) in program.iter().enumerate() {
        gb.cpu.memory.set8(0x100 + i as u16, *b);
    }
    gb
}

#[test]
fn scenario_ld_then_add() {
    // LD A,5 ; ADD A,3
    let mut gb = boot_with_program(&[0x3e, 0x05, 0xc6, 0x03]);
    gb.cpu.step();
    gb.cpu.step();
    assert_eq!(gb.cpu.register.get_a(), 8);
    assert!(!gb.cpu.register.get_flag(Flag::Z));
    assert!(!gb.cpu.register.get_flag(Flag::N));
    assert!(!gb.cpu.register.get_flag(Flag::H));
    assert!(!gb.cpu.register.get_flag(Flag::C));
}

#[test]
fn scenario_add_overflow_sets_all_carries() {
    // LD A,0xFF ; ADD A,1
    let mut gb = boot_with_program(&[0x3e, 0xff, 0xc6, 0x01]);
    gb.cpu.step();
    gb.cpu.step();
    assert_eq!(gb.cpu.register.get_a(), 0);
    assert!(gb.cpu.register.get_flag(Flag::Z));
    assert!(gb.cpu.register.get_flag(Flag::H));
    assert!(gb.cpu.register.get_flag(Flag::C));
}

#[test]
fn scenario_bit_test_keeps_carry_and_operand() {
    // BIT 0,A with A = 0x01 and C previously set.
    let mut gb = boot_with_program(&[0xcb, 0x47]);
    gb.cpu.register.set_a(0x01);
    gb.cpu.register.set_flags(true, true, false, true);
    gb.cpu.step();
    assert!(!gb.cpu.register.get_flag(Flag::Z));
    assert!(gb.cpu.register.get_flag(Flag::H));
    assert!(!gb.cpu.register.get_flag(Flag::N));
    assert!(gb.cpu.register.get_flag(Flag::C));
    assert_eq!(gb.cpu.register.get_a(), 0x01);
}

#[test]
fn scenario_jr_minus_two_is_an_infinite_loop() {
    // JR -2 jumps back onto itself.
    let mut gb = boot_with_program(&[0x18, 0xfe]);
    for _ in 0..5 {
        gb.cpu.step();
        assert_eq!(gb.cpu.register.get_pc(), 0x100);
    }
}

#[test]
fn conditional_jumps_consume_their_immediate() {
    // JP NZ,nn not taken (Z set) must still step past the address.
    let mut gb = boot_with_program(&[0xc2, 0x00, 0x20, 0x00]);
    gb.cpu.register.set_flags(true, false, false, false);
    gb.cpu.step();
    assert_eq!(gb.cpu.register.get_pc(), 0x103);
    // Taken: PC loads the target.
    let mut gb2 = boot_with_program(&[0xca, 0x34, 0x12]);
    gb2.cpu.register.set_flags(true, false, false, false);
    gb2.cpu.step();
    assert_eq!(gb2.cpu.register.get_pc(), 0x1234);
}

#[test]
fn relative_jump_is_signed() {
    let mut gb = boot_with_program(&[0x18, 0x05]);
    gb.cpu.step();
    assert_eq!(gb.cpu.register.get_pc(), 0x107);
}

#[test]
fn ldi_and_ldd_step_hl() {
    let mut gb = boot();
    gb.cpu.memory.set8(0xc000, 0x42);
    gb.cpu.register.set_hl(0xc000);
    gb.cpu.ld(0x2a);  // LDI A,(HL)
    assert_eq!(gb.cpu.register.get_a(), 0x42);
    assert_eq!(gb.cpu.register.get_hl(), 0xc001);
    gb.cpu.register.set_a(0x55);
    gb.cpu.ld(0x32);  // LDD (HL),A
    assert_eq!(gb.cpu.memory.get8(0xc001), 0x55);
    assert_eq!(gb.cpu.register.get_hl(), 0xc000);
}

#[test]
fn high_page_loads() {
    let mut gb = boot_with_program(&[0xe0, 0x80, 0xf0, 0x80]);
    gb.cpu.register.set_a(0x77);
    gb.cpu.step();  // LDH (0x80),A
    assert_eq!(gb.cpu.memory.get8(0xff80), 0x77);
    gb.cpu.register.set_a(0);
    gb.cpu.step();  // LDH A,(0x80)
    assert_eq!(gb.cpu.register.get_a(), 0x77);
}

#[test]
fn memory_16_bit_access_is_little_endian() {
    let mut gb = boot();
    gb.cpu.memory.set16(0xc100, 0xbeef);
    assert_eq!(gb.cpu.memory.get8(0xc100), 0xef);
    assert_eq!(gb.cpu.memory.get8(0xc101), 0xbe);
    assert_eq!(gb.cpu.memory.get16(0xc100), 0xbeef);
}

#[test]
fn echo_ram_mirrors_work_ram() {
    let mut gb = boot();
    gb.cpu.memory.set8(0xc123, 0x99);
    assert_eq!(gb.cpu.memory.get8(0xe123), 0x99);
    gb.cpu.memory.set8(0xfdff, 0x17);
    assert_eq!(gb.cpu.memory.get8(0xddff), 0x17);
}

#[test]
fn unmapped_gap_reads_zero_and_swallows_writes() {
    let mut gb = boot();
    gb.cpu.memory.set8(0xfec0, 0xaa);
    assert_eq!(gb.cpu.memory.get8(0xfec0), 0);
}

#[test]
fn interrupt_registers_route_through_the_bus() {
    let mut gb = boot();
    gb.cpu.memory.set8(0xffff, 0x1f);
    gb.cpu.memory.set8(0xff0f, 0x04);
    assert_eq!(gb.cpu.memory.interrupt.enabled, 0x1f);
    assert_eq!(gb.cpu.memory.get8(0xffff), 0x1f);
    assert_eq!(gb.cpu.memory.get8(0xff0f), 0x04);
}

#[test]
fn ppu_registers_route_through_the_bus() {
    let mut gb = boot();
    gb.cpu.memory.set8(0xff42, 0x15);
    assert_eq!(gb.cpu.memory.gpu.scrolly, 0x15);
    gb.cpu.memory.set8(0x8000, 0x3c);
    assert_eq!(gb.cpu.memory.gpu.vram[0], 0x3c);
    assert_eq!(gb.cpu.memory.get8(0x8000), 0x3c);
    gb.cpu.memory.set8(0xfe01, 0x44);
    assert_eq!(gb.cpu.memory.gpu.oam[0].x_position, 0x44);
}

#[test]
fn request_interrupt_sets_only_its_bit() {
    let mut i = Interrupt::new();
    i.request_interrupt(IntFlag::Serial);
    assert_eq!(i.request, 0x08);
    i.request_interrupt(IntFlag::VBlank);
    assert_eq!(i.request, 0x09);
    i.request_interrupt(IntFlag::VBlank);
    assert_eq!(i.request, 0x09, "posting twice is idempotent");
    assert_eq!(i.enabled, 0);
    assert_eq!(i.enabled_and_pending(), 0, "nothing actionable while disabled");
    i.enabled = 0x01;
    assert_eq!(i.enabled_and_pending(), 0x01);
}

#[test]
fn cartridge_header_fields_decode() {
    let mut image = vec![0u8; 0x150];
    image[0x100..0x104].copy_from_slice(&[0x00, 0xc3, 0x50, 0x01]);
    for (i, b) in b"TESTTITLE".iter().enumerate() {
        image[0x134 + i] = *b;
    }
    image[0x143] = 0x80;  // CGB flag
    image[0x144] = 0x30;
    image[0x145] = 0x31;
    image[0x146] = 0x03;  // SGB flag
    image[0x147] = 0x01;  // MBC1
    image[0x148] = 0x02;  // 128 KiB ROM
    image[0x149] = 0x03;  // 32 KiB RAM
    image[0x14a] = 0x01;
    image[0x14b] = 0x33;
    image[0x14c] = 0x00;
    image[0x14d] = 0x66;
    image[0x14e] = 0xab;
    image[0x14f] = 0xcd;
    let cart = Cartridge::new(image);
    let h = cart.header();
    assert_eq!(h.entry_point(), 0x00c35001);
    assert_eq!(&h.title()[0..9], b"TESTTITLE");
    assert!(h.cgb_flag());
    assert_eq!(h.new_licensee_code(), 0x3031);
    assert!(h.sgb_flag());
    assert_eq!(h.cartridge_type(), 0x01);
    assert_eq!(h.rom_size(), 0x20000);
    assert_eq!(h.ram_size(), 0x8000);
    assert_eq!(h.destination_code(), 0x01);
    assert_eq!(h.old_licensee_code(), 0x33);
    assert_eq!(h.mask_rom_version_number(), 0x00);
    assert_eq!(h.header_checksum(), 0x66);
    assert_eq!(h.global_checksum(), 0xabcd);
    assert_eq!(h.nintendo_logo().len(), 48);
    assert_eq!(h.manufacturer_code().len(), 4);
}

#[test]
fn mbc1_bank_switching() {
    let mut image = vec![0u8; 0x150];
    image[0x147] = 0x01;
    image[0x148] = 0x02;  // 128 KiB: 8 banks
    image[0x149] = 0x03;
    let cart = Cartridge::new(image);
    let mut mbc = MBC1::new(cart.header());
    // A recognizable byte in bank 2 at offset 0x10.
    let mut rom = vec![0u8; 0x20000];
    rom[2 * 0x4000 + 0x10] = 0x5a;
    rom[0x3456] = 0x77;
    mbc.load_rom(&rom);
    assert_eq!(mbc.read8(0x3456), 0x77, "bank 0 window");
    mbc.write8(0x2000, 0x02);  // select ROM bank 2
    assert_eq!(mbc.rom_bank_number, 2);
    assert_eq!(mbc.read8(0x4010), 0x5a, "banked window");
    mbc.write8(0x2000, 0x00);
    assert_eq!(mbc.rom_bank_number, 1, "bank 0 selects bank 1");
    mbc.write8(0x0000, 0x0a);
    assert!(mbc.ram_enable);
    mbc.write8(0x6000, 0x01);
    assert_eq!(mbc.banking_mode, BankingMode::Advanced);
    mbc.write8(0xa000, 0x42);
    assert_eq!(mbc.read8(0xa000), 0x42);
    mbc.write8(0x4000, 0x01);  // RAM bank 1
    assert_eq!(mbc.ram_bank_number, 1);
    assert_eq!(mbc.read8(0xa000), 0, "another RAM bank is empty");
}

#[test]
fn nombc_reads_and_out_of_range() {
    let mut d = NoMBC::new();
    let mut rom = vec![0u8; 0x100];
    rom[0x42] = 0x24;
    d.load_rom(&rom);
    assert_eq!(d.read8(0x0042), 0x24);
    assert_eq!(d.read8(0x7fff), 0);
    d.write8(0xa000, 0x31);
    assert_eq!(d.read8(0xa000), 0x31);
    assert_eq!(d.read8(0xd000), 0, "outside both windows reads zero");
}

#[test]
fn memory_picks_controller_from_header_type() {
    let mut image = vec![0u8; 0x150];
    image[0x147] = 0x01;
    let cart = Cartridge::new(image);
    let m = Memory::new(cart.header());
    assert!(matches!(m.cartridge, Mbc::Mbc1(_)));
    let cart0 = Cartridge::new(vec![0u8; 0x150]);
    let m0 = Memory::new(cart0.header());
    assert!(matches!(m0.cartridge, Mbc::NoMbc(_)));
}

#[test]
fn clock_carries_remainder() {
    let mut c = Clock::new(456);
    assert_eq!(c.next(455), 0);
    assert_eq!(c.n, 455);
    assert_eq!(c.next(1), 1);
    assert_eq!(c.n, 0);
    assert_eq!(c.next(456 * 3 + 7), 3);
    assert_eq!(c.n, 7);
}

#[test]
fn gameboy_boots_at_the_entry_point() {
    let gb = boot();
    assert_eq!(gb.cpu.register.get_pc(), 0x100);
    assert_eq!(gb.cpu.register.get_sp(), 0xfffe);
    assert_eq!(gb.cpu.opcode, 0);
}

#[test]
fn step_reports_fetch_cycles_and_undefined_opcodes_are_noops() {
    let mut gb = boot_with_program(&[0xd3]);  // not an instruction
    let cycles = gb.cpu.step();
    assert_eq!(cycles, 4);
    assert_eq!(gb.cpu.register.get_pc(), 0x101, "the fetch still happened");
    assert_eq!(gb.cpu.register.get_a(), 0);
    assert_eq!(gb.cpu.register.get_f(), 0);
}

#[test]
fn ppu_ticks_from_cpu_steps() {
    let mut gb = boot_with_program(&[0x00, 0x00]);
    let mut spent = 0;
    spent += gb.cpu.step();
    spent += gb.cpu.step();
    let mut intr = Interrupt::new();
    gb.cpu.memory.gpu.tick(spent, &mut intr);
    assert_eq!(gb.cpu.memory.gpu.dots, 8);
}
