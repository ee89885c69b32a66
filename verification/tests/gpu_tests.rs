use gb_core::gpu::{data_to_tile, Gpu};
use gb_core::gpu_regs::{ColorPalette, Hdma, LcdControl, LcdStatus};
use gb_core::interrupt::Interrupt;

#[test]
fn test_data_to_tile() {
    let data = vec![
        0x3C, 0x7E, 0x42, 0x42, 0x42, 0x42, 0x42, 0x42,
        0x7E, 0x5E, 0x7E, 0x0A, 0x7C, 0x56, 0x38, 0x7C,
    ];
    let tile = data_to_tile(&data);
    println!("{:?}", tile);
    assert_eq!(
        tile,
        vec![
            0, 2, 3, 3, 3, 3, 2, 0, 0, 3, 0, 0, 0, 0, 3, 0, 0, 3, 0, 0, 0, 0, 3, 0, 0, 3, 0, 0,
            0, 0, 3, 0, 0, 3, 1, 3, 3, 3, 3, 0, 0, 1, 1, 1, 3, 1, 3, 0, 0, 3, 1, 3, 1, 3, 2, 0,
            0, 2, 3, 3, 3, 2, 0, 0
        ]
    );
}

#[test]
fn mode_timing_invariant_holds_for_many_tick_sizes() {
    let mut gpu = Gpu::new();
    let mut intr = Interrupt::new();
    for cycles in [1u32, 3, 79, 80, 172, 252, 455, 456, 457, 4560, 70224, 13] {
        gpu.tick(cycles, &mut intr);
        let mode = gpu.lcd_status.mode;
        assert!(mode <= 3);
        assert_eq!(mode == 1, gpu.lcd_y_coordinate >= 144);
        assert!(gpu.lcd_y_coordinate < 154);
        assert!(gpu.dots < 456);
    }
}

#[test]
fn mode_partitions_the_scanline() {
    let mut gpu = Gpu::new();
    let mut intr = Interrupt::new();
    gpu.tick(79, &mut intr);
    assert_eq!(gpu.lcd_status.mode, 2, "OAM scan for the first 80 dots");
    gpu.tick(1, &mut intr);
    assert_eq!(gpu.lcd_status.mode, 3, "pixel transfer from dot 80");
    gpu.tick(172, &mut intr);
    assert_eq!(gpu.lcd_status.mode, 0, "H-blank from dot 252");
    gpu.tick(204, &mut intr);
    assert_eq!(gpu.dots, 0);
    assert_eq!(gpu.lcd_y_coordinate, 1, "a full line is 456 dots");
}

#[test]
fn one_frame_posts_one_vblank_and_wraps_ly() {
    let mut gpu = Gpu::new();
    let mut intr = Interrupt::new();
    // STAT interrupt sources off so only VBlank can be posted.
    gpu.write8(0xff41, 0x00);
    gpu.tick(456 * 144 - 1, &mut intr);
    assert_eq!(intr.request & 0x01, 0, "no VBlank before line 144");
    gpu.tick(1, &mut intr);
    assert_eq!(gpu.lcd_y_coordinate, 144);
    assert_eq!(gpu.lcd_status.mode, 1);
    assert_eq!(intr.request & 0x01, 1, "entering mode 1 posts VBlank");
    // Clear the request; the rest of the frame must not post another.
    intr.request = 0;
    gpu.tick(456 * 10, &mut intr);
    assert_eq!(gpu.lcd_y_coordinate, 0, "LY wraps after line 153");
    assert_eq!(intr.request & 0x01, 0, "exactly one VBlank per frame");
}

#[test]
fn stat_sources_post_on_their_mode_entries() {
    let mut gpu = Gpu::new();
    let mut intr = Interrupt::new();
    gpu.write8(0xff41, 0x40);  // only the OAM-scan source enabled
    gpu.tick(1, &mut intr);  // dot 1: mode 2 entered
    assert_eq!(intr.request & 0x02, 0x02, "mode 2 entry posts LCD-STAT");
    intr.request = 0;
    gpu.write8(0xff41, 0x10);  // only the H-blank source enabled
    gpu.tick(251, &mut intr);  // up to dot 252: mode 0 entered
    assert_eq!(gpu.lcd_status.mode, 0);
    assert_eq!(intr.request & 0x02, 0x02, "mode 0 entry posts LCD-STAT");
    intr.request = 0;
    gpu.write8(0xff41, 0x20);  // only the V-blank source enabled
    gpu.tick(456 * 144 - 252, &mut intr);  // on to line 144
    assert_eq!(gpu.lcd_status.mode, 1);
    assert_eq!(intr.request & 0x02, 0x02, "mode 1 entry posts LCD-STAT");
    assert_eq!(intr.request & 0x01, 0x01, "and VBlank itself");
}

#[test]
fn lcd_disable_resets_timing_and_blanks_screen() {
    let mut gpu = Gpu::new();
    let mut intr = Interrupt::new();
    gpu.tick(456 * 50 + 123, &mut intr);
    assert!(gpu.lcd_y_coordinate != 0 || gpu.dots != 0);
    gpu.write8(0xff40, 0x13);  // bit 7 clear: display off
    assert_eq!(gpu.dots, 0);
    assert_eq!(gpu.lcd_y_coordinate, 0);
    assert_eq!(gpu.lcd_status.mode, 0);
    for i in 0..144 * 160 * 3 {
        assert_eq!(gpu.data[i], 0xff);
    }
    // Disabled: ticking moves nothing.
    gpu.tick(10000, &mut intr);
    assert_eq!(gpu.dots, 0);
    assert_eq!(gpu.lcd_y_coordinate, 0);
}

#[test]
fn ly_writes_are_ignored_and_lyc_coincidence_posts_stat() {
    let mut gpu = Gpu::new();
    let mut intr = Interrupt::new();
    gpu.write8(0xff44, 77);
    assert_eq!(gpu.read8(0xff44), 0, "LY is owned by the timing machine");
    gpu.write8(0xff45, 2);  // LYC = 2
    gpu.write8(0xff41, 0x80);  // coincidence interrupt on, mode sources off
    gpu.tick(456 * 2, &mut intr);
    assert_eq!(gpu.lcd_y_coordinate, 2);
    assert_eq!(intr.request & 0x02, 0x02, "LY == LYC posts LCD-STAT");
}

#[test]
fn background_row_renders_through_the_palette() {
    let mut gpu = Gpu::new();
    // Tile 0 bitmap: every pixel color 3 (both planes all ones).
    for i in 0..16 {
        gpu.write8(0x8000 + i, 0xff);
    }
    // Map cell 0x9800 already names tile 0; standard palette: 3 -> black.
    gpu.write8(0xff47, 0b11100100);
    gpu.draw_background();
    for x in 0..160 {
        assert_eq!(gpu.prio[x], (false, 3));
    }
    assert_eq!(gpu.data[0], 0x00);
    assert_eq!(gpu.data[1], 0x00);
    assert_eq!(gpu.data[2], 0x00);
    // A lighter color: palette entry 3 = 1 -> 0xc0.
    gpu.write8(0xff47, 0b01100100);
    gpu.draw_background();
    assert_eq!(gpu.data[0], 0xc0);
}

/// Parks every sprite on a line far below the visible area, so a test can
/// bring back just the ones it speaks about.
fn park_sprites(gpu: &mut Gpu) {
    for i in 0..40u16 {
        gpu.write8(0xfe00 + 4 * i, 200);
    }
}

#[test]
fn sprites_composite_over_background_record() {
    let mut gpu = Gpu::new();
    park_sprites(&mut gpu);
    // Sprite tile 0: row 0 all color 1 (low plane ones, high plane zero).
    gpu.write8(0x8000, 0xff);
    gpu.write8(0x8001, 0x00);
    // OAM entry 0: y=0, x=0, tile 0, no flips, palette 0.
    gpu.write8(0xfe00, 0);
    gpu.write8(0xfe01, 0);
    gpu.write8(0xfe02, 0);
    gpu.write8(0xfe03, 0);
    // OBP0: color 1 -> shade 1 (0xc0).
    gpu.write8(0xff48, 0b00000100);
    gpu.draw_sprites();
    for x in 0..8 {
        assert_eq!(gpu.data[3 * x], 0xc0, "sprite pixel {} drawn", x);
    }
    assert_eq!(gpu.data[3 * 8], 0xff, "beyond the sprite the row is untouched");
}

#[test]
fn transparent_and_suppressed_sprite_pixels_are_skipped() {
    let mut gpu = Gpu::new();
    park_sprites(&mut gpu);
    // Sprite 0 on line 0 with tile 0 all color 0: stays invisible.
    gpu.write8(0xfe00, 0);
    gpu.write8(0xfe01, 0);
    gpu.write8(0xfe02, 0);
    gpu.write8(0xfe03, 0);
    gpu.draw_sprites();
    assert_eq!(gpu.data[0], 0xff, "color 0 is transparent");
    // Now a solid sprite, but the background priority record wins.
    gpu.write8(0x8000, 0xff);
    for i in 0..16 {
        gpu.write8(0x8010 + i, 0xff);
    }
    gpu.write8(0xff47, 0b11100100);
    gpu.write8(0x9800, 1);  // map cell 0 -> tile 1, all color 3
    gpu.draw_background();
    gpu.write8(0xfe03, 0x80);  // sprite asks for background priority
    gpu.draw_sprites();
    assert_eq!(gpu.data[0], 0x00, "non-zero background wins priority");
}

#[test]
fn lcd_control_register_roundtrip() {
    let mut lcdc = LcdControl::new();
    assert_eq!(lcdc.read8(), 0xb7, "power-on value");
    lcdc.write8(0x91);
    assert!(lcdc.lcd_and_ppu_enable);
    assert_eq!(lcdc.window_tile_base, 0x9800);
    assert_eq!(lcdc.bg_and_window_tile_base, 0x8000);
    assert!(!lcdc.obj_enable);
    assert!(lcdc.bg_and_window_enable);
    assert_eq!(lcdc.read8(), 0x91);
    lcdc.write8(0x00);
    assert_eq!(lcdc.bg_and_window_tile_base, 0x8800);
    assert_eq!(lcdc.read8(), 0x00);
}

#[test]
fn lcd_status_write_keeps_mode_bits() {
    let mut stat = LcdStatus::new();
    stat.mode = 3;
    stat.write8(0x00);
    assert_eq!(stat.mode, 3, "mode bits are read-only through the bus");
    assert!(!stat.current_line_interrupt);
    assert_eq!(stat.read8() & 0x03, 3);
}

#[test]
fn color_palette_byte_access_and_autoincrement() {
    let mut p = ColorPalette::new();
    p.write8(0xff68, 0x00);  // index 0, auto-increment off
    p.write8(0xff69, 0xef);  // low byte of entry 0
    p.write8(0xff68, 0x01);
    p.write8(0xff69, 0x03);  // high byte of entry 0
    assert_eq!(p.data[0], 0x03ef);
    let (r, g, b) = p.get_color(0);
    assert_eq!((r, g, b), (0x0f, 0x1f, 0x00));
    // Writing the index register with the auto-increment bit set already
    // advances it once, and each data write advances it again.
    p.write8(0xff68, 0x82);
    assert!(p.auto_increment);
    assert_eq!(p.index, 3);
    p.write8(0xff69, 0x11);  // high byte of entry 1
    assert_eq!(p.data[1], 0x1100);
    assert_eq!(p.index, 4);
    p.write8(0xff68, 0x00);
    assert_eq!(p.read8(0xff69), 0xef, "reads follow the index register");
}

#[test]
fn color_mixing_formula() {
    let mut gpu = Gpu::new();
    gpu.set_rgb(0, 0x0f, 0x1f, 0x00);
    // lr = (15*13 + 31*2 + 0) / 2, lg = (31*3 + 0) * 2, lb = (15*3 + 31*2 + 0) / 2
    assert_eq!(gpu.data[0], 128);
    assert_eq!(gpu.data[1], 186);
    assert_eq!(gpu.data[2], 53);
}

#[test]
fn hdma_registers_and_cancel() {
    let mut h = Hdma::new();
    h.write8(0xff51, 0x12);
    h.write8(0xff52, 0x3f);  // low nibble forced to zero
    assert_eq!(h.source, 0x1230);
    h.write8(0xff53, 0xe1);  // destination forced into 0x8000-0x9fff
    h.write8(0xff54, 0x2f);
    assert_eq!(h.destination, 0x8120);
    assert_eq!(h.read8(0xff55), 0x80, "inactive reads bit 7 set");
    h.write8(0xff55, 0x85);  // arm an H-blank transfer of 6 blocks
    assert!(h.active);
    assert_eq!(h.remain, 5);
    assert_eq!(h.read8(0xff55), 0x05);
    h.write8(0xff55, 0x00);  // cancel while active in H-blank mode
    assert!(!h.active);
    assert_eq!(h.source, 0x1230, "cancel keeps the addresses");
}
