use nes_core::cartridge::Mirroring;
use nes_core::ppu::PPU;
use nes_core::ppu_registers::Color;

#[test]
fn test_ppu_vram_writes() {
    let mut ppu = PPU::new_empty_rom();
    ppu.write_to_ppu_addr(0x23);
    ppu.write_to_ppu_addr(0x05);
    ppu.write_to_data(0x66);

    assert_eq!(ppu.vram[0x0305], 0x66);
}

#[test]
fn test_ppu_vram_reads() {
    let mut ppu = PPU::new_empty_rom();
    ppu.write_to_ctrl(0);
    ppu.vram[0x0305] = 0x66;

    ppu.write_to_ppu_addr(0x23);
    ppu.write_to_ppu_addr(0x05);

    ppu.read_data(); //load_into_buffer
    assert_eq!(ppu.reg_addr.get(), 0x2306);
    assert_eq!(ppu.read_data(), 0x66);
}

#[test]
fn test_ppu_vram_reads_cross_page() {
    let mut ppu = PPU::new_empty_rom();
    ppu.write_to_ctrl(0);
    ppu.vram[0x01ff] = 0x66;
    ppu.vram[0x0200] = 0x77;

    ppu.write_to_ppu_addr(0x21);

    ppu.write_to_ppu_addr(0xff);
    println!("reg addr is {:x}", ppu.reg_addr.get());
    ppu.read_data(); //load_into_buffer
    println!("reg addr is {:x}", ppu.reg_addr.get());
    assert_eq!(ppu.read_data(), 0x66);
    println!("reg addr is {:x}", ppu.reg_addr.get());
    assert_eq!(ppu.read_data(), 0x77);
    println!("reg addr is {:x}", ppu.reg_addr.get());
}

#[test]
fn test_ppu_vram_reads_step_32() {
    let mut ppu = PPU::new_empty_rom();
    ppu.write_to_ctrl(0b100);
    ppu.vram[0x01ff] = 0x66;
    ppu.vram[0x01ff + 32] = 0x77;
    ppu.vram[0x01ff + 64] = 0x88;

    ppu.write_to_ppu_addr(0x21);
    ppu.write_to_ppu_addr(0xff);

    ppu.read_data(); //load_into_buffer
    assert_eq!(ppu.read_data(), 0x66);
    assert_eq!(ppu.read_data(), 0x77);
    assert_eq!(ppu.read_data(), 0x88);
}

// Horizontal:
//   [0x2000 A ] [0x2400 a ]
//   [0x2800 B ] [0x2C00 b ]
#[test]
fn test_vram_horizontal_mirror() {
    let mut ppu = PPU::new_empty_rom();
    ppu.write_to_ppu_addr(0x24);
    ppu.write_to_ppu_addr(0x05);

    ppu.write_to_data(0x66); //write to a

    ppu.write_to_ppu_addr(0x28);
    ppu.write_to_ppu_addr(0x05);

    ppu.write_to_data(0x77); //write to B

    ppu.write_to_ppu_addr(0x20);
    ppu.write_to_ppu_addr(0x05);

    ppu.read_data(); //load into buffer
    assert_eq!(ppu.read_data(), 0x66); //read from A

    ppu.write_to_ppu_addr(0x2C);
    ppu.write_to_ppu_addr(0x05);

    ppu.read_data(); //load into buffer
    assert_eq!(ppu.read_data(), 0x77); //read from b
}

// Vertical:
//   [0x2000 A ] [0x2400 B ]
//   [0x2800 a ] [0x2C00 b ]
#[test]
fn test_vram_vertical_mirror() {
    let mut ppu = PPU::new(vec![0; 2048], Mirroring::VERTICAL);

    ppu.write_to_ppu_addr(0x20);
    ppu.write_to_ppu_addr(0x05);

    ppu.write_to_data(0x66); //write to A

    ppu.write_to_ppu_addr(0x2C);
    ppu.write_to_ppu_addr(0x05);

    ppu.write_to_data(0x77); //write to b

    ppu.write_to_ppu_addr(0x28);
    ppu.write_to_ppu_addr(0x05);

    ppu.read_data(); //load into buffer
    assert_eq!(ppu.read_data(), 0x66); //read from a

    ppu.write_to_ppu_addr(0x24);
    ppu.write_to_ppu_addr(0x05);

    ppu.read_data(); //load into buffer
    assert_eq!(ppu.read_data(), 0x77); //read from B
}

#[test]
fn test_read_status_resets_latch() {
    let mut ppu = PPU::new_empty_rom();
    ppu.vram[0x0305] = 0x66;

    ppu.write_to_ppu_addr(0x21);
    ppu.write_to_ppu_addr(0x23);
    ppu.write_to_ppu_addr(0x05);

    println!("reg addr is {:x}", ppu.reg_addr.get());
    ppu.read_data(); //load_into_buffer
    assert_ne!(ppu.read_data(), 0x66);
    println!("reg addr is {:x}", ppu.reg_addr.get());
    ppu.read_ppu_status();

    ppu.write_to_ppu_addr(0x23);
    ppu.write_to_ppu_addr(0x05);
    println!("reg addr is {:x}", ppu.reg_addr.get());
    ppu.read_data(); //load_into_buffer
    println!("reg addr is {:x}", ppu.reg_addr.get());
    assert_eq!(ppu.read_data(), 0x66);
}

#[test]
fn test_ppu_vram_mirroring() {
    let mut ppu = PPU::new_empty_rom();
    ppu.write_to_ctrl(0);
    ppu.vram[0x0305] = 0x66;

    ppu.write_to_ppu_addr(0x63); //0x6305 -> 0x2305
    ppu.write_to_ppu_addr(0x05);

    ppu.read_data(); //load into_buffer
    assert_eq!(ppu.read_data(), 0x66);
}

#[test]
fn test_read_status_resets_vblank() {
    let mut ppu = PPU::new_empty_rom();
    ppu.reg_status.set_vblank_status(true);

    let status = ppu.read_ppu_status();

    assert_eq!(status >> 7, 1);
    assert_eq!(ppu.reg_status.snapshot() >> 7, 0);
}

#[test]
fn test_oam_read_write() {
    let mut ppu = PPU::new_empty_rom();
    ppu.write_to_oam_addr(0x10);
    ppu.write_to_oam_data(0x66);
    ppu.write_to_oam_data(0x77);

    ppu.write_to_oam_addr(0x10);
    assert_eq!(ppu.read_oam_data(), 0x66);

    ppu.write_to_oam_addr(0x11);
    assert_eq!(ppu.read_oam_data(), 0x77);
}

#[test]
fn test_oam_dma() {
    let mut ppu = PPU::new_empty_rom();

    let mut data = [0x66; 256];
    data[0] = 0x77;
    data[255] = 0x88;

    ppu.write_to_oam_addr(0x10);
    ppu.write_oam_dma(&data);

    ppu.write_to_oam_addr(0xf); //wrap around
    assert_eq!(ppu.read_oam_data(), 0x88);

    ppu.write_to_oam_addr(0x10);
    assert_eq!(ppu.read_oam_data(), 0x77);

    ppu.write_to_oam_addr(0x11);
    assert_eq!(ppu.read_oam_data(), 0x66);
}

#[test]
fn addr_round_trip_masks_to_fourteen_bits() {
    let mut ppu = PPU::new_empty_rom();
    ppu.write_to_ppu_addr(0xff);
    ppu.write_to_ppu_addr(0x34);
    assert_eq!(ppu.reg_addr.get(), 0x3f34);
    ppu.write_to_ppu_addr(0x12);
    ppu.write_to_ppu_addr(0xab);
    assert_eq!(ppu.reg_addr.get(), 0x12ab);
}

#[test]
fn status_read_between_addr_writes_restarts_high_byte() {
    let mut ppu = PPU::new_empty_rom();
    ppu.write_to_ppu_addr(0x21);
    ppu.read_ppu_status();
    ppu.write_to_ppu_addr(0x23);
    ppu.write_to_ppu_addr(0x05);
    assert_eq!(ppu.reg_addr.get(), 0x2305);
}

#[test]
fn scroll_and_addr_share_one_latch() {
    let mut ppu = PPU::new_empty_rom();
    ppu.write_to_scroll(0x11);
    // The latch now expects the second byte: this write is a low byte.
    ppu.write_to_ppu_addr(0x22);
    assert_eq!(ppu.reg_addr.get(), 0x0022);
    ppu.write_to_scroll(0x33);
    assert_eq!(ppu.reg_scroll.x, 0x33);
    ppu.write_to_scroll(0x44);
    assert_eq!(ppu.reg_scroll.y, 0x44);
}

#[test]
fn scroll_writes_x_then_y() {
    let mut ppu = PPU::new_empty_rom();
    ppu.write_to_scroll(0x12);
    ppu.write_to_scroll(0x34);
    assert_eq!(ppu.reg_scroll.x, 0x12);
    assert_eq!(ppu.reg_scroll.y, 0x34);
}

#[test]
fn palette_reads_are_not_buffered() {
    let mut ppu = PPU::new_empty_rom();
    ppu.write_to_ppu_addr(0x3f);
    ppu.write_to_ppu_addr(0x01);
    ppu.write_to_data(0x2a);
    ppu.write_to_ppu_addr(0x3f);
    ppu.write_to_ppu_addr(0x01);
    assert_eq!(ppu.read_data(), 0x2a);
}

#[test]
fn palette_aliases_and_repeats() {
    let mut ppu = PPU::new_empty_rom();
    ppu.write_to_ppu_addr(0x3f);
    ppu.write_to_ppu_addr(0x10);
    ppu.write_to_data(0x05);
    assert_eq!(ppu.palette_table[0x00], 0x05);
    ppu.write_to_ppu_addr(0x3f);
    ppu.write_to_ppu_addr(0x3c);
    ppu.write_to_data(0x07);
    assert_eq!(ppu.palette_table[0x0c], 0x07);
    ppu.write_to_ppu_addr(0x3f);
    ppu.write_to_ppu_addr(0x25);
    ppu.write_to_data(0x09);
    assert_eq!(ppu.palette_table[0x05], 0x09);
}

#[test]
fn nametable_write_then_incrementing_reads_are_pipelined() {
    let mut ppu = PPU::new_empty_rom();
    ppu.write_to_ppu_addr(0x20);
    ppu.write_to_ppu_addr(0x00);
    ppu.write_to_data(0x01);
    ppu.write_to_data(0x02);
    ppu.write_to_data(0x03);
    ppu.write_to_ppu_addr(0x20);
    ppu.write_to_ppu_addr(0x00);
    assert_eq!(ppu.read_data(), 0x00);
    assert_eq!(ppu.read_data(), 0x01);
    assert_eq!(ppu.read_data(), 0x02);
    assert_eq!(ppu.read_data(), 0x03);
}

#[test]
fn chr_reads_are_buffered_and_past_rom_read_zero() {
    let mut chr = vec![0u8; 0x2000];
    chr[0x0123] = 0x5a;
    let mut ppu = PPU::new(chr, Mirroring::HORIZONTAL);
    ppu.write_to_ppu_addr(0x01);
    ppu.write_to_ppu_addr(0x23);
    ppu.read_data();
    assert_eq!(ppu.read_data(), 0x5a);
    let mut small = PPU::new_empty_rom();
    small.write_to_ppu_addr(0x10);
    small.write_to_ppu_addr(0x00);
    small.read_data();
    assert_eq!(small.read_data(), 0x00);
}

#[test]
fn mirror_vram_addr_folds_tables() {
    let h = PPU::new_empty_rom();
    assert_eq!(h.mirror_vram_addr(0x2005), 0x0005);
    assert_eq!(h.mirror_vram_addr(0x2405), 0x0005);
    assert_eq!(h.mirror_vram_addr(0x2805), 0x0405);
    assert_eq!(h.mirror_vram_addr(0x2c05), 0x0405);
    assert_eq!(h.mirror_vram_addr(0x3005), 0x0005);
    let v = PPU::new(vec![0; 2048], Mirroring::VERTICAL);
    assert_eq!(v.mirror_vram_addr(0x2405), 0x0405);
    assert_eq!(v.mirror_vram_addr(0x2805), 0x0005);
    assert_eq!(v.mirror_vram_addr(0x2c05), 0x0405);
}

#[test]
fn ctrl_write_during_vblank_raises_nmi() {
    let mut ppu = PPU::new_empty_rom();
    ppu.reg_status.set_vblank_status(true);
    ppu.write_to_ctrl(0x80);
    assert_eq!(ppu.pull_nmi_irq(), Some(1));
    assert_eq!(ppu.pull_nmi_irq(), None);
    // Already enabled: no new edge.
    ppu.write_to_ctrl(0x80);
    assert_eq!(ppu.pull_nmi_irq(), None);
}

#[test]
fn tick_enters_vblank_at_line_241_dot_1() {
    let mut ppu = PPU::new_empty_rom();
    ppu.write_to_ctrl(0x80);
    ppu.tick(341 * 241);
    assert_eq!(ppu.scan_lines, 241);
    assert_eq!(ppu.clock_cycles, 0);
    assert!(!ppu.reg_status.is_in_vblank());
    ppu.tick(1);
    assert!(ppu.reg_status.is_in_vblank());
    assert_eq!(ppu.pull_nmi_irq(), Some(1));
}

#[test]
fn tick_leaves_vblank_on_prerender_line_and_wraps() {
    let mut ppu = PPU::new_empty_rom();
    ppu.reg_status.set_sprite_zero_hit(true);
    ppu.reg_status.set_sprite_overflow(true);
    ppu.tick(341 * 241 + 1);
    assert!(ppu.reg_status.is_in_vblank());
    assert_eq!(ppu.pull_nmi_irq(), None);
    ppu.tick(341 * 20);
    assert_eq!(ppu.scan_lines, 261);
    assert_eq!(ppu.reg_status.snapshot(), 0);
    ppu.tick(340);
    assert_eq!(ppu.scan_lines, 0);
    assert_eq!(ppu.clock_cycles, 0);
}

#[test]
fn mask_register_bits() {
    let mut ppu = PPU::new_empty_rom();
    ppu.write_to_ppu_mask(0b1010_1011);
    assert!(ppu.reg_mask.is_greyscale());
    assert!(ppu.reg_mask.is_leftmost_8pxl_bg());
    assert!(!ppu.reg_mask.is_leftmost_8pxl_sprite());
    assert!(ppu.reg_mask.is_leftmost_show_bg());
    assert!(!ppu.reg_mask.is_leftmost_show_sprite());
    assert_eq!(ppu.reg_mask.emphasis(), vec![Color::Red, Color::Blue]);
    ppu.write_to_ppu_mask(0b0110_0000);
    assert_eq!(ppu.reg_mask.emphasis(), vec![Color::Red, Color::Green]);
}

#[test]
fn ctrl_register_increment() {
    let mut ppu = PPU::new_empty_rom();
    assert_eq!(ppu.reg_ctrl.vram_addr_increment(), 1);
    ppu.write_to_ctrl(0b0000_0100);
    assert_eq!(ppu.reg_ctrl.vram_addr_increment(), 32);
    assert!(!ppu.reg_ctrl.generate_vblank_nmi());
}

#[test]
fn addr_register_increment_wraps_in_fourteen_bits() {
    let mut ppu = PPU::new_empty_rom();
    ppu.write_to_ppu_addr(0x3f);
    ppu.write_to_ppu_addr(0xff);
    ppu.reg_addr.increment(1);
    assert_eq!(ppu.reg_addr.get(), 0x0000);
    ppu.reg_addr.set(0x3ff0);
    ppu.reg_addr.increment(32);
    assert_eq!(ppu.reg_addr.get(), 0x0010);
}

#[test]
fn frame_is_ready_once_per_vblank() {
    let mut ppu = PPU::new_empty_rom();
    ppu.tick(341 * 241);
    assert!(!ppu.take_frame_ready());
    ppu.tick(1);
    assert!(ppu.take_frame_ready());
    assert!(!ppu.take_frame_ready());
    ppu.tick(341 * 262);
    assert!(ppu.take_frame_ready());
}
