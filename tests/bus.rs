use nes_core::bus::{Bus, Fault};
use nes_core::cartridge::{Mirroring, Rom};
use nes_core::mem::Mem;

fn blank_bus(mirroring: Mirroring) -> Bus {
    Bus::new(Rom { prg_rom: vec![0; 0x4000], chr_rom: vec![0; 0x2000], screen_mirroring: mirroring })
}

#[test]
fn ram_is_mirrored_every_2k() {
    let mut bus = Bus::new_empty();
    bus.mem_write(0x1801, 0x5c);
    assert_eq!(bus.mem_read(0x0001), 0x5c);
    assert_eq!(bus.mem_read(0x0801), 0x5c);
    assert_eq!(bus.mem_read(0x1801 & 0x07ff), bus.mem_read(0x1801));
}

#[test]
fn ppu_registers_are_mirrored_every_8() {
    let mut bus = Bus::new_empty();
    bus.mem_write(0x3456, 0x23); // $2006
    bus.mem_write(0x200e, 0x05); // $2006
    bus.mem_write(0x3fff, 0x66); // $2007
    assert_eq!(bus.ppu.vram[0x0305], 0x66);
    bus.ppu.reg_status.set_vblank_status(true);
    assert_eq!(bus.mem_read(0x3ffa) >> 7, 1); // $2002
    assert_eq!(bus.mem_read(0x2002) >> 7, 0);
}

#[test]
fn vram_write_through_bus() {
    let mut bus = Bus::new_empty();
    bus.mem_write(0x2006, 0x23);
    bus.mem_write(0x2006, 0x05);
    bus.mem_write(0x2007, 0x66);
    assert_eq!(bus.ppu.vram[0x0305], 0x66);
}

#[test]
fn horizontal_mirror_read_back_through_bus() {
    let mut bus = blank_bus(Mirroring::HORIZONTAL);
    bus.mem_write(0x2006, 0x24);
    bus.mem_write(0x2006, 0x05);
    bus.mem_write(0x2007, 0x66);
    bus.mem_write(0x2006, 0x20);
    bus.mem_write(0x2006, 0x05);
    bus.mem_read(0x2007);
    assert_eq!(bus.mem_read(0x2007), 0x66);
}

#[test]
fn write_only_registers_read_zero_and_status_ignores_writes() {
    let mut bus = Bus::new_empty();
    bus.mem_write(0x2000, 0x80);
    assert_eq!(bus.mem_read(0x2000), 0);
    bus.mem_write(0x2002, 0xff);
    assert_eq!(bus.mem_read(0x2002), 0);
    assert_eq!(bus.mem_read(0x4016), 0);
    bus.mem_write(0x4016, 0x01);
    assert_eq!(bus.mem_read(0x5000), 0);
}

#[test]
fn prg_rom_mirrors_16k_and_ignores_writes() {
    let mut prg = vec![0u8; 0x4000];
    prg[0x0010] = 0xab;
    let mut bus = Bus::new(Rom { prg_rom: prg, chr_rom: vec![0; 0x2000], screen_mirroring: Mirroring::VERTICAL });
    assert_eq!(bus.mem_read(0x8010), 0xab);
    assert_eq!(bus.mem_read(0xc010), 0xab);
    bus.mem_write(0x8010, 0x00);
    assert_eq!(bus.mem_read(0x8010), 0xab);
    assert_eq!(bus.mem_read_u16(0x8010), 0x00ab);
}

#[test]
fn oam_dma_copies_a_page_and_stalls() {
    let mut bus = Bus::new_empty();
    for i in 0..256u16 {
        bus.mem_write(0x0200 + i, i as u8);
    }
    bus.mem_write(0x2003, 0x10);
    bus.mem_write(0x4014, 0x02);
    assert_eq!(bus.ppu.oam_data[0x10], 0x00);
    assert_eq!(bus.ppu.oam_data[0x0f], 0xff);
    assert_eq!(bus.ppu.reg_oam_addr, 0x10);
    assert_eq!(bus.cycles, 513);
    assert_eq!(bus.ppu.scan_lines, 4);
    bus.mem_write(0x4014, 0x02);
    assert_eq!(bus.cycles, 513 + 514);
}

#[test]
fn oam_data_register_through_bus() {
    let mut bus = Bus::new_empty();
    bus.mem_write(0x2003, 0x20);
    bus.mem_write(0x2004, 0x11);
    bus.mem_write(0x2004, 0x22);
    bus.mem_write(0x2003, 0x21);
    assert_eq!(bus.mem_read(0x2004), 0x22);
    assert_eq!(bus.mem_read(0x2004), 0x22);
}

#[test]
fn chr_write_through_bus_records_fault_and_drops() {
    let mut bus = Bus::new_empty();
    bus.mem_write(0x2006, 0x01);
    bus.mem_write(0x2006, 0x00);
    bus.mem_write(0x2007, 0x55);
    assert_eq!(bus.fault, Some(Fault::ChrRomWrite { addr: 0x0100 }));
    assert_eq!(bus.ppu.reg_addr.get(), 0x0100);
    bus.mem_write(0x2006, 0x30);
    bus.mem_write(0x2006, 0x00);
    bus.mem_write(0x2007, 0x55);
    assert_eq!(bus.fault, Some(Fault::ChrRomWrite { addr: 0x0100 }));
}

#[test]
fn peek_has_no_side_effects() {
    let mut bus = Bus::new_empty();
    bus.ppu.reg_status.set_vblank_status(true);
    assert_eq!(bus.peek(0x2002) >> 7, 1);
    assert_eq!(bus.peek(0x2002) >> 7, 1);
    assert_eq!(bus.mem_read(0x2002) >> 7, 1);
    assert_eq!(bus.peek(0x2002) >> 7, 0);
}

#[test]
fn tick_counts_cycles_and_dots() {
    let mut bus = Bus::new_empty();
    bus.tick(114);
    assert_eq!(bus.cycles, 114);
    assert_eq!(bus.ppu.scan_lines, 1);
    assert_eq!(bus.ppu.clock_cycles, 1);
    assert_eq!(bus.poll_nmi_status(), None);
}

#[test]
fn mem_write_u16_is_little_endian() {
    let mut bus = Bus::new_empty();
    bus.mem_write_u16(0x0010, 0xbeef);
    assert_eq!(bus.mem_read(0x0010), 0xef);
    assert_eq!(bus.mem_read(0x0011), 0xbe);
}
