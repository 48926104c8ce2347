use nes_core::bus::{Bus, Fault};
use nes_core::cartridge::{Mirroring, Rom};
use nes_core::cpu::{CPU, CARRY, INTERRUPT_DISABLE, NEGATIVE, OVERFLOW, ZERO};
use nes_core::mem::Mem;

fn brk_vector(cpu: &CPU) -> u16 {
    (cpu.bus.peek(0xffff) as u16) << 8 | cpu.bus.peek(0xfffe) as u16
}

/// A cartridge whose 32 KiB of program ROM holds `code` at `$8000` and the
/// given vectors.
fn rom_with(code: &[u8], reset: u16, nmi: u16, brk: u16) -> Rom {
    let mut prg = vec![0u8; 0x8000];
    prg[..code.len()].copy_from_slice(code);
    prg[0x7ffa] = (nmi & 0xff) as u8;
    prg[0x7ffb] = (nmi >> 8) as u8;
    prg[0x7ffc] = (reset & 0xff) as u8;
    prg[0x7ffd] = (reset >> 8) as u8;
    prg[0x7ffe] = (brk & 0xff) as u8;
    prg[0x7fff] = (brk >> 8) as u8;
    Rom { prg_rom: prg, chr_rom: vec![0; 0x2000], screen_mirroring: Mirroring::HORIZONTAL }
}

#[test]
fn lda_immediate_then_brk() {
    let mut cpu = CPU::new();
    assert_eq!(cpu.load_and_run(vec![0xa9, 0x05, 0x00]), Ok(()));
    assert_eq!(cpu.register_a, 5);
    assert_eq!(cpu.status & ZERO, 0);
    assert_eq!(cpu.status & NEGATIVE, 0);
    assert_eq!(cpu.pc, brk_vector(&cpu));
}

#[test]
fn lda_zero_sets_zero_flag() {
    let mut cpu = CPU::new();
    assert_eq!(cpu.load_and_run(vec![0xa9, 0x00, 0x00]), Ok(()));
    assert_eq!(cpu.status & ZERO, ZERO);
}

#[test]
fn tax_inx_sets_negative() {
    let mut cpu = CPU::new();
    assert_eq!(cpu.load_and_run(vec![0xa9, 0xc0, 0xaa, 0xe8, 0x00]), Ok(()));
    assert_eq!(cpu.register_x, 0xc1);
    assert_eq!(cpu.status & NEGATIVE, NEGATIVE);
    assert_eq!(cpu.status & ZERO, 0);
}

#[test]
fn inx_wraps() {
    let mut cpu = CPU::new();
    assert_eq!(cpu.load_and_run(vec![0xa2, 0xff, 0xe8, 0xe8, 0x00]), Ok(()));
    assert_eq!(cpu.register_x, 1);
}

#[test]
fn adc_carries_out_of_ff() {
    let mut cpu = CPU::new();
    let program = vec![0xa9, 0xff, 0x85, 0x10, 0xa9, 0x01, 0x65, 0x10, 0x00];
    assert_eq!(cpu.load_and_run(program), Ok(()));
    assert_eq!(cpu.register_a, 0x00);
    assert_eq!(cpu.status & CARRY, CARRY);
    assert_eq!(cpu.status & ZERO, ZERO);
}

#[test]
fn adc_signed_overflow_and_its_absence() {
    let mut cpu = CPU::new();
    // 0x50 + 0x50 = 0xA0: two positives give a negative.
    assert_eq!(cpu.load_and_run(vec![0xa9, 0x50, 0x69, 0x50, 0x00]), Ok(()));
    assert_eq!(cpu.register_a, 0xa0);
    assert_eq!(cpu.status & OVERFLOW, OVERFLOW);
    let mut cpu = CPU::new();
    assert_eq!(cpu.load_and_run(vec![0xa9, 0x01, 0x69, 0x01, 0x00]), Ok(()));
    assert_eq!(cpu.register_a, 0x02);
    assert_eq!(cpu.status & OVERFLOW, 0);
}

#[test]
fn adc_sum_law_on_values() {
    // A + M + C == A' + 256 * C' for 0x80 + 0x90 + 1.
    let mut cpu = CPU::new();
    assert_eq!(cpu.load_and_run(vec![0x38, 0xa9, 0x80, 0x69, 0x90, 0x00]), Ok(()));
    let carry = (cpu.status & CARRY) as u32;
    assert_eq!(cpu.register_a as u32 + 256 * carry, 0x80 + 0x90 + 1);
}

#[test]
fn sbc_subtracts_with_borrow() {
    let mut cpu = CPU::new();
    // SEC; LDA #$10; SBC #$01 -> 0x0F, carry set (no borrow).
    assert_eq!(cpu.load_and_run(vec![0x38, 0xa9, 0x10, 0xe9, 0x01, 0x00]), Ok(()));
    assert_eq!(cpu.register_a, 0x0f);
    assert_eq!(cpu.status & CARRY, CARRY);
    let mut cpu = CPU::new();
    // SEC; LDA #$00; SBC #$01 -> 0xFF, carry clear (borrow).
    assert_eq!(cpu.load_and_run(vec![0x38, 0xa9, 0x00, 0xe9, 0x01, 0x00]), Ok(()));
    assert_eq!(cpu.register_a, 0xff);
    assert_eq!(cpu.status & CARRY, 0);
}

#[test]
fn jmp_indirect_page_bug() {
    let mut cpu = CPU::new();
    cpu.bus.mem_write(0x02ff, 0x80);
    cpu.bus.mem_write(0x0300, 0x50);
    cpu.bus.mem_write(0x0200, 0x40);
    cpu.load_program(&vec![0x6c, 0xff, 0x02]);
    cpu.pc = 0x0600;
    assert!(cpu.step().is_ok());
    assert_eq!(cpu.pc, 0x4080);
}

#[test]
fn jmp_indirect_without_page_boundary() {
    let mut cpu = CPU::new();
    cpu.bus.mem_write(0x0210, 0x34);
    cpu.bus.mem_write(0x0211, 0x12);
    cpu.load_program(&vec![0x6c, 0x10, 0x02]);
    cpu.pc = 0x0600;
    assert!(cpu.step().is_ok());
    assert_eq!(cpu.pc, 0x1234);
}

#[test]
fn push_then_pull_restores_byte_and_sp() {
    let mut cpu = CPU::new();
    // LDA #$42; PHA; LDA #$00; PLA
    cpu.load_program(&vec![0xa9, 0x42, 0x48, 0xa9, 0x00, 0x68]);
    cpu.pc = 0x0600;
    let sp = cpu.sp;
    for _ in 0..4 {
        assert!(cpu.step().is_ok());
    }
    assert_eq!(cpu.register_a, 0x42);
    assert_eq!(cpu.sp, sp);
}

#[test]
fn jsr_and_rts() {
    let mut cpu = CPU::new();
    // JSR $0606; LDX #$01; BRK; (sub) LDY #$07; RTS
    let program = vec![0x20, 0x06, 0x06, 0xa2, 0x01, 0x00, 0xa0, 0x07, 0x60];
    assert_eq!(cpu.load_and_run(program), Ok(()));
    assert_eq!(cpu.register_y, 7);
    assert_eq!(cpu.register_x, 1);
}

#[test]
fn branch_loop_counts_down() {
    let mut cpu = CPU::new();
    // LDX #$03; loop: DEX; BNE loop; BRK
    assert_eq!(cpu.load_and_run(vec![0xa2, 0x03, 0xca, 0xd0, 0xfd, 0x00]), Ok(()));
    assert_eq!(cpu.register_x, 0);
    assert_eq!(cpu.status & ZERO, ZERO);
}

#[test]
fn branch_cycles() {
    let mut cpu = CPU::new();
    // BEQ +2 not taken (Z clear after LDA #1), then taken.
    cpu.load_program(&vec![0xa9, 0x01, 0xf0, 0x02, 0xa9, 0x00, 0xf0, 0x00]);
    cpu.pc = 0x0600;
    assert!(cpu.step().is_ok());
    assert_eq!(cpu.step().unwrap().cycles, 2);
    assert!(cpu.step().is_ok());
    assert_eq!(cpu.step().unwrap().cycles, 3);
    assert_eq!(cpu.pc, 0x0608);
}

#[test]
fn shifts_and_rotates() {
    let mut cpu = CPU::new();
    // SEC; LDA #$81; ROR A -> 0xC0, C=1
    assert_eq!(cpu.load_and_run(vec![0x38, 0xa9, 0x81, 0x6a, 0x00]), Ok(()));
    assert_eq!(cpu.register_a, 0xc0);
    assert_eq!(cpu.status & CARRY, CARRY);
    let mut cpu = CPU::new();
    // CLC; LDA #$81; ROL A -> 0x02, C=1
    assert_eq!(cpu.load_and_run(vec![0x18, 0xa9, 0x81, 0x2a, 0x00]), Ok(()));
    assert_eq!(cpu.register_a, 0x02);
    assert_eq!(cpu.status & CARRY, CARRY);
    let mut cpu = CPU::new();
    // LDA #$80; STA $20; LSR $20 -> 0x40, N clear
    assert_eq!(cpu.load_and_run(vec![0xa9, 0x80, 0x85, 0x20, 0x46, 0x20, 0x00]), Ok(()));
    assert_eq!(cpu.bus.peek(0x20), 0x40);
    assert_eq!(cpu.status & NEGATIVE, 0);
    let mut cpu = CPU::new();
    // LDA #$C0; ASL A -> 0x80, C=1, N=1
    assert_eq!(cpu.load_and_run(vec![0xa9, 0xc0, 0x0a, 0x00]), Ok(()));
    assert_eq!(cpu.register_a, 0x80);
    assert_eq!(cpu.status & (CARRY | NEGATIVE), CARRY | NEGATIVE);
}

#[test]
fn compare_and_bit() {
    let mut cpu = CPU::new();
    // LDA #$10; CMP #$20 -> C clear, N set (0xF0)
    assert_eq!(cpu.load_and_run(vec![0xa9, 0x10, 0xc9, 0x20, 0x00]), Ok(()));
    assert_eq!(cpu.status & CARRY, 0);
    assert_eq!(cpu.status & NEGATIVE, NEGATIVE);
    let mut cpu = CPU::new();
    // LDA #$C0; STA $30; LDA #$01; BIT $30 -> Z, N, V set
    assert_eq!(cpu.load_and_run(vec![0xa9, 0xc0, 0x85, 0x30, 0xa9, 0x01, 0x24, 0x30, 0x00]), Ok(()));
    assert_eq!(cpu.status & (ZERO | NEGATIVE | OVERFLOW), ZERO | NEGATIVE | OVERFLOW);
}

#[test]
fn addressing_modes_wrap() {
    let mut cpu = CPU::new();
    // LDX #$01; LDA #$77; STA $FF,X -> $0000
    assert_eq!(cpu.load_and_run(vec![0xa2, 0x01, 0xa9, 0x77, 0x95, 0xff, 0x00]), Ok(()));
    assert_eq!(cpu.bus.peek(0x0000), 0x77);
    let mut cpu = CPU::new();
    // ($FF),Y with the pointer split over $FF and $00.
    cpu.bus.mem_write(0x00ff, 0x00);
    cpu.bus.mem_write(0x0000, 0x03);
    cpu.bus.mem_write(0x0305, 0x99);
    assert_eq!(cpu.load_and_run(vec![0xa0, 0x05, 0xb1, 0xff, 0x00]), Ok(()));
    assert_eq!(cpu.register_a, 0x99);
}

#[test]
fn php_pushes_break_bits_and_plp_clears_break() {
    let mut cpu = CPU::new();
    cpu.load_program(&vec![0x08, 0x68, 0x48, 0x28]);
    cpu.pc = 0x0600;
    assert!(cpu.step().is_ok());
    assert!(cpu.step().is_ok());
    assert_eq!(cpu.register_a, 0x24 | 0x30);
    assert!(cpu.step().is_ok());
    assert!(cpu.step().is_ok());
    assert_eq!(cpu.status, 0x24 | 0x20);
}

#[test]
fn brk_pushes_return_and_status() {
    let mut cpu = CPU::new();
    assert_eq!(cpu.load_and_run(vec![0x00]), Ok(()));
    assert_eq!(cpu.sp, 0xfa);
    assert_eq!(cpu.bus.peek(0x01fd), 0x06);
    assert_eq!(cpu.bus.peek(0x01fc), 0x02);
    assert_eq!(cpu.bus.peek(0x01fb), 0x24 | 0x30);
    assert_eq!(cpu.status & INTERRUPT_DISABLE, INTERRUPT_DISABLE);
}

#[test]
fn unknown_opcode_is_a_fault() {
    let mut cpu = CPU::new();
    assert_eq!(cpu.load_and_run(vec![0xa9, 0x01, 0x02]), Err(Fault::UnknownOpcode { pc: 0x0602, opcode: 0x02 }));
}

#[test]
fn chr_rom_write_is_a_fault() {
    let mut cpu = CPU::new();
    // LDA #$00; STA $2006; STA $2006; STA $2007
    let program = vec![0xa9, 0x00, 0x8d, 0x06, 0x20, 0x8d, 0x06, 0x20, 0x8d, 0x07, 0x20, 0x00];
    assert_eq!(cpu.load_and_run(program), Err(Fault::ChrRomWrite { addr: 0x0000 }));
    assert_eq!(cpu.step(), Err(Fault::ChrRomWrite { addr: 0x0000 }));
}

#[test]
fn unused_ppu_space_read_is_a_fault() {
    let mut cpu = CPU::new();
    // LDA #$30; STA $2006; LDA #$00; STA $2006; LDA $2007
    let program = vec![0xa9, 0x30, 0x8d, 0x06, 0x20, 0xa9, 0x00, 0x8d, 0x06, 0x20, 0xad, 0x07, 0x20, 0x00];
    assert_eq!(cpu.load_and_run(program), Err(Fault::UnusedPpuAccess { addr: 0x3000 }));
}

#[test]
fn reset_reads_vector_from_cartridge() {
    let bus = Bus::new(rom_with(&[0xa9, 0x42, 0x00], 0x8000, 0x9000, 0xa000));
    let mut cpu = CPU::with_bus(bus);
    assert_eq!(cpu.pc, 0x8000);
    assert_eq!(cpu.sp, 0xfd);
    assert_eq!(cpu.status, 0b0010_0100);
    assert_eq!(cpu.step().unwrap().cycles, 2);
    assert_eq!(cpu.register_a, 0x42);
    assert!(cpu.step().is_ok());
    assert_eq!(cpu.pc, 0xa000);
}

#[test]
fn nmi_is_taken_before_next_fetch() {
    let bus = Bus::new(rom_with(&[0xea], 0x8000, 0x9000, 0xa000));
    let mut cpu = CPU::with_bus(bus);
    cpu.bus.ppu.write_to_ctrl(0x80);
    cpu.bus.ppu.tick(341 * 241 + 1);
    let done = cpu.step().unwrap();
    assert_eq!(done.opcode, None);
    assert_eq!(done.cycles, 7);
    assert_eq!(cpu.pc, 0x9000);
    // Pushed status has B clear and bit 5 set.
    assert_eq!(cpu.bus.peek(0x01fb), 0x24);
    assert_eq!(cpu.bus.peek(0x01fd), 0x80);
    assert_eq!(cpu.bus.peek(0x01fc), 0x00);
}

#[test]
fn instruction_cycles_drive_the_ppu() {
    let mut cpu = CPU::new();
    cpu.load_program(&vec![0xea, 0xea]);
    cpu.pc = 0x0600;
    assert!(cpu.step().is_ok());
    assert_eq!(cpu.bus.cycles, 2);
    assert_eq!(cpu.bus.ppu.clock_cycles, 6);
}

#[test]
fn load_run_reset_starts_at_program() {
    let mut cpu = CPU::new();
    assert_eq!(cpu.load_run_reset(vec![0xa0, 0x09, 0x00]), Ok(()));
    assert_eq!(cpu.register_y, 9);
}

#[test]
fn inc_dec_memory() {
    let mut cpu = CPU::new();
    // INC $10 twice, DEC $11 once
    assert_eq!(cpu.load_and_run(vec![0xe6, 0x10, 0xe6, 0x10, 0xc6, 0x11, 0x00]), Ok(()));
    assert_eq!(cpu.bus.peek(0x10), 2);
    assert_eq!(cpu.bus.peek(0x11), 0xff);
    assert_eq!(cpu.status & NEGATIVE, NEGATIVE);
}

#[test]
fn jmp_indirect_page_bug_in_rom() {
    let mut prg = vec![0u8; 0x8000];
    prg[0x00ff] = 0x80;
    prg[0x0100] = 0x50;
    prg[0x0000] = 0x40;
    prg[0x0200] = 0x6c;
    prg[0x0201] = 0xff;
    prg[0x0202] = 0x80;
    prg[0x7ffc] = 0x00;
    prg[0x7ffd] = 0x82;
    let bus = Bus::new(Rom { prg_rom: prg, chr_rom: vec![0; 0x2000], screen_mirroring: Mirroring::VERTICAL });
    let mut cpu = CPU::with_bus(bus);
    assert_eq!(cpu.pc, 0x8200);
    assert_eq!(cpu.step().unwrap().cycles, 5);
    assert_eq!(cpu.pc, 0x4080);
}
