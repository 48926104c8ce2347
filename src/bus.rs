//! The CPU's address space: 2 KiB of RAM mirrored to `$1FFF`, the eight PPU
//! registers mirrored to `$3FFF`, the OAM DMA register, and program ROM from
//! `$8000`. The bus also owns the clock that drives the PPU.
use vstd::prelude::*;
use vstd::array::spec_array_update;

use crate::bits::lemma_low_mask;
use crate::cartridge::{Mirroring, Rom};
use crate::mem::Mem;
use crate::ppu::{is_pattern, palette_slot, PPU};

verus! {

/// Where the RAM mirrors end.
pub const RAM_MIRRORS_END: u16 = 0x1fff;

/// Where the PPU register mirrors end.
pub const PPU_REGISTERS_MIRRORS_END: u16 = 0x3fff;

/// The address whose write starts an OAM DMA.
pub const OAM_DMA: u16 = 0x4014;

/// Where program ROM starts.
pub const PRG_ROM_START: u16 = 0x8000;

/// A condition that halts the emulator.
#[derive(Clone, Copy, Debug, PartialEq, Eq, Structural)]
pub enum Fault {
    /// The byte at `pc` is no documented opcode.
    UnknownOpcode { pc: u16, opcode: u8 },
    /// A write through `$2007` aimed at character ROM.
    ChrRomWrite { addr: u16 },
    /// An access through `$2007` aimed at the unused `$3000`–`$3EFF`.
    UnusedPpuAccess { addr: u16 },
}

pub struct Bus {
    pub cpu_vram: [u8; 2048],
    pub prg_rom: Vec<u8>,
    pub ppu: PPU,
    /// CPU cycles elapsed, modulo 2^64.
    pub cycles: u64,
    /// The first fatal access, if one happened.
    pub fault: Option<Fault>,
}

/// A byte of program ROM at a CPU address of `$8000` or above: a 16 KiB
/// image repeats to fill the 32 KiB window; with no ROM the space reads 0.
pub open spec fn prg_byte(prg: Seq<u8>, addr: int) -> u8 {
    if prg.len() > 0 {
        prg[(addr - 0x8000) % (prg.len() as int)]
    } else {
        0
    }
}

/// The PPU register that a CPU address in `$2000`–`$3FFF` reaches.
pub open spec fn ppu_register(addr: int) -> int {
    addr % 8
}

/// The CPU cycles that an OAM DMA stalls for, one more on an odd cycle.
pub open spec fn dma_stall(cycles: u64) -> u64 {
    if cycles % 2 == 1 {
        514
    } else {
        513
    }
}

impl Bus {
    pub open spec fn wf(&self) -> bool {
        self.ppu.wf()
    }

    /// The bus with `f` recorded, unless an earlier fault is.
    pub open spec fn faulted(&self, f: Fault) -> Bus {
        Bus {
            fault: if self.fault is Some {
                self.fault
            } else {
                Some(f)
            },
            ..*self
        }
    }

    /// What a read of PPU register `reg` returns; write-only ones read 0.
    pub open spec fn ppu_read_value(&self, reg: int) -> u8 {
        if reg == 2 {
            self.ppu.reg_status.bits
        } else if reg == 4 {
            self.ppu.oam_data[self.ppu.reg_oam_addr as int]
        } else if reg == 7 && self.ppu.data_readable() {
            self.ppu.data_read_value()
        } else {
            0
        }
    }

    /// The bus after a read of PPU register `reg`: `$2002` and `$2007` have
    /// side effects, and a read of `$2007` from the unused stretch is a fault.
    pub open spec fn after_ppu_read(&self, reg: int) -> Bus {
        if reg == 2 {
            Bus { ppu: self.ppu.after_status_read(), ..*self }
        } else if reg == 7 {
            if self.ppu.data_readable() {
                Bus { ppu: self.ppu.after_data_read(), ..*self }
            } else {
                self.faulted(Fault::UnusedPpuAccess { addr: self.ppu.data_addr() as u16 })
            }
        } else {
            *self
        }
    }

    /// The bus after `value` was written to PPU register `reg`; `$2002` is
    /// read-only, and a write of `$2007` outside nametable and palette space
    /// is a fault.
    pub open spec fn after_ppu_write(&self, reg: int, value: u8) -> Bus {
        if reg == 0 {
            Bus { ppu: self.ppu.after_ctrl_write(value), ..*self }
        } else if reg == 1 {
            Bus { ppu: self.ppu.after_mask_write(value), ..*self }
        } else if reg == 3 {
            Bus { ppu: self.ppu.after_oam_addr_write(value), ..*self }
        } else if reg == 4 {
            Bus { ppu: self.ppu.after_oam_data_write(value), ..*self }
        } else if reg == 5 {
            Bus { ppu: self.ppu.after_scroll_write(value), ..*self }
        } else if reg == 6 {
            Bus { ppu: self.ppu.after_addr_write(value), ..*self }
        } else if reg == 7 {
            if self.ppu.data_writable() {
                Bus { ppu: self.ppu.after_data_write(value), ..*self }
            } else if is_pattern(self.ppu.data_addr()) {
                self.faulted(Fault::ChrRomWrite { addr: self.ppu.data_addr() as u16 })
            } else {
                self.faulted(Fault::UnusedPpuAccess { addr: self.ppu.data_addr() as u16 })
            }
        } else {
            *self
        }
    }

    /// The 256 bytes of page `page` as reads would return them.
    pub open spec fn page_bytes(&self, page: u8) -> Seq<u8> {
        Seq::new(256, |i: int| self.byte_read((page as int * 256 + i) as u16))
    }

    /// OAM DMA from page `page`: the page goes to OAM, and the CPU stalls
    /// while the PPU runs on.
    pub open spec fn after_dma(&self, page: u8) -> Bus {
        let stall = dma_stall(self.cycles);
        Bus {
            ppu: self.ppu.after_oam_dma(self.page_bytes(page)).ticked(3 * stall as nat),
            cycles: ((self.cycles + stall) % 0x1_0000_0000_0000_0000) as u64,
            ..*self
        }
    }

    /// The bus after `cycles` CPU cycles: the PPU runs three dots for each.
    pub open spec fn after_tick(&self, cycles: u16) -> Bus {
        Bus {
            ppu: self.ppu.ticked(3 * cycles as nat),
            cycles: ((self.cycles + cycles) % 0x1_0000_0000_0000_0000) as u64,
            ..*self
        }
    }
}

impl Bus {
    /// A bus around the cartridge `rom`, RAM cleared.
    pub fn new(rom: Rom) -> (r: Bus)
        ensures
            r.wf(),
            r.cpu_vram@ == Seq::new(2048, |_i| 0u8),
            r.prg_rom == rom.prg_rom,
            r.ppu.chr_rom == rom.chr_rom,
            r.ppu.mirroring == rom.screen_mirroring,
            r.cycles == 0,
            r.fault is None,
            r.ppu.nmi_irq is None,
    {
        let ppu = PPU::new(rom.chr_rom, rom.screen_mirroring);
        let r = Bus { cpu_vram: [0; 2048], prg_rom: rom.prg_rom, ppu, cycles: 0, fault: None };
        assert(r.cpu_vram@ =~= Seq::new(2048, |_i| 0u8));
        r
    }

    /// A bus with no program ROM and blank character ROM, for running code
    /// out of RAM.
    pub fn new_empty() -> (r: Bus)
        ensures
            r.wf(),
            r.cpu_vram@ == Seq::new(2048, |_i| 0u8),
            r.prg_rom@.len() == 0,
            r.ppu.chr_rom@.len() == 0x2000,
            r.cycles == 0,
            r.fault is None,
            r.ppu.nmi_irq is None,
    {
        Bus::new(Rom { prg_rom: Vec::new(), chr_rom: vec![0; 0x2000], screen_mirroring: Mirroring::HORIZONTAL })
    }

    fn record_fault(&mut self, f: Fault)
        ensures
            *final(self) == old(self).faulted(f),
    {
        if self.fault.is_none() {
            self.fault = Some(f);
        }
    }

    /// What a read of `addr` would return, without its side effects.
    pub fn peek(&self, addr: u16) -> (r: u8)
        requires
            self.wf(),
        ensures
            r == self.byte_read(addr),
    {
        proof {
            lemma_low_mask(addr);
        }
        if addr <= RAM_MIRRORS_END {
            self.cpu_vram[(addr & 0x07ff) as usize]
        } else if addr <= PPU_REGISTERS_MIRRORS_END {
            let reg = addr & 0x0007;
            if reg == 2 {
                self.ppu.reg_status.bits
            } else if reg == 4 {
                self.ppu.read_oam_data()
            } else if reg == 7 {
                let a = self.ppu.reg_addr.get();
                if 0x3000 <= a && a < 0x3f00 {
                    0
                } else if a >= 0x3f00 {
                    self.ppu.palette_table[palette_slot(a)]
                } else {
                    self.ppu.internal_data_buf
                }
            } else {
                0
            }
        } else if addr >= PRG_ROM_START {
            self.prg_read(addr)
        } else {
            0
        }
    }

    fn prg_read(&self, addr: u16) -> (r: u8)
        requires
            addr >= PRG_ROM_START,
        ensures
            r == prg_byte(self.prg_rom@, addr as int),
    {
        let len = self.prg_rom.len();
        if len > 0 {
            self.prg_rom[((addr - PRG_ROM_START) as usize) % len]
        } else {
            0
        }
    }

    /// Copies page `page` into OAM and runs the clock over the stall.
    fn oam_dma(&mut self, page: u8)
        requires
            old(self).wf(),
        ensures
            *final(self) == old(self).after_dma(page),
            final(self).wf(),
    {
        let mut data: Vec<u8> = Vec::new();
        let base: u16 = (page as u16) * 256;
        let mut i: u16 = 0;
        while i < 256
            invariant
                self.wf(),
                0 <= i <= 256,
                base == page as int * 256,
                data@.len() == i,
                forall|j: int| 0 <= j < i ==> data@[j] == self.byte_read((base + j) as u16),
            decreases 256 - i,
        {
            data.push(self.peek(base + i));
            i = i + 1;
        }
        assert(data@ =~= self.page_bytes(page));
        self.ppu.write_oam_dma(data.as_slice());
        let stall: u16 = if self.cycles % 2 == 1 {
            514
        } else {
            513
        };
        self.tick(stall);
    }

    /// Runs the clock for `cycles` CPU cycles.
    pub fn tick(&mut self, cycles: u16)
        requires
            old(self).wf(),
        ensures
            *final(self) == old(self).after_tick(cycles),
            final(self).wf(),
    {
        self.cycles = self.cycles.wrapping_add(cycles as u64);
        self.ppu.tick(3 * cycles as usize);
    }

    /// Takes the NMI that the PPU has raised, if any.
    pub fn poll_nmi_status(&mut self) -> (r: Option<u8>)
        ensures
            r == old(self).ppu.nmi_irq,
            *final(self) == (Bus { ppu: PPU { nmi_irq: None, ..old(self).ppu }, ..*old(self) }),
    {
        self.ppu.pull_nmi_irq()
    }
}

impl Bus {
    /// What a read of `addr` returns.
    pub closed spec fn byte_read(&self, addr: u16) -> u8 {
        if addr <= RAM_MIRRORS_END {
            self.cpu_vram[addr as int % 0x800]
        } else if addr <= PPU_REGISTERS_MIRRORS_END {
            self.ppu_read_value(ppu_register(addr as int))
        } else if addr >= PRG_ROM_START {
            prg_byte(self.prg_rom@, addr as int)
        } else {
            0
        }
    }

    /// The bus after a read of `addr`.
    pub closed spec fn after_reading(&self, addr: u16) -> Bus {
        if RAM_MIRRORS_END < addr <= PPU_REGISTERS_MIRRORS_END {
            self.after_ppu_read(ppu_register(addr as int))
        } else {
            *self
        }
    }

    /// The bus after `value` was written to `addr`; ROM and the unmapped
    /// addresses drop the write.
    pub closed spec fn after_writing(&self, addr: u16, value: u8) -> Bus {
        if addr <= RAM_MIRRORS_END {
            Bus { cpu_vram: spec_array_update(self.cpu_vram, addr as int % 0x800, value), ..*self }
        } else if addr <= PPU_REGISTERS_MIRRORS_END {
            self.after_ppu_write(ppu_register(addr as int), value)
        } else if addr == OAM_DMA {
            self.after_dma(value)
        } else {
            *self
        }
    }
}

impl Mem for Bus {
    open spec fn ready(&self) -> bool {
        self.wf()
    }

    open spec fn read_value(&self, addr: u16) -> u8 {
        self.byte_read(addr)
    }

    open spec fn after_read(&self, addr: u16) -> Bus {
        self.after_reading(addr)
    }

    open spec fn after_write(&self, addr: u16, data: u8) -> Bus {
        self.after_writing(addr, data)
    }

    /// Reads `addr`, with the side effects of the PPU registers.
    fn mem_read(&mut self, addr: u16) -> (r: u8) {
        proof {
            lemma_low_mask(addr);
        }
        if addr <= RAM_MIRRORS_END {
            self.cpu_vram[(addr & 0x07ff) as usize]
        } else if addr <= PPU_REGISTERS_MIRRORS_END {
            let reg = addr & 0x0007;
            if reg == 2 {
                self.ppu.read_ppu_status()
            } else if reg == 4 {
                self.ppu.read_oam_data()
            } else if reg == 7 {
                let a = self.ppu.reg_addr.get();
                if 0x3000 <= a && a < 0x3f00 {
                    self.record_fault(Fault::UnusedPpuAccess { addr: a });
                    0
                } else {
                    self.ppu.read_data()
                }
            } else {
                0
            }
        } else if addr >= PRG_ROM_START {
            self.prg_read(addr)
        } else {
            0
        }
    }

    /// Writes `value` to `addr`.
    fn mem_write(&mut self, addr: u16, value: u8) {
        proof {
            lemma_low_mask(addr);
        }
        if addr <= RAM_MIRRORS_END {
            let i = (addr & 0x07ff) as usize;
            self.cpu_vram[i] = value;
            assert(self.cpu_vram =~= spec_array_update(old(self).cpu_vram, addr as int % 0x800, value));
        } else if addr <= PPU_REGISTERS_MIRRORS_END {
            let reg = addr & 0x0007;
            if reg == 0 {
                self.ppu.write_to_ctrl(value);
            } else if reg == 1 {
                self.ppu.write_to_ppu_mask(value);
            } else if reg == 3 {
                self.ppu.write_to_oam_addr(value);
            } else if reg == 4 {
                self.ppu.write_to_oam_data(value);
            } else if reg == 5 {
                self.ppu.write_to_scroll(value);
            } else if reg == 6 {
                self.ppu.write_to_ppu_addr(value);
            } else if reg == 7 {
                let a = self.ppu.reg_addr.get();
                if a < 0x2000 {
                    self.record_fault(Fault::ChrRomWrite { addr: a });
                } else if a < 0x3f00 && a >= 0x3000 {
                    self.record_fault(Fault::UnusedPpuAccess { addr: a });
                } else {
                    self.ppu.write_to_data(value);
                }
            }
        } else if addr == OAM_DMA {
            self.oam_dma(value);
        }
    }
}

/// RAM mirroring: every address in `$0000`–`$1FFF` reads, and is written, as
/// the address with the same low eleven bits.
pub proof fn lemma_ram_mirroring(bus: Bus, addr: u16, value: u8)
    requires
        addr <= RAM_MIRRORS_END,
    ensures
        bus.byte_read(addr) == bus.byte_read(addr & 0x07ff),
        bus.after_reading(addr) == bus.after_reading(addr & 0x07ff),
        bus.after_writing(addr, value) == bus.after_writing(addr & 0x07ff, value),
{
    lemma_low_mask(addr);
}

/// PPU register mirroring: every address in `$2000`–`$3FFF` reaches the
/// same register as `$2000 | (addr & 7)`, for reads and for writes.
pub proof fn lemma_ppu_register_mirroring(bus: Bus, addr: u16, value: u8)
    requires
        0x2000 <= addr <= PPU_REGISTERS_MIRRORS_END,
    ensures
        bus.byte_read(addr) == bus.byte_read(0x2000 | (addr & 7)),
        bus.after_reading(addr) == bus.after_reading(0x2000 | (addr & 7)),
        bus.after_writing(addr, value) == bus.after_writing(0x2000 | (addr & 7), value),
{
    assert(0x2000 | (addr & 7) == 0x2000 + addr % 8) by (bit_vector);
}

/// RAM at `$0000`–`$1FFF`: a read returns the stored byte and changes
/// nothing; a write stores the byte and changes nothing else.
pub proof fn lemma_ram_access(bus: Bus, addr: u16, value: u8)
    requires
        addr <= RAM_MIRRORS_END,
    ensures
        bus.byte_read(addr) == bus.cpu_vram[addr as int % 0x800],
        bus.after_reading(addr) == bus,
        bus.after_writing(addr, value) == (Bus {
            cpu_vram: spec_array_update(bus.cpu_vram, addr as int % 0x800, value),
            ..bus
        }),
{
}

} // verus!
