//! The picture processing unit: its memories, its register file as the CPU
//! sees it, and the scanline/dot clock that raises NMI at vertical blank.
use vstd::prelude::*;
use vstd::array::spec_array_update;

use crate::bits::{has, lemma_join_bytes, with_bits, word};
use crate::cartridge::Mirroring;
use crate::ppu_registers::{
    AddrRegister,
    ControlRegister,
    MaskRegister,
    PPURegister,
    ScrollRegister,
    StatusRegister,
    SPRITE_OVERFLOW,
    SPRITE_ZERO_HIT,
    VBLANK_STARTED,
};

verus! {

/// The last dot of a scanline.
pub const LAST_DOT: usize = 340;

/// The last scanline of a frame (the pre-render line).
pub const LAST_SCANLINE: usize = 261;

/// The scanline at whose dot 1 vertical blank starts.
pub const VBLANK_SCANLINE: usize = 241;

pub struct PPU {
    /// Pattern tables, read-only, from the cartridge.
    pub chr_rom: Vec<u8>,
    pub palette_table: [u8; 32],
    /// The two physical nametables.
    pub vram: [u8; 2048],
    pub oam_data: [u8; 256],
    pub mirroring: Mirroring,
    /// What the next read of `$2007` returns for pattern and nametable space.
    pub internal_data_buf: u8,
    /// The dot within the scanline, 0 to 340.
    pub clock_cycles: usize,
    /// The scanline within the frame, 0 to 261.
    pub scan_lines: usize,
    /// An NMI raised and not yet taken by the CPU.
    pub nmi_irq: Option<u8>,
    /// A frame finished drawing and the frontend has not taken it yet.
    pub frame_ready: bool,
    pub reg_addr: AddrRegister,
    pub reg_ctrl: ControlRegister,
    pub reg_oam_addr: u8,
    pub reg_mask: MaskRegister,
    pub reg_status: StatusRegister,
    pub reg_scroll: ScrollRegister,
}

/// Where pattern-table space ends in the PPU's address space.
pub open spec fn is_pattern(a: int) -> bool {
    0 <= a < 0x2000
}

/// Nametable space, `$2000`–`$2FFF`.
pub open spec fn is_nametable(a: int) -> bool {
    0x2000 <= a < 0x3000
}

/// The unused stretch `$3000`–`$3EFF`; touching it is a fatal fault.
pub open spec fn is_unused(a: int) -> bool {
    0x3000 <= a < 0x3f00
}

/// Palette space, `$3F00`–`$3FFF`.
pub open spec fn is_palette(a: int) -> bool {
    0x3f00 <= a < 0x4000
}

/// The byte of the palette table that a palette address names: the 32
/// entries repeat through `$3FFF`, and `$3F10/14/18/1C` alias
/// `$3F00/04/08/0C`.
pub open spec fn palette_index(a: int) -> int {
    let i = (a - 0x3f00) % 32;
    if i >= 16 && i % 4 == 0 {
        i - 16
    } else {
        i
    }
}

/// The byte of the physical nametables that a nametable address names
/// (`$3000`–`$3EFF` folded down first): vertical mirroring pairs logical
/// tables 0/2 and 1/3, horizontal pairs 0/1 and 2/3.
pub open spec fn vram_index(m: Mirroring, a: int) -> int {
    let i = (a - 0x2000) % 0x1000;
    let table = i / 0x400;
    let page = match m {
        Mirroring::VERTICAL => table % 2,
        Mirroring::HORIZONTAL => table / 2,
    };
    page * 0x400 + i % 0x400
}

/// A byte of character ROM; past its end the space is unmapped and reads 0.
pub open spec fn chr_byte(chr: Seq<u8>, a: int) -> u8 {
    if 0 <= a < chr.len() {
        chr[a]
    } else {
        0
    }
}

/// OAM after the first `n` bytes of `data` went in from `start` on, one
/// byte per slot, wrapping at 256.
pub open spec fn oam_after_dma(oam: [u8; 256], start: u8, data: Seq<u8>, n: nat) -> [u8; 256]
    decreases n,
{
    if n == 0 {
        oam
    } else {
        spec_array_update(
            oam_after_dma(oam, start, data, (n - 1) as nat),
            (start as int + n - 1) % 256,
            data[n - 1],
        )
    }
}

impl PPU {
    /// The shared `$2005`/`$2006` latch is one bit, the address fits in 14
    /// bits, and the clock is within a frame.
    pub open spec fn wf(&self) -> bool {
        &&& self.reg_addr.hi_ptr == self.reg_scroll.latch
        &&& self.reg_addr.value() < 0x4000
        &&& self.clock_cycles <= LAST_DOT
        &&& self.scan_lines <= LAST_SCANLINE
    }

    /// The address `$2007` accesses next.
    pub open spec fn data_addr(&self) -> int {
        self.reg_addr.value()
    }

    /// The address register after one access of `$2007`.
    pub open spec fn stepped_addr(&self) -> AddrRegister {
        self.reg_addr.holding(
            (self.reg_addr.value() + self.reg_ctrl.spec_vram_addr_increment()) % 0x4000,
        )
    }

    pub open spec fn after_mask_write(&self, value: u8) -> PPU {
        PPU { reg_mask: MaskRegister { bits: value }, ..*self }
    }

    /// Writing `$2006` fills the half that the shared latch selects and flips
    /// the latch.
    pub open spec fn after_addr_write(&self, value: u8) -> PPU {
        PPU {
            reg_addr: self.reg_addr.after_update(value),
            reg_scroll: ScrollRegister { latch: !self.reg_scroll.latch, ..self.reg_scroll },
            ..*self
        }
    }

    /// Writing `$2005` fills x or y as the shared latch selects and flips it.
    pub open spec fn after_scroll_write(&self, value: u8) -> PPU {
        PPU {
            reg_scroll: self.reg_scroll.after_update(value),
            reg_addr: AddrRegister { hi_ptr: !self.reg_addr.hi_ptr, ..self.reg_addr },
            ..*self
        }
    }

    /// Writing `$2000` raises NMI at once when it turns NMI generation on
    /// during vertical blank.
    pub open spec fn after_ctrl_write(&self, value: u8) -> PPU {
        let ctrl = ControlRegister { bits: value };
        let raise = !self.reg_ctrl.spec_generate_vblank_nmi() && ctrl.spec_generate_vblank_nmi()
            && has(self.reg_status.bits, VBLANK_STARTED);
        PPU {
            reg_ctrl: ctrl,
            nmi_irq: if raise {
                Some(1u8)
            } else {
                self.nmi_irq
            },
            ..*self
        }
    }

    pub open spec fn after_oam_addr_write(&self, value: u8) -> PPU {
        PPU { reg_oam_addr: value, ..*self }
    }

    /// Writing `$2004` stores at the OAM cursor and moves it on.
    pub open spec fn after_oam_data_write(&self, value: u8) -> PPU {
        PPU {
            oam_data: spec_array_update(self.oam_data, self.reg_oam_addr as int, value),
            reg_oam_addr: ((self.reg_oam_addr + 1) % 256) as u8,
            ..*self
        }
    }

    /// Whether `$2007` may be written now: not into character ROM, not into
    /// the unused stretch.
    pub open spec fn data_writable(&self) -> bool {
        !is_pattern(self.data_addr()) && !is_unused(self.data_addr())
    }

    /// Whether `$2007` may be read now: not from the unused stretch.
    pub open spec fn data_readable(&self) -> bool {
        !is_unused(self.data_addr())
    }

    /// Writing `$2007` stores at the addressed nametable or palette byte and
    /// steps the address.
    pub open spec fn after_data_write(&self, value: u8) -> PPU {
        let a = self.data_addr();
        PPU {
            vram: if is_nametable(a) {
                spec_array_update(self.vram, vram_index(self.mirroring, a), value)
            } else {
                self.vram
            },
            palette_table: if is_palette(a) {
                spec_array_update(self.palette_table, palette_index(a), value)
            } else {
                self.palette_table
            },
            reg_addr: self.stepped_addr(),
            ..*self
        }
    }

    /// The byte that the addressed location holds, for pattern and nametable
    /// space.
    pub open spec fn fetched(&self, a: int) -> u8 {
        if is_pattern(a) {
            chr_byte(self.chr_rom@, a)
        } else {
            self.vram[vram_index(self.mirroring, a)]
        }
    }

    /// What a read of `$2007` returns: the buffered byte for pattern and
    /// nametable space, the palette byte itself for palette space.
    pub open spec fn data_read_value(&self) -> u8 {
        let a = self.data_addr();
        if is_palette(a) {
            self.palette_table[palette_index(a)]
        } else {
            self.internal_data_buf
        }
    }

    /// A read of `$2007` refills the buffer (not from palette space) and
    /// steps the address.
    pub open spec fn after_data_read(&self) -> PPU {
        let a = self.data_addr();
        PPU {
            internal_data_buf: if is_palette(a) {
                self.internal_data_buf
            } else {
                self.fetched(a)
            },
            reg_addr: self.stepped_addr(),
            ..*self
        }
    }

    /// A read of `$2002` ends vertical blank and resets the shared latch.
    pub open spec fn after_status_read(&self) -> PPU {
        PPU {
            reg_status: StatusRegister { bits: with_bits(self.reg_status.bits, VBLANK_STARTED, false) },
            reg_addr: AddrRegister { hi_ptr: true, ..self.reg_addr },
            reg_scroll: ScrollRegister { latch: true, ..self.reg_scroll },
            ..*self
        }
    }

    /// OAM DMA: the 256 bytes go in from the OAM cursor on; the cursor comes
    /// round to where it was.
    pub open spec fn after_oam_dma(&self, data: Seq<u8>) -> PPU {
        PPU { oam_data: oam_after_dma(self.oam_data, self.reg_oam_addr, data, 256), ..*self }
    }

    /// One dot of the clock and what happens on the dot it reaches: at
    /// line 241, dot 1, vertical blank starts, the frame is ready, and NMI is
    /// raised if enabled; at line 261, dot 1, the status flags clear.
    pub open spec fn after_dot(&self) -> PPU {
        let next_line = self.clock_cycles >= LAST_DOT;
        let dot = if next_line {
            0
        } else {
            self.clock_cycles + 1
        };
        let line = if !next_line {
            self.scan_lines as int
        } else if self.scan_lines >= LAST_SCANLINE {
            0
        } else {
            self.scan_lines + 1
        };
        let moved = PPU { clock_cycles: dot as usize, scan_lines: line as usize, ..*self };
        if line == VBLANK_SCANLINE && dot == 1 {
            PPU {
                reg_status: StatusRegister { bits: with_bits(self.reg_status.bits, VBLANK_STARTED, true) },
                nmi_irq: if self.reg_ctrl.spec_generate_vblank_nmi() {
                    Some(1u8)
                } else {
                    self.nmi_irq
                },
                frame_ready: true,
                ..moved
            }
        } else if line == LAST_SCANLINE && dot == 1 {
            PPU {
                reg_status: StatusRegister {
                    bits: with_bits(
                        self.reg_status.bits,
                        VBLANK_STARTED | SPRITE_ZERO_HIT | SPRITE_OVERFLOW,
                        false,
                    ),
                },
                ..moved
            }
        } else {
            moved
        }
    }

    /// The PPU after `n` dots.
    pub open spec fn ticked(&self, n: nat) -> PPU
        decreases n,
    {
        if n == 0 {
            *self
        } else {
            self.ticked((n - 1) as nat).after_dot()
        }
    }
}

impl PPU {
    /// A PPU with 2 KiB of blank character ROM and horizontal mirroring.
    pub fn new_empty_rom() -> (r: Self)
        ensures
            r.wf(),
            r.chr_rom@ == Seq::new(2048, |_i| 0u8),
            r.mirroring == Mirroring::HORIZONTAL,
            r.vram@ == Seq::new(2048, |_i| 0u8),
            r.oam_data@ == Seq::new(256, |_i| 0u8),
            r.palette_table@ == Seq::new(32, |_i| 0u8),
            r.internal_data_buf == 0,
            r.clock_cycles == 0 && r.scan_lines == 0,
            r.nmi_irq is None,
            !r.frame_ready,
            r.reg_addr.value() == 0 && r.reg_addr.hi_ptr,
            r.reg_ctrl.bits == 0 && r.reg_mask.bits == 0 && r.reg_status.bits == 0,
            r.reg_oam_addr == 0,
    {
        let chr: Vec<u8> = vec![0; 2048];
        assert(chr@ =~= Seq::new(2048, |_i| 0u8));
        PPU::new(chr, Mirroring::HORIZONTAL)
    }

    /// A PPU at power-on: memories cleared, registers zero, clock at the
    /// start of the frame, no NMI pending.
    pub fn new(chr_rom: Vec<u8>, mirroring: Mirroring) -> (r: Self)
        ensures
            r.wf(),
            r.chr_rom == chr_rom,
            r.mirroring == mirroring,
            r.vram@ == Seq::new(2048, |_i| 0u8),
            r.oam_data@ == Seq::new(256, |_i| 0u8),
            r.palette_table@ == Seq::new(32, |_i| 0u8),
            r.internal_data_buf == 0,
            r.clock_cycles == 0 && r.scan_lines == 0,
            r.nmi_irq is None,
            !r.frame_ready,
            r.reg_addr.value() == 0 && r.reg_addr.hi_ptr,
            r.reg_ctrl.bits == 0 && r.reg_mask.bits == 0 && r.reg_status.bits == 0,
            r.reg_oam_addr == 0,
            r.reg_scroll.x == 0 && r.reg_scroll.y == 0,
    {
        let r = PPU {
            chr_rom: chr_rom,
            mirroring: mirroring,
            vram: [0; 2048],
            oam_data: [0; 256],
            palette_table: [0; 32],
            internal_data_buf: 0,
            clock_cycles: 0,
            scan_lines: 0,
            nmi_irq: None,
            frame_ready: false,
            reg_addr: AddrRegister::new(),
            reg_ctrl: ControlRegister::new(),
            reg_oam_addr: 0,
            reg_mask: MaskRegister::new(),
            reg_status: StatusRegister::new(),
            reg_scroll: ScrollRegister::new(),
        };
        assert(r.vram@ =~= Seq::new(2048, |_i| 0u8));
        assert(r.oam_data@ =~= Seq::new(256, |_i| 0u8));
        assert(r.palette_table@ =~= Seq::new(32, |_i| 0u8));
        r
    }

    /// Whether the PPU is well formed; for callers that Verus does not see.
    pub fn is_well_formed(&self) -> (r: bool)
        ensures
            r == self.wf(),
    {
        self.reg_addr.hi_ptr == self.reg_scroll.latch && self.reg_addr.get() < 0x4000
            && self.clock_cycles <= LAST_DOT && self.scan_lines <= LAST_SCANLINE
    }

    /// Takes the news that a frame finished drawing, leaving none.
    pub fn take_frame_ready(&mut self) -> (r: bool)
        ensures
            r == old(self).frame_ready,
            *final(self) == (PPU { frame_ready: false, ..*old(self) }),
    {
        let r = self.frame_ready;
        self.frame_ready = false;
        r
    }

    /// Takes the pending NMI, leaving none.
    pub fn pull_nmi_irq(&mut self) -> (r: Option<u8>)
        ensures
            r == old(self).nmi_irq,
            *final(self) == (PPU { nmi_irq: None, ..*old(self) }),
    {
        let r = self.nmi_irq;
        self.nmi_irq = None;
        r
    }

    pub fn write_to_ppu_mask(&mut self, value: u8)
        ensures
            *final(self) == old(self).after_mask_write(value),
    {
        self.reg_mask.update(value)
    }

    pub fn write_to_ppu_addr(&mut self, value: u8)
        requires
            old(self).wf(),
        ensures
            *final(self) == old(self).after_addr_write(value),
            final(self).wf(),
    {
        self.reg_addr.update(value);
        self.reg_scroll.latch = self.reg_addr.hi_ptr;
    }

    pub fn write_to_ctrl(&mut self, value: u8)
        ensures
            *final(self) == old(self).after_ctrl_write(value),
    {
        let before_ctrl_nmi = self.reg_ctrl.generate_vblank_nmi();
        self.reg_ctrl.update(value);
        if !before_ctrl_nmi && self.reg_ctrl.generate_vblank_nmi() && self.reg_status.is_in_vblank() {
            self.nmi_irq = Some(1);
        }
    }

    pub fn write_to_oam_addr(&mut self, value: u8)
        ensures
            *final(self) == old(self).after_oam_addr_write(value),
    {
        self.reg_oam_addr = value;
    }

    pub fn write_to_oam_data(&mut self, value: u8)
        ensures
            *final(self) == old(self).after_oam_data_write(value),
    {
        self.oam_data[self.reg_oam_addr as usize] = value;
        self.reg_oam_addr = self.reg_oam_addr.wrapping_add(1);
        assert(self.oam_data =~= spec_array_update(old(self).oam_data, old(self).reg_oam_addr as int, value));
    }

    pub fn write_to_scroll(&mut self, value: u8)
        requires
            old(self).wf(),
        ensures
            *final(self) == old(self).after_scroll_write(value),
            final(self).wf(),
    {
        self.reg_scroll.update(value);
        self.reg_addr.hi_ptr = self.reg_scroll.latch;
    }

    /// Writes `$2007`. Character ROM and the unused stretch are not
    /// writable: a caller tests `data_writable` first.
    pub fn write_to_data(&mut self, value: u8)
        requires
            old(self).wf(),
            old(self).data_writable(),
        ensures
            *final(self) == old(self).after_data_write(value),
            final(self).wf(),
    {
        let addr = self.reg_addr.get();
        self.increment_vram_addr();
        if addr < 0x3000 {
            let i = self.mirror_vram_addr(addr);
            self.vram[i as usize] = value;
            assert(self.vram =~= spec_array_update(old(self).vram, i as int, value));
        } else {
            let i = palette_slot(addr);
            self.palette_table[i] = value;
            assert(self.palette_table =~= spec_array_update(old(self).palette_table, i as int, value));
        }
    }

    /// Copies 256 bytes into OAM from the OAM cursor on.
    pub fn write_oam_dma(&mut self, data: &[u8])
        requires
            data@.len() == 256,
        ensures
            *final(self) == old(self).after_oam_dma(data@),
    {
        let start = self.reg_oam_addr;
        let mut i: usize = 0;
        while i < data.len()
            invariant
                data@.len() == 256,
                0 <= i <= 256,
                self.reg_oam_addr == (start + i) % 256,
                *self == (PPU {
                    oam_data: oam_after_dma(old(self).oam_data, start, data@, i as nat),
                    reg_oam_addr: self.reg_oam_addr,
                    ..*old(self)
                }),
                start == old(self).reg_oam_addr,
            decreases 256 - i,
        {
            let ghost before = self.oam_data;
            self.oam_data[self.reg_oam_addr as usize] = data[i];
            self.reg_oam_addr = self.reg_oam_addr.wrapping_add(1);
            assert(self.oam_data =~= spec_array_update(before, (start + i) % 256, data@[i as int]));
            i = i + 1;
        }
    }

    fn increment_vram_addr(&mut self)
        requires
            old(self).wf(),
        ensures
            *final(self) == (PPU { reg_addr: old(self).stepped_addr(), ..*old(self) }),
            final(self).wf(),
    {
        self.reg_addr.increment(self.reg_ctrl.vram_addr_increment());
    }

    /// Reads `$2002`: the status bits, then vertical blank ends and the
    /// shared latch is reset.
    pub fn read_ppu_status(&mut self) -> (r: u8)
        requires
            old(self).wf(),
        ensures
            r == old(self).reg_status.bits,
            *final(self) == old(self).after_status_read(),
            final(self).wf(),
    {
        let res = self.reg_status.snapshot();
        self.reg_addr.reset_latch();
        self.reg_scroll.reset_latch();
        self.reg_status.reset_vblank_status();
        res
    }

    /// Reads `$2004`; the cursor does not move.
    pub fn read_oam_data(&self) -> (r: u8)
        ensures
            r == self.oam_data[self.reg_oam_addr as int],
    {
        self.oam_data[self.reg_oam_addr as usize]
    }

    /// Reads `$2007`. The unused stretch is not readable: a caller tests
    /// `data_readable` first.
    pub fn read_data(&mut self) -> (r: u8)
        requires
            old(self).wf(),
            old(self).data_readable(),
        ensures
            r == old(self).data_read_value(),
            *final(self) == old(self).after_data_read(),
            final(self).wf(),
    {
        let addr = self.reg_addr.get();
        self.increment_vram_addr();
        if addr < 0x2000 {
            let result = self.internal_data_buf;
            self.internal_data_buf = if (addr as usize) < self.chr_rom.len() {
                self.chr_rom[addr as usize]
            } else {
                0
            };
            result
        } else if addr < 0x3000 {
            let result = self.internal_data_buf;
            let i = self.mirror_vram_addr(addr);
            self.internal_data_buf = self.vram[i as usize];
            result
        } else {
            self.palette_table[palette_slot(addr)]
        }
    }

    /// The byte of the physical nametables that a nametable address names.
    pub fn mirror_vram_addr(&self, addr: u16) -> (r: u16)
        requires
            0x2000 <= addr < 0x4000,
        ensures
            r == vram_index(self.mirroring, addr as int),
            r < 0x800,
    {
        let mirrored_vram = addr & 0b10111111111111;
        assert(addr & 0x2fffu16 == 0x2000 + (addr - 0x2000) % 0x1000) by (bit_vector)
            requires
                0x2000 <= addr < 0x4000,
        ;
        let vram_index = mirrored_vram - 0x2000;
        let name_table = vram_index / 0x400;
        match (self.mirroring, name_table) {
            (Mirroring::VERTICAL, 2) | (Mirroring::VERTICAL, 3) => vram_index - 0x800,
            (Mirroring::HORIZONTAL, 1) => vram_index - 0x400,
            (Mirroring::HORIZONTAL, 2) => vram_index - 0x400,
            (Mirroring::HORIZONTAL, 3) => vram_index - 0x800,
            _ => vram_index,
        }
    }

    /// Advances the clock by one dot.
    fn dot_step(&mut self)
        requires
            old(self).wf(),
        ensures
            *final(self) == old(self).after_dot(),
            final(self).wf(),
    {
        let ghost start = *self;
        if self.clock_cycles >= LAST_DOT {
            self.clock_cycles = 0;
            if self.scan_lines >= LAST_SCANLINE {
                self.scan_lines = 0;
            } else {
                self.scan_lines = self.scan_lines + 1;
            }
        } else {
            self.clock_cycles = self.clock_cycles + 1;
        }
        if self.scan_lines == VBLANK_SCANLINE && self.clock_cycles == 1 {
            self.reg_status.set_vblank_status(true);
            self.frame_ready = true;
            if self.reg_ctrl.generate_vblank_nmi() {
                self.nmi_irq = Some(1);
            }
        } else if self.scan_lines == LAST_SCANLINE && self.clock_cycles == 1 {
            self.reg_status.set_bits_cleared(VBLANK_STARTED | SPRITE_ZERO_HIT | SPRITE_OVERFLOW);
        }
    }

    /// Advances the clock by `cycles` dots.
    pub fn tick(&mut self, cycles: usize)
        requires
            old(self).wf(),
        ensures
            *final(self) == old(self).ticked(cycles as nat),
            final(self).wf(),
    {
        let mut i: usize = 0;
        while i < cycles
            invariant
                0 <= i <= cycles,
                *self == old(self).ticked(i as nat),
                self.wf(),
            decreases cycles - i,
        {
            self.dot_step();
            i = i + 1;
        }
    }
}

/// The palette-table slot of a palette address.
pub(crate) fn palette_slot(addr: u16) -> (r: usize)
    requires
        0x3f00 <= addr < 0x4000,
    ensures
        r == palette_index(addr as int),
        r < 32,
{
    let i = ((addr - 0x3f00) % 32) as usize;
    if i >= 16 && i % 4 == 0 {
        i - 16
    } else {
        i
    }
}

/// Two writes to `$2006`, high byte then low, set the address to
/// `((hi & 0x3F) << 8) | lo`, that is `(hi << 8 | lo)` folded into 14 bits.
pub proof fn lemma_addr_round_trip(p: PPU, hi: u8, lo: u8)
    requires
        p.wf(),
        p.reg_addr.hi_ptr,
    ensures
        p.after_addr_write(hi).after_addr_write(lo).data_addr() == word(hi, lo) % 0x4000,
        p.after_addr_write(hi).after_addr_write(lo).data_addr() == ((hi & 0x3f) as u16) << 8u16 | (lo as u16),
        p.after_addr_write(hi).after_addr_write(lo).reg_addr.hi_ptr,
{
    lemma_fold_word(hi, p.reg_addr.val.1);
    lemma_fold_word((hi % 64) as u8, lo);
    lemma_join_bytes(hi & 0x3f, lo);
    assert((hi & 0x3f) as int == hi as int % 64) by (bit_vector);
}

/// Folding a word into 14 bits keeps the low byte and the low six bits of
/// the high byte.
proof fn lemma_fold_word(hi: u8, lo: u8)
    ensures
        word(hi, lo) % 0x4000 / 256 == hi % 64,
        word(hi, lo) % 0x4000 % 256 == lo,
        word(hi, lo) % 256 == lo,
{
    assert((hi as int * 256 + lo as int) % 0x4000 == (hi as int % 64) * 256 + lo as int) by (nonlinear_arith)
        requires
            0 <= lo < 256,
            0 <= hi < 256,
    ;
}

/// Reading `$2002` between the two writes to `$2006` resets the shared
/// latch: the second byte is taken as the high byte again.
pub proof fn lemma_status_read_resets_addr_latch(p: PPU, first: u8, second: u8)
    requires
        p.wf(),
    ensures
        p.after_addr_write(first).after_status_read().after_addr_write(second).reg_addr.val.0
            == second % 64,
        p.after_addr_write(first).after_status_read().after_addr_write(second).reg_addr.val.1
            == p.after_addr_write(first).reg_addr.val.1,
{
    let q = p.after_addr_write(first).after_status_read();
    lemma_fold_word(second, q.reg_addr.val.1);
}

/// A byte written through `$2007` comes back when the same address is set
/// again and read: from nametable space on the second read, the first
/// returning the stale buffer; from palette space on the first read.
pub proof fn lemma_data_write_then_read(p: PPU, hi: u8, lo: u8, v: u8)
    requires
        p.wf(),
        p.reg_addr.hi_ptr,
        !is_pattern(word(hi, lo) % 0x4000),
        !is_unused(word(hi, lo) % 0x4000),
    ensures
        ({
            let w = p.after_addr_write(hi).after_addr_write(lo).after_data_write(v);
            let r = w.after_addr_write(hi).after_addr_write(lo);
            &&& is_nametable(word(hi, lo) % 0x4000) ==> r.data_read_value() == w.internal_data_buf
                && r.after_data_read().data_read_value() == v
            &&& is_palette(word(hi, lo) % 0x4000) ==> r.data_read_value() == v
        }),
{
    let a = word(hi, lo) % 0x4000;
    lemma_addr_round_trip(p, hi, lo);
    let s = p.after_addr_write(hi).after_addr_write(lo);
    let w = s.after_data_write(v);
    assert(w.wf());
    lemma_addr_round_trip(w, hi, lo);
    if is_nametable(a) {
        lemma_vram_index_bounds(p.mirroring, a);
    }
}

/// Nametable addresses land inside the 2 KiB of physical nametables.
pub proof fn lemma_vram_index_bounds(m: Mirroring, a: int)
    requires
        is_nametable(a),
    ensures
        0 <= vram_index(m, a) < 0x800,
{
}

} // verus!
