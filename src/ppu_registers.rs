//! The latched and bit-flag registers of the picture processing unit.
use vstd::prelude::*;

use crate::bits::{has, lemma_join_bytes, lemma_split_word, lemma_low_mask, word};

verus! {

/// A register that the CPU writes one byte at a time.
pub trait PPURegister: Sized {
    /// The register after `data` has been written to it.
    spec fn after_update(&self, data: u8) -> Self;

    fn update(&mut self, data: u8)
        ensures
            *final(self) == old(self).after_update(data),
    ;
}

/// `$2005`: the scroll position, written x first and y second.
///
/// `latch` is true when the next write is the first of a pair.
pub struct ScrollRegister {
    pub x: u8,
    pub y: u8,
    pub latch: bool,
}

impl PPURegister for ScrollRegister {
    open spec fn after_update(&self, data: u8) -> Self {
        if self.latch {
            ScrollRegister { x: data, y: self.y, latch: false }
        } else {
            ScrollRegister { x: self.x, y: data, latch: true }
        }
    }

    fn update(&mut self, data: u8) {
        if self.latch {
            self.x = data;
        } else {
            self.y = data;
        }
        self.latch = !self.latch;
    }
}

impl ScrollRegister {
    pub fn new() -> (r: Self)
        ensures
            r.x == 0 && r.y == 0 && r.latch,
    {
        ScrollRegister { x: 0, y: 0, latch: true }
    }

    pub fn reset_latch(&mut self)
        ensures
            *final(self) == (ScrollRegister { latch: true, ..*old(self) }),
    {
        self.latch = true;
    }
}

/// `$2006`: the 14-bit address into the PPU's memory, written high byte first.
///
/// `val.0` is the high byte and `val.1` the low byte; `hi_ptr` is true when
/// the next write goes to the high byte.
pub struct AddrRegister {
    pub val: (u8, u8),
    pub hi_ptr: bool,
}

impl AddrRegister {
    /// The address the register holds.
    pub open spec fn value(&self) -> int {
        word(self.val.0, self.val.1)
    }

    /// The register holding `v`, which must fit in 16 bits.
    pub open spec fn holding(&self, v: int) -> Self {
        AddrRegister { val: ((v / 256) as u8, (v % 256) as u8), hi_ptr: self.hi_ptr }
    }
}

impl PPURegister for AddrRegister {
    /// The written byte replaces the half that the latch selects, the result
    /// is folded into 14 bits, and the latch flips.
    open spec fn after_update(&self, data: u8) -> Self {
        let v = if self.hi_ptr {
            word(data, self.val.1)
        } else {
            word(self.val.0, data)
        };
        AddrRegister { val: ((v % 0x4000 / 256) as u8, (v % 256) as u8), hi_ptr: !self.hi_ptr }
    }

    fn update(&mut self, data: u8) {
        if self.hi_ptr {
            self.val.0 = data;
        } else {
            self.val.1 = data;
        }
        self.check_mirror();
        self.hi_ptr = !self.hi_ptr;
    }
}

impl AddrRegister {
    pub fn new() -> (r: Self)
        ensures
            r.val == (0u8, 0u8) && r.hi_ptr,
    {
        AddrRegister { val: (0, 0), hi_ptr: true }
    }

    /// Sets both bytes at once; the latch is kept.
    pub fn set(&mut self, data: u16)
        ensures
            *final(self) == old(self).holding(data as int),
            final(self).value() == data,
    {
        proof {
            lemma_split_word(data);
        }
        self.val.0 = (data >> 8) as u8;
        self.val.1 = (data & 0xff) as u8;
    }

    /// Moves the address on by `inc`, wrapping within 14 bits.
    pub fn increment(&mut self, inc: u8)
        ensures
            final(self).value() == (old(self).value() + inc) % 0x4000,
            final(self).hi_ptr == old(self).hi_ptr,
    {
        let lo = self.val.1;
        self.val.1 = self.val.1.wrapping_add(inc);
        if lo > self.val.1 {
            self.val.0 = self.val.0.wrapping_add(1);
        }
        let ghost mid = word(self.val.0, self.val.1);
        assert(mid == (old(self).value() + inc) % 0x10000);
        self.check_mirror();
    }

    /// Folds an address above `$3FFF` into 14 bits.
    pub fn check_mirror(&mut self)
        ensures
            *final(self) == old(self).holding(old(self).value() % 0x4000),
            final(self).value() == old(self).value() % 0x4000,
    {
        let v = self.get();
        proof {
            lemma_low_mask(v);
            lemma_split_word(v);
        }
        if v > 0x3fff {
            self.set(v & 0x3fff);
        }
    }

    pub fn get(&self) -> (r: u16)
        ensures
            r == self.value(),
    {
        proof {
            lemma_join_bytes(self.val.0, self.val.1);
        }
        (self.val.0 as u16) << 8 | (self.val.1 as u16)
    }

    pub fn reset_latch(&mut self)
        ensures
            *final(self) == (AddrRegister { hi_ptr: true, ..*old(self) }),
    {
        self.hi_ptr = true;
    }
}

/// Bit of `$2000` that selects an address step of 32 instead of 1.
pub const VRAM_ADD_INCREMENT: u8 = 0b0000_0100;

/// Bit of `$2000` that asks for an NMI when vertical blank starts.
pub const GENERATE_NMI: u8 = 0b1000_0000;

/// `$2000`: nametable select, address step, pattern tables, sprite size, NMI.
#[derive(Clone, Copy, Debug, PartialEq, Eq, Structural)]
pub struct ControlRegister {
    pub bits: u8,
}

impl PPURegister for ControlRegister {
    open spec fn after_update(&self, data: u8) -> Self {
        ControlRegister { bits: data }
    }

    fn update(&mut self, data: u8) {
        self.bits = data;
        assert(self.after_update(data).bits == data);
    }
}

impl ControlRegister {
    pub fn new() -> (r: Self)
        ensures
            r.bits == 0,
    {
        ControlRegister { bits: 0 }
    }

    /// The step added to `$2006` after each access of `$2007`.
    pub open spec fn spec_vram_addr_increment(&self) -> u8 {
        if has(self.bits, VRAM_ADD_INCREMENT) {
            32
        } else {
            1
        }
    }

    pub fn vram_addr_increment(&self) -> (r: u8)
        ensures
            r == self.spec_vram_addr_increment(),
    {
        if self.bits & VRAM_ADD_INCREMENT == 0 {
            1
        } else {
            32
        }
    }

    /// Whether an NMI is raised when vertical blank starts.
    pub open spec fn spec_generate_vblank_nmi(&self) -> bool {
        has(self.bits, GENERATE_NMI)
    }

    pub fn generate_vblank_nmi(&self) -> (r: bool)
        ensures
            r == self.spec_generate_vblank_nmi(),
    {
        self.bits & GENERATE_NMI != 0
    }
}

/// `$2001`: greyscale, leftmost-column and show bits, colour emphasis.
#[derive(Clone, Copy, Debug, PartialEq, Eq, Structural)]
pub struct MaskRegister {
    pub bits: u8,
}

pub const GREYSCALE: u8 = 0b0000_0001;
pub const LEFTMOST_8PXL_BACKGROUND: u8 = 0b0000_0010;
pub const LEFTMOST_8PXL_SPRITE: u8 = 0b0000_0100;
pub const SHOW_BACKGROUND: u8 = 0b0000_1000;
pub const SHOW_SPRITES: u8 = 0b0001_0000;
pub const EMPHASISE_RED: u8 = 0b0010_0000;
pub const EMPHASISE_GREEN: u8 = 0b0100_0000;
pub const EMPHASISE_BLUE: u8 = 0b1000_0000;

/// A colour that `$2001` can emphasise.
#[derive(Clone, Copy, Debug, PartialEq, Eq, Structural)]
pub enum Color {
    Red,
    Green,
    Blue,
}

/// The one-element sequence `[c]` when `on` holds, else the empty one.
pub open spec fn seq_if(on: bool, c: Color) -> Seq<Color> {
    if on {
        seq![c]
    } else {
        Seq::empty()
    }
}

impl PPURegister for MaskRegister {
    open spec fn after_update(&self, data: u8) -> Self {
        MaskRegister { bits: data }
    }

    fn update(&mut self, data: u8) {
        self.bits = data;
        assert(self.after_update(data).bits == data);
    }
}

impl MaskRegister {
    pub fn new() -> (r: Self)
        ensures
            r.bits == 0,
    {
        MaskRegister { bits: 0 }
    }

    pub fn is_greyscale(&self) -> (r: bool)
        ensures
            r == has(self.bits, GREYSCALE),
    {
        self.bits & GREYSCALE != 0
    }

    pub fn is_leftmost_8pxl_bg(&self) -> (r: bool)
        ensures
            r == has(self.bits, LEFTMOST_8PXL_BACKGROUND),
    {
        self.bits & LEFTMOST_8PXL_BACKGROUND != 0
    }

    pub fn is_leftmost_8pxl_sprite(&self) -> (r: bool)
        ensures
            r == has(self.bits, LEFTMOST_8PXL_SPRITE),
    {
        self.bits & LEFTMOST_8PXL_SPRITE != 0
    }

    pub fn is_leftmost_show_bg(&self) -> (r: bool)
        ensures
            r == has(self.bits, SHOW_BACKGROUND),
    {
        self.bits & SHOW_BACKGROUND != 0
    }

    pub fn is_leftmost_show_sprite(&self) -> (r: bool)
        ensures
            r == has(self.bits, SHOW_SPRITES),
    {
        self.bits & SHOW_SPRITES != 0
    }

    /// The emphasised colours, red first, then blue, then green.
    pub fn emphasis(&self) -> (r: Vec<Color>)
        ensures
            r@ == seq_if(has(self.bits, EMPHASISE_RED), Color::Red) + seq_if(
                has(self.bits, EMPHASISE_BLUE),
                Color::Blue,
            ) + seq_if(has(self.bits, EMPHASISE_GREEN), Color::Green),
    {
        let mut res: Vec<Color> = Vec::new();
        if self.bits & EMPHASISE_RED != 0 {
            res.push(Color::Red);
        }
        let ghost after_red = res@;
        if self.bits & EMPHASISE_BLUE != 0 {
            res.push(Color::Blue);
        }
        let ghost after_blue = res@;
        if self.bits & EMPHASISE_GREEN != 0 {
            res.push(Color::Green);
        }
        assert(after_red == seq_if(has(self.bits, EMPHASISE_RED), Color::Red));
        assert(after_blue == after_red + seq_if(has(self.bits, EMPHASISE_BLUE), Color::Blue));
        assert(res@ == after_blue + seq_if(has(self.bits, EMPHASISE_GREEN), Color::Green));
        res
    }
}

pub const SPRITE_OVERFLOW: u8 = 0b0010_0000;
pub const SPRITE_ZERO_HIT: u8 = 0b0100_0000;
pub const VBLANK_STARTED: u8 = 0b1000_0000;

/// `$2002`: sprite overflow, sprite-0 hit and vertical blank.
#[derive(Clone, Copy, Debug, PartialEq, Eq, Structural)]
pub struct StatusRegister {
    pub bits: u8,
}

impl StatusRegister {
    pub fn new() -> (r: Self)
        ensures
            r.bits == 0,
    {
        StatusRegister { bits: 0 }
    }

    fn set_bits(&mut self, mask: u8, status: bool)
        ensures
            final(self).bits == crate::bits::with_bits(old(self).bits, mask, status),
    {
        if status {
            self.bits = self.bits | mask;
        } else {
            self.bits = self.bits & !mask;
        }
    }

    pub fn set_vblank_status(&mut self, status: bool)
        ensures
            final(self).bits == crate::bits::with_bits(old(self).bits, VBLANK_STARTED, status),
    {
        self.set_bits(VBLANK_STARTED, status);
    }

    pub fn set_sprite_zero_hit(&mut self, status: bool)
        ensures
            final(self).bits == crate::bits::with_bits(old(self).bits, SPRITE_ZERO_HIT, status),
    {
        self.set_bits(SPRITE_ZERO_HIT, status);
    }

    pub fn set_sprite_overflow(&mut self, status: bool)
        ensures
            final(self).bits == crate::bits::with_bits(old(self).bits, SPRITE_OVERFLOW, status),
    {
        self.set_bits(SPRITE_OVERFLOW, status);
    }

    /// Clears the bits of `mask`.
    pub fn set_bits_cleared(&mut self, mask: u8)
        ensures
            final(self).bits == crate::bits::with_bits(old(self).bits, mask, false),
    {
        self.set_bits(mask, false);
    }

    pub fn reset_vblank_status(&mut self)
        ensures
            final(self).bits == crate::bits::with_bits(old(self).bits, VBLANK_STARTED, false),
    {
        self.set_bits(VBLANK_STARTED, false);
    }

    pub fn is_in_vblank(&self) -> (r: bool)
        ensures
            r == has(self.bits, VBLANK_STARTED),
    {
        self.bits & VBLANK_STARTED != 0
    }

    pub fn snapshot(&self) -> (r: u8)
        ensures
            r == self.bits,
    {
        self.bits
    }
}

} // verus!
